//! A remote shell-execution protocol: a client sends a command line to a
//! server over HTTP, the server runs it through a shell and replies with the
//! process's exit code and captured output streams.
//!
//! This crate holds the verified core of the protocol: address resolution,
//! the request/response data model, server-side screening and response
//! construction, and the client-side classification of transport outcomes
//! into the uniform `(code, stdout, stderr)` result.

pub mod client;
pub mod config;
pub mod laws;
pub mod protocol;
pub mod server;
