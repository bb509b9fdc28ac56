//! Client-side classification of a transport outcome into the uniform
//! `(code, stdout, stderr)` result.
//!
//! Both call modes of the client (blocking and non-blocking) speak the same
//! wire protocol and apply this same mapping; only their scheduling differs,
//! which is not part of the functional contract.

use vstd::prelude::*;

use crate::protocol::CommandResponse;
use crate::protocol::CODE_CLIENT_BUILD_FAILURE;
use crate::protocol::CODE_NON_SUCCESS_DECODE_FAILURE;
use crate::protocol::CODE_NON_SUCCESS_STATUS;
use crate::protocol::CODE_SUCCESS_DECODE_FAILURE;
use crate::protocol::CODE_TRANSPORT_FAILURE;
use vstd::string::StringExecFns;

verus! {

/// What became of one attempted HTTP exchange, as the transport reports it.
/// A `Replied` body carries the decoded response, or the decoder's diagnostic
/// where the body could not be decoded as a response.
pub enum HttpOutcome {
    /// The transport client could not be built locally.
    BuildFailed { err: String },
    /// The request never completed (network or protocol failure).
    SendFailed { err: String },
    /// The exchange completed with this status code.
    Replied { status: u16, body: Result<CommandResponse, String> },
}

/// An HTTP status code in the success range.
pub open spec fn is_success_status(status: u16) -> bool {
    200 <= status < 300
}

/// The uniform result the client returns for a given transport outcome:
/// the executed command's own code and streams when the exchange succeeded
/// and decoded, and one of the reserved negative codes with a diagnostic in
/// `stderr` for each local failure.
pub open spec fn classified(o: HttpOutcome) -> (int, Seq<char>, Seq<char>) {
    match o {
        HttpOutcome::BuildFailed { err } => (
            CODE_CLIENT_BUILD_FAILURE as int,
            Seq::<char>::empty(),
            "Client Build Error: "@ + err@,
        ),
        HttpOutcome::SendFailed { err } => (
            CODE_TRANSPORT_FAILURE as int,
            Seq::<char>::empty(),
            "RPC Error: "@ + err@,
        ),
        HttpOutcome::Replied { status, body } => {
            if is_success_status(status) {
                match body {
                    Ok(resp) => (resp.code as int, resp.stdout@, resp.stderr@),
                    Err(err) => (
                        CODE_SUCCESS_DECODE_FAILURE as int,
                        Seq::<char>::empty(),
                        "JSON parse error: "@ + err@,
                    ),
                }
            } else {
                match body {
                    Ok(resp) => (
                        CODE_NON_SUCCESS_STATUS as int,
                        resp.stdout@,
                        "No Success Error: "@ + resp.stderr@,
                    ),
                    Err(err) => (
                        CODE_NON_SUCCESS_DECODE_FAILURE as int,
                        Seq::<char>::empty(),
                        "JSON parse error: "@ + err@,
                    ),
                }
            }
        },
    }
}

/// Maps a transport outcome to the three-value result the caller receives.
/// Every outcome yields a well-formed result; no failure escapes as a panic.
pub fn classify_outcome(o: HttpOutcome) -> (r: (i32, String, String))
    ensures
        (r.0 as int, r.1@, r.2@) == classified(o),
{
    match o {
        HttpOutcome::BuildFailed { err } => (
            CODE_CLIENT_BUILD_FAILURE,
            String::new(),
            String::from_str("Client Build Error: ").concat(err.as_str()),
        ),
        HttpOutcome::SendFailed { err } => (
            CODE_TRANSPORT_FAILURE,
            String::new(),
            String::from_str("RPC Error: ").concat(err.as_str()),
        ),
        HttpOutcome::Replied { status, body } => {
            if 200 <= status && status < 300 {
                match body {
                    Ok(resp) => (resp.code, resp.stdout, resp.stderr),
                    Err(err) => (
                        CODE_SUCCESS_DECODE_FAILURE,
                        String::new(),
                        String::from_str("JSON parse error: ").concat(err.as_str()),
                    ),
                }
            } else {
                match body {
                    Ok(resp) => (
                        CODE_NON_SUCCESS_STATUS,
                        resp.stdout,
                        String::from_str("No Success Error: ").concat(resp.stderr.as_str()),
                    ),
                    Err(err) => (
                        CODE_NON_SUCCESS_DECODE_FAILURE,
                        String::new(),
                        String::from_str("JSON parse error: ").concat(err.as_str()),
                    ),
                }
            }
        },
    }
}

} // verus!
