//! Server-side protocol logic: screening an incoming command and building
//! the response for an execution outcome.
//!
//! The server accepts a command, runs it off the request-handling path, and
//! always answers an accepted command with a success status; command failure
//! is carried in the response's code field, never in the transport status.

use vstd::prelude::*;

use crate::protocol::is_blank;
use crate::protocol::text_is_blank;
use crate::protocol::Command;
use crate::protocol::CommandResponse;
use crate::protocol::CODE_DISPATCH_FAILURE;
use crate::protocol::STATUS_BAD_REQUEST;
use vstd::string::StringExecFns;

verus! {

/// What the server does with an incoming command: reject it outright with a
/// client-error status, or hand exactly its text to the executor.
pub enum ServerDecision {
    /// The command is blank: answer with this status and diagnostic body and
    /// never invoke the executor.
    Reject { status: u16, body: String },
    /// The command is acceptable: execute this very text through a shell.
    Execute { command: String },
}

/// How the offloaded execution of an accepted command ended: the spawned
/// process terminated, or the dispatch mechanism itself failed to run it.
pub enum ExecOutcome {
    /// The process ran to completion with this exit code and these captured
    /// streams.
    Completed { code: i32, stdout: String, stderr: String },
    /// The execution task could not be completed at all (a spawn-level
    /// failure, not the command exiting non-zero).
    DispatchFailed,
}

/// Decides whether an incoming command is executed or rejected. A blank
/// command (empty or whitespace-only) is rejected with a client-error status
/// and never reaches the executor; any other command is passed on verbatim.
pub fn screen_command(cmd: &Command) -> (r: ServerDecision)
    ensures
        is_blank(cmd.command@) <==> r is Reject,
        r is Reject ==> r->Reject_status == STATUS_BAD_REQUEST
            && r->Reject_body@ == "command must not be empty"@,
        r is Execute ==> r->Execute_command@ == cmd.command@,
{
    if text_is_blank(cmd.command.as_str()) {
        ServerDecision::Reject {
            status: STATUS_BAD_REQUEST,
            body: String::from_str("command must not be empty"),
        }
    } else {
        ServerDecision::Execute { command: cmd.command.clone() }
    }
}

/// The response body owed for an execution outcome: the real exit code and
/// streams when the process ran, and the reserved dispatch-failure code with
/// a diagnostic naming the original command when it could not be run at all.
pub open spec fn dispatched(command: Seq<char>, outcome: ExecOutcome) -> (int, Seq<char>, Seq<char>) {
    match outcome {
        ExecOutcome::Completed { code, stdout, stderr } => (
            code as int,
            stdout@,
            stderr@,
        ),
        ExecOutcome::DispatchFailed => (
            CODE_DISPATCH_FAILURE as int,
            "spawn_server: command '"@ + command + "' failed"@,
            "spawn error"@,
        ),
    }
}

/// Builds the response the server returns for an accepted command, given how
/// its offloaded execution ended. Every outcome yields a fully populated
/// response; a dispatch failure never drops the connection.
pub fn dispatch_response(cmd: &Command, outcome: ExecOutcome) -> (r: CommandResponse)
    ensures
        (r.code as int, r.stdout@, r.stderr@) == dispatched(cmd.command@, outcome),
{
    match outcome {
        ExecOutcome::Completed { code, stdout, stderr } => CommandResponse {
            code,
            stdout,
            stderr,
        },
        ExecOutcome::DispatchFailed => CommandResponse {
            code: CODE_DISPATCH_FAILURE,
            stdout: String::from_str("spawn_server: command '")
                .concat(cmd.command.as_str())
                .concat("' failed"),
            stderr: String::from_str("spawn error"),
        },
    }
}

} // verus!
