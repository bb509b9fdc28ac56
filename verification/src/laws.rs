//! Laws of the protocol as a whole: what a caller of the client receives
//! when the two sides are composed.

use vstd::prelude::*;

use crate::client::classified;
use crate::client::HttpOutcome;
use crate::protocol::is_blank;
use crate::protocol::Command;
use crate::protocol::CommandResponse;
use crate::protocol::CODE_DISPATCH_FAILURE;
use crate::protocol::CODE_TRANSPORT_FAILURE;
use crate::server::dispatched;
use crate::server::ExecOutcome;
use crate::protocol::STATUS_OK;

verus! {

/// Round trip: when the server accepts a command (it is not blank), answers
/// with the success status, and the body decodes, the client returns exactly
/// what the execution produced — the process's own exit code and streams when
/// it ran (even a non-zero code), and the reserved dispatch-failure code when
/// the server could not run it at all.
pub proof fn lemma_accepted_round_trip(cmd: Command, outcome: ExecOutcome, resp: CommandResponse)
    requires
        !is_blank(cmd.command@),
        (resp.code as int, resp.stdout@, resp.stderr@) == dispatched(cmd.command@, outcome),
    ensures
        classified(HttpOutcome::Replied { status: STATUS_OK, body: Ok(resp) })
            == (resp.code as int, resp.stdout@, resp.stderr@),
        outcome matches ExecOutcome::Completed { code, stdout, stderr }
            ==> classified(HttpOutcome::Replied { status: STATUS_OK, body: Ok(resp) })
                == (code as int, stdout@, stderr@),
        outcome is DispatchFailed
            ==> classified(HttpOutcome::Replied { status: STATUS_OK, body: Ok(resp) }).0
                == CODE_DISPATCH_FAILURE as int,
{
}

/// Transport failure: when the server is unreachable (the exchange never
/// completes), the client returns the transport-failure code with empty
/// stdout and a non-empty diagnostic in stderr.
pub proof fn lemma_transport_failure_diagnostic(err: String)
    ensures
        classified(HttpOutcome::SendFailed { err }).0 == CODE_TRANSPORT_FAILURE as int,
        classified(HttpOutcome::SendFailed { err }).1.len() == 0,
        classified(HttpOutcome::SendFailed { err }).2.len() > 0,
{
    reveal_strlit("RPC Error: ");
}

} // verus!
