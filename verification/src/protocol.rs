//! The shared request/response data model and the numeric code conventions
//! that the client and the server agree on.

use vstd::prelude::*;
use vstd::string::StrSliceExecFns;

verus! {

/// The exit-code field of a response when the server could not run the
/// command at all (the execution dispatch itself failed). A sentinel, not a
/// real process exit code.
pub const CODE_DISPATCH_FAILURE: i32 = 100;

/// Client-side code: the HTTP exchange could not be completed at all.
pub const CODE_TRANSPORT_FAILURE: i32 = -1;

/// Client-side code: the exchange completed but the server reported a
/// non-success status.
pub const CODE_NON_SUCCESS_STATUS: i32 = -2;

/// Client-side code: the transport client could not be built locally.
pub const CODE_CLIENT_BUILD_FAILURE: i32 = -3;

/// Client-side code: the body of a success-status response could not be
/// decoded.
pub const CODE_SUCCESS_DECODE_FAILURE: i32 = -4;

/// Client-side code: the body of a non-success-status response could not be
/// decoded.
pub const CODE_NON_SUCCESS_DECODE_FAILURE: i32 = -5;

/// The HTTP status the server answers with for every accepted command.
pub const STATUS_OK: u16 = 200;

/// The HTTP status the server answers with for an empty command.
pub const STATUS_BAD_REQUEST: u16 = 400;

/// A request: one shell command line to execute.
#[derive(Debug)]
pub struct Command {
    pub command: String,
}

/// A response: the exit code of the executed process (or a sentinel) and its
/// captured output streams. Always fully populated.
#[derive(Debug)]
pub struct CommandResponse {
    pub code: i32,
    pub stdout: String,
    pub stderr: String,
}

impl Default for Command {
    /// An empty command line.
    fn default() -> (r: Self)
        ensures
            r.command@ === Seq::<char>::empty(),
    {
        Command { command: String::new() }
    }
}

impl Default for CommandResponse {
    /// Code zero with empty streams.
    fn default() -> (r: Self)
        ensures
            r.code == 0,
            r.stdout@ === Seq::<char>::empty(),
            r.stderr@ === Seq::<char>::empty(),
    {
        CommandResponse { code: 0, stdout: String::new(), stderr: String::new() }
    }
}

/// One of the characters that count as whitespace when deciding whether a
/// command line is blank (the Unicode `White_Space` set).
pub open spec fn is_space_char(c: char) -> bool {
    c == '\u{0009}' || c == '\u{000A}' || c == '\u{000B}' || c == '\u{000C}' || c == '\u{000D}'
        || c == '\u{0020}' || c == '\u{0085}' || c == '\u{00A0}' || c == '\u{1680}'
        || ('\u{2000}' <= c && c <= '\u{200A}') || c == '\u{2028}' || c == '\u{2029}'
        || c == '\u{202F}' || c == '\u{205F}' || c == '\u{3000}'
}

/// A command line is blank when it is empty or made of whitespace only; a
/// blank command is rejected by the server and never reaches the executor.
pub open spec fn is_blank(s: Seq<char>) -> bool {
    forall|i: int| 0 <= i < s.len() ==> is_space_char(s[i])
}

/// Whether one character counts as whitespace for command screening.
pub fn char_is_space(c: char) -> (r: bool)
    ensures
        r == is_space_char(c),
{
    c == '\u{0009}' || c == '\u{000A}' || c == '\u{000B}' || c == '\u{000C}' || c == '\u{000D}'
        || c == '\u{0020}' || c == '\u{0085}' || c == '\u{00A0}' || c == '\u{1680}'
        || ('\u{2000}' <= c && c <= '\u{200A}') || c == '\u{2028}' || c == '\u{2029}'
        || c == '\u{202F}' || c == '\u{205F}' || c == '\u{3000}'
}

/// Whether a command line is empty or whitespace-only.
pub fn text_is_blank(s: &str) -> (r: bool)
    ensures
        r == is_blank(s@),
{
    let n: usize = s.unicode_len();
    let mut i: usize = 0;
    while i < n
        invariant
            n == s@.len(),
            i <= n,
            forall|j: int| 0 <= j < i ==> is_space_char(s@[j]),
        decreases n - i,
    {
        let c = s.get_char(i);
        if !char_is_space(c) {
            return false;
        }
        i += 1;
    }
    true
}

} // verus!
