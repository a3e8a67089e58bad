//! How the end of a run is shown to the user.

use crate::failure::{exit_code, exit_status, Failure};
use crate::text::occurs_in;
use vstd::prelude::*;
use vstd::string::*;

verus! {

/// The escape sequence that ends all colouring.
pub open spec fn reset_mark() -> Seq<char> {
    "\x1B[0m"@
}

/// The escape sequence that begins red text.
pub open spec fn red_mark() -> Seq<char> {
    "\x1B[31m"@
}

/// The escape sequence that begins bright green text.
pub open spec fn bright_green_mark() -> Seq<char> {
    "\x1B[92m"@
}

/// Whether `out` is `text` in the colour that `mark` begins: it stands
/// between `mark` and the reset, and where `text` holds no reset of its own,
/// it stands there unchanged.
pub open spec fn coloured(out: Seq<char>, mark: Seq<char>, text: Seq<char>) -> bool {
    &&& out.len() >= mark.len() + reset_mark().len()
    &&& out.subrange(0, mark.len() as int) == mark
    &&& out.subrange(out.len() - reset_mark().len(), out.len() as int) == reset_mark()
    &&& !occurs_in(reset_mark(), text) ==> out == mark + text + reset_mark()
}

/// Whether `out` shows `text`, plainly or in the colour that `mark` begins.
/// Which of the two depends on the terminal and the environment.
pub open spec fn shows(out: Seq<char>, mark: Seq<char>, text: Seq<char>) -> bool {
    out == text || coloured(out, mark, text)
}

/// `text` as `colored` renders it in red.
///
/// Calls `colored::Colorize::red` on `text` and formats the result. Believed
/// of it: where `colored` finds that colours are off, the result is `text`;
/// else it is the red escape sequence, then `text`, in which each reset
/// sequence is followed by the red one again, then the reset sequence.
#[verifier::external_body]
fn red(text: &str) -> (out: String)
    ensures
        shows(out@, red_mark(), text@),
{
    format!("{}", colored::Colorize::red(text))
}

/// `text` as `colored` renders it in bright green.
///
/// Calls `colored::Colorize::bright_green` on `text` and formats the result.
/// Believed of it: where `colored` finds that colours are off, the result is
/// `text`; else it is the bright green escape sequence, then `text`, in which
/// each reset sequence is followed by the bright green one again, then the
/// reset sequence.
#[verifier::external_body]
fn bright_green(text: &str) -> (out: String)
    ensures
        shows(out@, bright_green_mark(), text@),
{
    format!("{}", colored::Colorize::bright_green(text))
}

/// What the user is told at the end of a run.
#[derive(Clone, Debug, PartialEq, Eq)]
pub struct Report {
    /// The line to print.
    pub line: String,
    /// Whether it goes to the error stream.
    pub is_error: bool,
    /// The status that the process ends with.
    pub code: i32,
}

/// The report of a run that ended with `result`: the confirmation in bright
/// green for the output stream with status 0, or the failure's message in red
/// for the error stream with status 1.
pub fn report(result: &Result<String, Failure>) -> (out: Report)
    ensures
        out.is_error == (result is Err),
        out.code == exit_status(result is Ok),
        match *result {
            Ok(confirmation) => shows(out.line@, bright_green_mark(), confirmation@),
            Err(failure) => shows(out.line@, red_mark(), failure@.message()),
        },
{
    let code = exit_code(result);
    match result {
        Ok(confirmation) => Report {
            line: bright_green(confirmation.as_str()),
            is_error: false,
            code,
        },
        Err(failure) => {
            let message = failure.message();
            Report { line: red(message.as_str()), is_error: true, code }
        },
    }
}

} // verus!
