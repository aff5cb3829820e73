//! The capability check over the two terminal streams.

use vstd::prelude::*;
use crossterm::tty::IsTty;
use crate::dialog::Dialog;

verus! {

/// Relies on crossterm's IsTty for the error stream: whether it is attached
/// to an interactive terminal. The answer belongs to the process
/// environment, so nothing is claimed of it.
#[verifier::external_body]
fn stderr_is_tty() -> bool {
    std::io::stderr().is_tty()
}

/// Relies on crossterm's IsTty for the input stream: whether it is attached
/// to an interactive terminal. The answer belongs to the process
/// environment, so nothing is claimed of it.
#[verifier::external_body]
fn stdin_is_tty() -> bool {
    std::io::stdin().is_tty()
}

/// An interactive session needs both streams on a terminal: the error
/// stream to draw on and the input stream to read keys from. Prompting is
/// possible exactly when both are, and never when either is redirected
/// elsewhere.
pub fn can_prompt_from(stderr_tty: bool, stdin_tty: bool) -> (r: bool)
    ensures
        r == (stderr_tty && stdin_tty),
{
    stderr_tty && stdin_tty
}

impl Dialog<'_, ()> {
    /// True if stderr and stdin are ttys
    pub fn can_prompt() -> bool {
        let stderr_tty = stderr_is_tty();
        let stdin_tty = stdin_is_tty();
        can_prompt_from(stderr_tty, stdin_tty)
    }
}

} // verus!
