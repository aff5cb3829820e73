//! The rule a yes/no prompt resolves by.

use vstd::prelude::*;
use crate::dialog::{Confirm, Dialog};
use crate::render::{confirm_raw, from_inquire, PromptError};

verus! {

/// Resolves a confirmation from what the user submitted: an explicit answer
/// wins, and an empty submission falls back to the pre-selected default.
/// With neither, nothing is resolved and the prompt has to keep asking.
pub fn confirm_outcome(default: Option<bool>, submitted: Option<bool>) -> (r: Option<bool>)
    ensures
        submitted is Some ==> r == submitted,
        submitted is None ==> r == default,
{
    match submitted {
        Some(answer) => Some(answer),
        None => default,
    }
}

impl<'a> Dialog<'a, Confirm> {
    /// Asks the yes/no question and blocks until the user answers or the
    /// prompt fails. The pre-selected default, if any, is what an empty
    /// submission resolves to; the answer itself is the user's, and a
    /// failure of the underlying prompt is surfaced unmodified.
    pub fn raw_prompt(self, theme: inquire::ui::RenderConfig) -> Result<bool, PromptError> {
        match confirm_raw(self.message, self.typed.default, self.help_message, theme) {
            Ok(answer) => Ok(answer),
            Err(e) => Err(from_inquire(e)),
        }
    }
}

} // verus!
