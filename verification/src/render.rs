//! The trusted boundary to the terminal rendering collaborator.
//!
//! The keystroke-handling render loops of the prompts are delegated to the
//! `inquire` crate. Each call crosses the boundary through one wrapper
//! here; what the user answers depends on the terminal, so the contracts
//! state only what holds of every outcome.

use vstd::prelude::*;
use crate::select::Choice;

verus! {

#[verifier::external_type_specification]
#[verifier::external_body]
pub struct ExRenderConfig(inquire::ui::RenderConfig);

#[verifier::external_type_specification]
#[verifier::external_body]
pub struct ExInquireError(inquire::error::InquireError);

/// Why a prompt failed: the rendering collaborator's failure taxonomy,
/// carried over variant by variant and surfaced to the caller unmodified.
#[derive(Debug, Clone, PartialEq, Eq)]
pub enum PromptError {
    /// A consumed stream is not attached to a terminal.
    NotTty,
    /// The prompt was configured invalidly, e.g. given an empty option list.
    InvalidConfiguration(String),
    /// An input or output operation on the terminal failed.
    Io(String),
    /// The user canceled the prompt.
    Canceled,
    /// The user interrupted the prompt.
    Interrupted,
    /// A failure the rendering collaborator reports as its own.
    Other(String),
}

/// Relies on inquire::error::InquireError: each variant is carried over to
/// the matching variant of [`PromptError`], wrapped causes rendered as text.
#[verifier::external_body]
pub(crate) fn from_inquire(e: inquire::error::InquireError) -> (r: PromptError) {
    match e {
        inquire::error::InquireError::NotTTY => PromptError::NotTty,
        inquire::error::InquireError::InvalidConfiguration(s) => {
            PromptError::InvalidConfiguration(s)
        },
        inquire::error::InquireError::IO(err) => PromptError::Io(err.to_string()),
        inquire::error::InquireError::OperationCanceled => PromptError::Canceled,
        inquire::error::InquireError::OperationInterrupted => PromptError::Interrupted,
        inquire::error::InquireError::Custom(err) => PromptError::Other(err.to_string()),
    }
}

/// Relies on inquire::Confirm: built from the message with the given
/// default, help line and render configuration, its `prompt` blocks on the
/// terminal until the user answers or fails. The answer is the user's; no
/// more can be said of it.
#[verifier::external_body]
pub(crate) fn confirm_raw<'a>(
    message: &'a str,
    default: Option<bool>,
    help: Option<&'a str>,
    theme: inquire::ui::RenderConfig,
) -> (r: Result<bool, inquire::error::InquireError>) {
    let mut dialog = inquire::Confirm::new(message);
    dialog.default = default;
    dialog.help_message = help;
    dialog.render_config = theme;
    dialog.prompt()
}

/// Relies on inquire::Select: built from the message and the choice labels
/// with the given help line and render configuration, its `raw_prompt`
/// blocks on the terminal until the user picks an entry or fails. The
/// selected index is a position in the given list, and an empty list is
/// reported as a configuration error.
#[verifier::external_body]
pub(crate) fn select_raw<'a>(
    message: &'a str,
    choices: &Vec<Choice>,
    help: Option<&'a str>,
    theme: inquire::ui::RenderConfig,
) -> (r: Result<usize, inquire::error::InquireError>)
    ensures
        (r matches Ok(i) ==> i < choices@.len()),
        choices@.len() == 0 ==> r is Err,
{
    let labels: Vec<String> = choices.iter().map(|c| c.label.clone()).collect();
    let mut dialog = inquire::Select::new(message, labels);
    dialog.help_message = help;
    dialog.render_config = theme;
    match dialog.raw_prompt() {
        Ok(picked) => Ok(picked.index),
        Err(e) => Err(e),
    }
}

/// Relies on std's ToString through the option's Display implementation:
/// the label an option is rendered as. Which text that is belongs to the
/// option's own type, so nothing is claimed of it.
#[verifier::external_body]
pub(crate) fn to_label<T: std::fmt::Display>(value: &T) -> String {
    value.to_string()
}

} // verus!
