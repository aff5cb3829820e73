//! The trusted boundary to the spinner drawing collaborator.
//!
//! Drawing the steadily ticking spinner is delegated to the `indicatif`
//! crate; each call crosses the boundary through one wrapper here. The
//! composition — which template, which message, whether a prefix label is
//! set, and the tick interval — is verified code.

use vstd::prelude::*;

verus! {

#[verifier::external_type_specification]
#[verifier::external_body]
pub struct ExProgressBar(indicatif::ProgressBar);

#[verifier::external_type_specification]
#[verifier::external_body]
pub struct ExProgressStyle(indicatif::ProgressStyle);

/// Relies on indicatif::ProgressBar::new_spinner: a fresh spinner drawing
/// to the error stream, hidden when that stream is not a terminal.
#[verifier::external_body]
fn new_spinner() -> indicatif::ProgressBar {
    indicatif::ProgressBar::new_spinner()
}

/// Relies on indicatif::ProgressStyle::with_template: the style the given
/// template describes, or nothing when the template does not parse.
#[verifier::external_body]
fn style_with_template(template: &str) -> Option<indicatif::ProgressStyle> {
    match indicatif::ProgressStyle::with_template(template) {
        Ok(style) => Some(style),
        Err(_) => None,
    }
}

/// Relies on indicatif::ProgressBar::set_style.
#[verifier::external_body]
fn set_style(bar: &indicatif::ProgressBar, style: indicatif::ProgressStyle) {
    bar.set_style(style);
}

/// Relies on indicatif::ProgressBar::set_message.
#[verifier::external_body]
fn set_message(bar: &indicatif::ProgressBar, message: &str) {
    bar.set_message(message.to_string());
}

/// Relies on indicatif::ProgressBar::set_prefix.
#[verifier::external_body]
fn set_prefix(bar: &indicatif::ProgressBar, prefix: &str) {
    bar.set_prefix(prefix.to_string());
}

/// Relies on indicatif::ProgressBar::enable_steady_tick: the spinner
/// animates on its own at the given interval from now on.
#[verifier::external_body]
fn enable_steady_tick_millis(bar: &indicatif::ProgressBar, interval_millis: u64) {
    bar.enable_steady_tick(std::time::Duration::from_millis(interval_millis));
}

/// Relies on indicatif::ProgressBar::finish_and_clear: the spinner stops
/// and its drawing is removed from the terminal.
#[verifier::external_body]
fn finish_and_clear(bar: &indicatif::ProgressBar) {
    bar.finish_and_clear();
}

/// Puts up the steadily ticking spinner for a task that has outlived its
/// delay: the message as the spinner's label, the help line — when there is
/// one — as a trailing prefix, ticking every hundred milliseconds.
pub fn start_spinner<'a>(message: &'a str, help_message: Option<&'a str>) -> indicatif::ProgressBar {
    let bar = new_spinner();
    match style_with_template("{spinner} {wide_msg} {prefix:>}") {
        Some(style) => set_style(&bar, style),
        None => (),
    }
    set_message(&bar, message);
    match help_message {
        Some(help) => set_prefix(&bar, help),
        None => (),
    }
    enable_steady_tick_millis(&bar, 100);
    bar
}

/// Takes a shown spinner down once the task is done: its drawing leaves the
/// terminal.
pub fn clear_spinner(bar: indicatif::ProgressBar) {
    finish_and_clear(&bar);
}

} // verus!
