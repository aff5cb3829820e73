//! Choosing between the colored theme and its plain fallback.
//!
//! The two accent colors come from a color-conversion collaborator that may
//! fail for either of them. Resolution is total: with both colors at hand
//! the colored theme is used, otherwise the plain one — a fallback, never an
//! error.

use vstd::prelude::*;

verus! {

/// A color as its red, green and blue channels.
#[derive(Debug, Clone, Copy, PartialEq, Eq, Structural)]
pub struct Rgb {
    pub red: u8,
    pub green: u8,
    pub blue: u8,
}

/// The theme a prompt renders with: both accent colors, or none.
#[derive(Debug, Clone, Copy, PartialEq, Eq, Structural)]
pub enum ThemeChoice {
    /// The highlight color and the help-line color, in that order.
    Colored(Rgb, Rgb),
    /// No colors: every styled element falls back to its plain form.
    Plain,
}

/// Picks the theme from the two resolved accent colors: colored exactly
/// when both resolutions succeeded, plain otherwise.
pub fn theme_choice(highlight: Option<Rgb>, help: Option<Rgb>) -> (t: ThemeChoice)
    ensures
        highlight is Some && help is Some ==> t == ThemeChoice::Colored(
            highlight.unwrap(),
            help.unwrap(),
        ),
        highlight is None || help is None ==> t == ThemeChoice::Plain,
{
    match (highlight, help) {
        (Some(h), Some(s)) => ThemeChoice::Colored(h, s),
        _ => ThemeChoice::Plain,
    }
}

} // verus!
