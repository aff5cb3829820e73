//! The prompt descriptor and its three payload kinds.

use vstd::prelude::*;

verus! {

/// Payload of a yes/no question: the answer pre-selected when the user
/// submits without typing one, if any.
#[derive(Debug, Clone)]
pub struct Confirm {
    pub default: Option<bool>,
}

/// Payload of a single choice out of an ordered list of options. The order
/// is the display and index order; callers are expected to pass a non-empty
/// list.
pub struct Select<T> {
    pub options: Vec<T>,
}

/// Payload wrapping a single-shot task to run while a spinner may show.
/// The task is owned here until the prompt runs it.
pub struct Spinner<F>(pub F);

impl<F: FnOnce() -> T + Send, T: Send> Spinner<F> {
    pub fn new(f: F) -> (r: Self)
        ensures
            r.0 == f,
    {
        Spinner(f)
    }
}

/// A prompt descriptor: the message shown, an optional help line, and the
/// kind-specific payload. Built once, consumed by its prompt operation.
#[derive(Debug, Clone)]
pub struct Dialog<'a, Type> {
    pub message: &'a str,
    pub help_message: Option<&'a str>,
    pub typed: Type,
}

} // verus!
