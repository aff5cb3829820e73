//! Interactive terminal prompting primitives: a yes/no confirmation, a
//! single-choice selection over an ordered list, and a background-task
//! spinner that only appears once a task has outlived a configurable delay.
//!
//! The logic here is the coordination core: pairing options with their
//! positions so a selected value can be recovered by index, the polling
//! state machine that decides whether a spinner is ever shown, the rule a
//! confirmation resolves by, and the capability check over the two terminal
//! streams. The actual keystroke handling and drawing are delegated to
//! terminal rendering collaborators behind a small set of trusted calls.

pub mod confirm;
pub mod dialog;
pub mod progress;
pub mod render;
pub mod select;
pub mod spinner;
pub mod terminal;
pub mod theme;
