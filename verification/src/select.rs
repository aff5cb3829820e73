//! Pairing options with their positions, and recovering the selected value.
//!
//! The selection list is rendered from display strings, while the caller
//! wants the original typed value back. Each label is therefore paired with
//! the position it came from; after the user picks an entry, the recorded
//! position is the one place the owned value is taken out of the list.

use vstd::prelude::*;
use crate::dialog::{Dialog, Select};
use crate::render::{from_inquire, select_raw, to_label, PromptError};

verus! {

/// An option's original position paired with the label it is rendered as.
/// The position is a valid index into the option list by construction.
pub struct Choice {
    pub index: usize,
    pub label: String,
}

/// Builds the choice list: entry `i` of the result pairs position `i` with
/// `labels[i]`.
pub fn make_choices(labels: &Vec<String>) -> (r: Vec<Choice>)
    ensures
        r@.len() == labels@.len(),
        forall|i: int|
            0 <= i < r@.len() ==> r@[i].index == i && r@[i].label@ == labels@[i]@,
{
    let mut choices: Vec<Choice> = Vec::new();
    let mut i: usize = 0;
    while i < labels.len()
        invariant
            i <= labels@.len(),
            choices@.len() == i,
            forall|j: int|
                0 <= j < i ==> choices@[j].index == j && choices@[j].label@ == labels@[j]@,
        decreases labels@.len() - i,
    {
        let label = labels[i].clone();
        choices.push(Choice { index: i, label });
        i = i + 1;
    }
    choices
}

/// Removes and returns the option at the chosen position. This is the only
/// way ownership of the selected value leaves the list: the value at the
/// position comes out exactly once, and every other option keeps its order.
pub fn take_selected<T>(options: &mut Vec<T>, index: usize) -> (r: T)
    requires
        index < old(options)@.len(),
    ensures
        r == old(options)@[index as int],
        final(options)@ == old(options)@.remove(index as int),
        final(options)@.len() == old(options)@.len() - 1,
{
    options.remove(index)
}

/// The labels the options are rendered as, one per option, in order.
pub fn labels_of<T: std::fmt::Display>(options: &Vec<T>) -> (r: Vec<String>)
    ensures
        r@.len() == options@.len(),
{
    let mut labels: Vec<String> = Vec::new();
    let mut i: usize = 0;
    while i < options.len()
        invariant
            i <= options@.len(),
            labels@.len() == i,
        decreases options@.len() - i,
    {
        labels.push(to_label(&options[i]));
        i = i + 1;
    }
    labels
}

impl<'a, T: std::fmt::Display> Dialog<'a, Select<T>> {
    /// Presents the options as a selectable list and blocks until the user
    /// picks one or the prompt fails. On success the result is the chosen
    /// zero-based position together with the value that originally stood
    /// there, moved out of the list; a failure of the underlying prompt is
    /// surfaced unmodified. An empty option list is a caller error the
    /// underlying prompt rejects.
    pub fn raw_prompt(self, theme: inquire::ui::RenderConfig) -> (r: Result<
        (usize, T),
        PromptError,
    >)
        ensures
            (r matches Ok(p) ==> p.0 < self.typed.options@.len() && p.1 == self.typed.options@[p.0 as int]),
            self.typed.options@.len() == 0 ==> r is Err,
    {
        let Dialog { message, help_message, typed } = self;
        let mut options = typed.options;
        let labels = labels_of(&options);
        let choices = make_choices(&labels);
        match select_raw(message, &choices, help_message, theme) {
            Ok(picked) => {
                let id = choices[picked].index;
                let value = take_selected(&mut options, id);
                Ok((id, value))
            },
            Err(e) => Err(from_inquire(e)),
        }
    }
}

} // verus!
