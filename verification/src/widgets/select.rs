//! A single-choice field that shows its chosen option.
use vstd::prelude::*;
use crate::text;

verus! {

/// A select: options as (value, label) pairs and the chosen index.
#[derive(Debug, Clone)]
pub struct Select {
    pub label: String,
    pub options: Vec<(String, String)>,
    pub selected: usize,
    pub focused: bool,
}

impl Select {
    /// An unfocused select with the first option chosen.
    pub fn new(label: &str, options: Vec<(String, String)>) -> (r: Select)
        ensures
            r.label@ == label@,
            r.options == options,
            r.selected == 0,
            !r.focused,
    {
        Select { label: text::owned(label), options, selected: 0, focused: false }
    }

    /// The text shown: `"No options"`, or `"◈ "` and the label of the chosen
    /// option (the last one when the index is past the end).
    pub fn display(&self) -> (r: String)
        ensures
            self.options@.len() == 0 ==> r@ == "No options"@,
            self.options@.len() > 0 ==> r@ == "◈ "@ + self.options@[(if self.selected
                < self.options@.len() {
                self.selected as int
            } else {
                self.options@.len() - 1
            })].1@,
    {
        if self.options.len() == 0 {
            text::owned("No options")
        } else {
            let last = self.options.len() - 1;
            let idx = if self.selected < last {
                self.selected
            } else {
                last
            };
            text::concat("◈ ", self.options[idx].1.as_str())
        }
    }
}

} // verus!
