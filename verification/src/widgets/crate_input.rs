//! A version field with a button that looks up the latest version.
use vstd::prelude::*;
use crate::text;
use crate::widgets::input::{InputLook, can_show, input_display, look_of, shown_text};

verus! {

/// A crate input.
#[derive(Debug, Clone)]
pub struct CrateInput {
    pub label: String,
    pub value: String,
    pub placeholder: String,
    pub cursor_pos: usize,
    pub focused: bool,
    pub editing: bool,
    pub button_focused: bool,
    pub loading: bool,
}

impl CrateInput {
    /// An unfocused input with the cursor after its text; the crate name is
    /// not kept (the search takes it from the field).
    pub fn new(label: &str, _crate_name: &str, value: &str, placeholder: &str) -> (r: CrateInput)
        ensures
            r.label@ == label@,
            r.value@ == value@,
            r.placeholder@ == placeholder@,
            r.cursor_pos == text::byte_len(value@),
            !r.focused && !r.editing && !r.button_focused && !r.loading,
    {
        CrateInput {
            label: text::owned(label),
            value: text::owned(value),
            placeholder: text::owned(placeholder),
            cursor_pos: text::utf8_len(value),
            focused: false,
            editing: false,
            button_focused: false,
            loading: false,
        }
    }

    /// The text shown in the input and how it is styled.
    pub fn display(&self) -> (r: (String, InputLook))
        requires
            can_show(self.value@, self.editing, self.cursor_pos as int),
        ensures
            r.0@ == shown_text(self.value@, self.placeholder@, self.editing, self.cursor_pos as int),
            r.1 == look_of(self.value@, self.editing),
    {
        input_display(self.value.as_str(), self.placeholder.as_str(), self.editing, self.cursor_pos)
    }

    /// The caption of the lookup button.
    pub fn button_text(&self) -> (r: &'static str)
        ensures
            r@ == if self.loading {
                "⏳ Loading"@
            } else {
                "Get Latest"@
            },
    {
        if self.loading {
            "⏳ Loading"
        } else {
            "Get Latest"
        }
    }
}

} // verus!
