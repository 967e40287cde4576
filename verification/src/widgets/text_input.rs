//! A text field, single- or multi-line.
use vstd::prelude::*;
use crate::text;
use crate::widgets::input::{InputLook, can_show, input_display, look_of, shown_text};

verus! {

/// A text input.
#[derive(Debug, Clone)]
pub struct TextInput {
    pub label: String,
    pub value: String,
    pub placeholder: String,
    pub cursor_pos: usize,
    pub focused: bool,
    pub editing: bool,
    pub multiline: bool,
    pub scroll_offset: u16,
}

impl TextInput {
    /// An unfocused single-line input with the cursor after its text.
    pub fn new(label: &str, value: &str, placeholder: &str) -> (r: TextInput)
        ensures
            r.label@ == label@,
            r.value@ == value@,
            r.placeholder@ == placeholder@,
            r.cursor_pos == text::byte_len(value@),
            !r.focused && !r.editing && !r.multiline,
            r.scroll_offset == 0,
    {
        TextInput {
            label: text::owned(label),
            value: text::owned(value),
            placeholder: text::owned(placeholder),
            cursor_pos: text::utf8_len(value),
            focused: false,
            editing: false,
            multiline: false,
            scroll_offset: 0,
        }
    }

    /// The text shown in the input and how it is styled.
    pub fn display(&self) -> (r: (String, InputLook))
        requires
            can_show(self.value@, self.editing, self.cursor_pos as int),
        ensures
            r.0@ == shown_text(self.value@, self.placeholder@, self.editing, self.cursor_pos as int),
            r.1 == look_of(self.value@, self.editing),
    {
        input_display(self.value.as_str(), self.placeholder.as_str(), self.editing, self.cursor_pos)
    }
}

} // verus!
