//! A search box that adds found packages to a list.
use vstd::prelude::*;
use crate::text;
use crate::widgets::input::{InputLook, can_show, input_display, look_of, shown_text};

verus! {

/// A crate search.
#[derive(Debug, Clone)]
pub struct CrateSearch {
    pub label: String,
    pub input_value: String,
    pub added_crates: Vec<String>,
    pub placeholder: String,
    pub cursor_pos: usize,
    pub focused: bool,
    pub input_editing: bool,
    pub button_focused: bool,
    pub list_focused: bool,
    pub list_selected: usize,
    pub loading: bool,
}

impl CrateSearch {
    /// An unfocused search with an empty input, listing `added_crates`.
    pub fn new(label: &str, added_crates: Vec<String>, placeholder: &str) -> (r: CrateSearch)
        ensures
            r.label@ == label@,
            r.input_value@ == Seq::<char>::empty(),
            r.added_crates == added_crates,
            r.placeholder@ == placeholder@,
            r.cursor_pos == 0,
            !r.focused && !r.input_editing && !r.button_focused && !r.list_focused && !r.loading,
            r.list_selected == 0,
    {
        CrateSearch {
            label: text::owned(label),
            input_value: String::new(),
            added_crates,
            placeholder: text::owned(placeholder),
            cursor_pos: 0,
            focused: false,
            input_editing: false,
            button_focused: false,
            list_focused: false,
            list_selected: 0,
            loading: false,
        }
    }

    /// The text shown in the search box and how it is styled.
    pub fn input_display(&self) -> (r: (String, InputLook))
        requires
            can_show(self.input_value@, self.input_editing, self.cursor_pos as int),
        ensures
            r.0@ == shown_text(self.input_value@, self.placeholder@, self.input_editing, self.cursor_pos as int),
            r.1 == look_of(self.input_value@, self.input_editing),
    {
        input_display(self.input_value.as_str(), self.placeholder.as_str(), self.input_editing, self.cursor_pos)
    }

    /// The caption of the search button.
    pub fn button_text(&self) -> (r: &'static str)
        ensures
            r@ == if self.loading {
                "⏳ Searching"@
            } else {
                "Search & Add"@
            },
    {
        if self.loading {
            "⏳ Searching"
        } else {
            "Search & Add"
        }
    }

    /// The title of the list of added packages.
    pub fn list_title(&self) -> (r: String)
        ensures
            r@ == if self.list_focused {
                " 📦 Added (↑/↓ select, d delete) "@
            } else {
                " 📦 Added ("@ + text::decimal(self.added_crates@.len()) + ") "@
            },
    {
        if self.list_focused {
            text::owned(" 📦 Added (↑/↓ select, d delete) ")
        } else {
            let n = text::decimal_string(self.added_crates.len());
            text::concat3(" 📦 Added (", n.as_str(), ") ")
        }
    }
}

} // verus!
