//! A list that grows from an input line, with a scrolling list of its items.
use vstd::prelude::*;
use crate::text;
use crate::widgets::input::{InputLook, can_show, input_display, look_of, shown_text};

verus! {

/// A list builder.
#[derive(Debug, Clone)]
pub struct ListBuilder {
    pub label: String,
    pub items: Vec<String>,
    pub input_value: String,
    pub placeholder: String,
    pub cursor_pos: usize,
    pub focused: bool,
    pub input_editing: bool,
    pub button_focused: bool,
    pub list_focused: bool,
    pub list_selected: usize,
    pub list_scroll_offset: usize,
}

impl ListBuilder {
    /// An unfocused list builder holding `items`, with an empty input.
    pub fn new(label: &str, items: Vec<String>, placeholder: &str) -> (r: ListBuilder)
        ensures
            r.label@ == label@,
            r.items == items,
            r.input_value@ == Seq::<char>::empty(),
            r.placeholder@ == placeholder@,
            r.cursor_pos == 0,
            !r.focused && !r.input_editing && !r.button_focused && !r.list_focused,
            r.list_selected == 0,
            r.list_scroll_offset == 0,
    {
        ListBuilder {
            label: text::owned(label),
            items,
            input_value: String::new(),
            placeholder: text::owned(placeholder),
            cursor_pos: 0,
            focused: false,
            input_editing: false,
            button_focused: false,
            list_focused: false,
            list_selected: 0,
            list_scroll_offset: 0,
        }
    }

    /// Scrolls the item list so that the selected item is among the
    /// `visible_count` shown (nothing happens without items or room).
    pub fn ensure_selected_visible(&mut self, visible_count: usize)
        requires
            old(self).list_scroll_offset + visible_count <= usize::MAX,
        ensures
            final(self).list_scroll_offset == if visible_count == 0 || old(self).items@.len() == 0 {
                old(self).list_scroll_offset
            } else if old(self).list_selected < old(self).list_scroll_offset {
                old(self).list_selected
            } else if old(self).list_selected >= old(self).list_scroll_offset + visible_count {
                (old(self).list_selected - (visible_count - 1)) as usize
            } else {
                old(self).list_scroll_offset
            },
            final(self).items == old(self).items,
            final(self).list_selected == old(self).list_selected,
            final(self).input_value == old(self).input_value,
            final(self).cursor_pos == old(self).cursor_pos,
    {
        if visible_count == 0 || self.items.len() == 0 {
            return;
        }
        if self.list_selected < self.list_scroll_offset {
            self.list_scroll_offset = self.list_selected;
        } else if self.list_selected >= self.list_scroll_offset + visible_count {
            self.list_scroll_offset = self.list_selected.saturating_sub(visible_count - 1);
        }
    }

    /// The text shown in the input line and how it is styled.
    pub fn input_display(&self) -> (r: (String, InputLook))
        requires
            can_show(self.input_value@, self.input_editing, self.cursor_pos as int),
        ensures
            r.0@ == shown_text(self.input_value@, self.placeholder@, self.input_editing, self.cursor_pos as int),
            r.1 == look_of(self.input_value@, self.input_editing),
    {
        input_display(self.input_value.as_str(), self.placeholder.as_str(), self.input_editing, self.cursor_pos)
    }

    /// The title of the item list.
    pub fn list_title(&self) -> (r: String)
        ensures
            r@ == " 📋 Items ("@ + text::decimal(self.items@.len()) + (if self.list_focused {
                ") — ↑/↓ select, d delete, Tab back "@
            } else {
                ") "@
            }),
    {
        let mut r = text::owned(" 📋 Items (");
        let n = text::decimal_string(self.items.len());
        r.append(n.as_str());
        if self.list_focused {
            r.append(") — ↑/↓ select, d delete, Tab back ");
        } else {
            r.append(") ");
        }
        r
    }
}

/// The first item shown of a list whose window of `visible` items starts
/// at the top and moves down just enough to show item `selected`.
pub fn list_first(selected: usize, visible: usize) -> (r: usize)
    ensures
        r == if visible > 0 && selected >= visible {
            selected - (visible - 1)
        } else {
            0
        },
        visible > 0 ==> r <= selected < r + visible,
{
    if visible > 0 && selected >= visible {
        selected - (visible - 1)
    } else {
        0
    }
}

/// How many items fit in a list area of `height` rows (its frame takes two; at least one).
pub fn list_visible_count(height: u16) -> (r: usize)
    ensures
        r == if height > 3 {
            (height - 2) as usize
        } else {
            1
        },
{
    let inner = height.saturating_sub(2) as usize;
    if inner >= 1 {
        inner
    } else {
        1
    }
}

} // verus!
