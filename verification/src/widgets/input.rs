//! What a single-line input shows: its placeholder, its text, or its text
//! with a block cursor while it is edited.
use vstd::prelude::*;
use crate::text;

verus! {

/// How the shown text of an input is styled.
#[derive(Debug, Clone, Copy, PartialEq, Eq, Structural)]
pub enum InputLook {
    /// The placeholder of an empty input that is not being edited (dimmed).
    Placeholder,
    /// The text with the cursor drawn as `█`.
    Editing,
    /// The text as it is.
    Plain,
}

/// The cursor position an input draws: `cursor_pos`, but not past the end.
pub open spec fn clamped_cursor(value: Seq<char>, cursor_pos: int) -> int {
    if cursor_pos <= text::byte_len(value) {
        cursor_pos
    } else {
        text::byte_len(value)
    }
}

/// Drawing the cursor splits the text on a char boundary (std panics otherwise).
pub open spec fn can_show(value: Seq<char>, editing: bool, cursor_pos: int) -> bool {
    editing ==> text::boundary(value, clamped_cursor(value, cursor_pos))
}

/// The look of an input.
pub open spec fn look_of(value: Seq<char>, editing: bool) -> InputLook {
    if value.len() == 0 && !editing {
        InputLook::Placeholder
    } else if editing {
        InputLook::Editing
    } else {
        InputLook::Plain
    }
}

/// The text an input shows.
pub open spec fn shown_text(value: Seq<char>, placeholder: Seq<char>, editing: bool, cursor_pos: int) -> Seq<char> {
    match look_of(value, editing) {
        InputLook::Placeholder => placeholder,
        InputLook::Editing => text::insert_at_byte(value, clamped_cursor(value, cursor_pos), '█'),
        InputLook::Plain => value,
    }
}

/// The text and look of an input holding `value`.
pub fn input_display(value: &str, placeholder: &str, editing: bool, cursor_pos: usize) -> (r: (String, InputLook))
    requires
        can_show(value@, editing, cursor_pos as int),
    ensures
        r.0@ == shown_text(value@, placeholder@, editing, cursor_pos as int),
        r.1 == look_of(value@, editing),
{
    if value.is_empty() && !editing {
        (text::owned(placeholder), InputLook::Placeholder)
    } else if editing {
        let len = text::utf8_len(value);
        let cursor = if cursor_pos <= len {
            cursor_pos
        } else {
            len
        };
        let mut shown = text::owned(value);
        text::insert_char_at(&mut shown, cursor, '█');
        proof {
            vstd::utf8::encode_utf8_decode_utf8(shown@);
        }
        (shown, InputLook::Editing)
    } else {
        (text::owned(value), InputLook::Plain)
    }
}

/// A block title: the label with a space on each side.
pub fn block_title(label: &str) -> (r: String)
    ensures
        r@ == " "@ + label@ + " "@,
{
    text::concat3(" ", label, " ")
}

/// A numbered list line: `"<prefix><n>. <item>"` with `n` counted from 1.
pub open spec fn numbered_line(prefix: Seq<char>, index: nat, item: Seq<char>) -> Seq<char> {
    prefix + text::decimal(index + 1) + ". "@ + item
}

/// A numbered list line for the item at `index` (0-based), marked when selected.
pub fn numbered_item(index: usize, item: &str, selected: bool) -> (r: String)
    requires
        index < usize::MAX,
    ensures
        r@ == numbered_line(if selected { "▶ "@ } else { "  "@ }, index as nat, item@),
{
    let mut r = if selected {
        text::owned("▶ ")
    } else {
        text::owned("  ")
    };
    let n = text::decimal_string(index + 1);
    r.append(n.as_str());
    r.append(". ");
    r.append(item);
    r
}

} // verus!
