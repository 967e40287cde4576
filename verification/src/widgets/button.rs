//! A push button with a caption, shown under a labelled frame.
use vstd::prelude::*;
use crate::text;

verus! {

/// A button.
#[derive(Debug, Clone)]
pub struct Button {
    pub label: String,
    pub button_text: String,
    pub focused: bool,
}

impl Button {
    /// An unfocused button.
    pub fn new(label: &str, button_text: &str) -> (r: Button)
        ensures
            r.label@ == label@,
            r.button_text@ == button_text@,
            !r.focused,
    {
        Button { label: text::owned(label), button_text: text::owned(button_text), focused: false }
    }
}

/// The caption of a form's action button: its text, with `" [Space]"` added while focused.
pub open spec fn action_caption(button_text: Seq<char>, focused: bool) -> Seq<char> {
    if focused {
        button_text + " [Space]"@
    } else {
        button_text
    }
}

/// The caption of a form's action button (`"Action"` when the field names none).
pub fn action_button_caption(button_text: Option<&str>, focused: bool) -> (r: String)
    ensures
        r@ == action_caption(
            match button_text {
                Some(t) => t@,
                None => "Action"@,
            },
            focused,
        ),
{
    let t = match button_text {
        Some(t) => text::owned(t),
        None => text::owned("Action"),
    };
    if focused {
        text::concat(t.as_str(), " [Space]")
    } else {
        t
    }
}

} // verus!
