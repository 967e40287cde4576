//! A labelled checkbox.
use vstd::prelude::*;
use crate::text;

verus! {

/// A checkbox.
#[derive(Debug, Clone)]
pub struct Checkbox {
    pub label: String,
    pub checked: bool,
    pub focused: bool,
}

/// The mark drawn for a box.
pub open spec fn mark(checked: bool) -> Seq<char> {
    if checked {
        "☑"@
    } else {
        "☐"@
    }
}

/// The mark drawn for a box.
pub fn check_mark(checked: bool) -> (r: &'static str)
    ensures
        r@ == mark(checked),
{
    if checked {
        "☑"
    } else {
        "☐"
    }
}

impl Checkbox {
    /// An unfocused checkbox.
    pub fn new(label: &str, checked: bool) -> (r: Checkbox)
        ensures
            r.label@ == label@,
            r.checked == checked,
            !r.focused,
    {
        Checkbox { label: text::owned(label), checked, focused: false }
    }

    /// The mark with a space on each side, as drawn before the label.
    pub fn mark_text(&self) -> (r: String)
        ensures
            r@ == " "@ + mark(self.checked) + " "@,
    {
        text::concat3(" ", check_mark(self.checked), " ")
    }
}

} // verus!
