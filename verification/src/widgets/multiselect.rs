//! A field where any number of options can be ticked.
use vstd::prelude::*;
use crate::text;

verus! {

/// A multiselect: options as (value, label) pairs, a tick per option, a cursor.
#[derive(Debug, Clone)]
pub struct MultiSelect {
    pub label: String,
    pub options: Vec<(String, String)>,
    pub selected: Vec<bool>,
    pub cursor: usize,
    pub focused: bool,
}

/// How many ticks are set.
pub open spec fn count_true(s: Seq<bool>) -> nat
    decreases s.len(),
{
    if s.len() == 0 {
        0
    } else {
        count_true(s.drop_last()) + if s.last() {
            1nat
        } else {
            0nat
        }
    }
}

/// The values of the ticked options, in option order (an option without a
/// tick, or a tick without an option, counts as not ticked).
pub open spec fn ticked_values(options: Seq<(String, String)>, ticks: Seq<bool>) -> Seq<Seq<char>>
    decreases options.len(),
{
    if options.len() == 0 {
        Seq::empty()
    } else {
        let i = options.len() - 1;
        let rest = ticked_values(options.drop_last(), ticks);
        if i < ticks.len() && ticks[i] {
            rest.push(options.last().0@)
        } else {
            rest
        }
    }
}

/// The ticks with the one at `cursor` flipped (unchanged when there is none).
pub open spec fn toggled(ticks: Seq<bool>, cursor: int) -> Seq<bool> {
    if 0 <= cursor < ticks.len() {
        ticks.update(cursor, !ticks[cursor])
    } else {
        ticks
    }
}

/// The cursor one option up among `n`, from the first to the last.
pub open spec fn cursor_above(cursor: int, n: int) -> int {
    if cursor > 0 {
        cursor - 1
    } else if n > 0 {
        n - 1
    } else {
        cursor
    }
}

/// The cursor one option down among `n`, from the last to the first.
pub open spec fn cursor_below(cursor: int, n: int) -> int {
    if n > 0 {
        (cursor + 1) % n
    } else {
        cursor
    }
}

impl MultiSelect {
    /// An unfocused multiselect with nothing ticked and the cursor on the first option.
    pub fn new(label: &str, options: Vec<(String, String)>) -> (r: MultiSelect)
        ensures
            r.label@ == label@,
            r.options == options,
            r.selected@ == Seq::new(options@.len(), |i: int| false),
            r.cursor == 0,
            !r.focused,
    {
        let len = options.len();
        let mut selected: Vec<bool> = Vec::new();
        let mut i: usize = 0;
        while i < len
            invariant
                i <= len,
                selected@ == Seq::new(i as nat, |j: int| false),
            decreases len - i,
        {
            selected.push(false);
            assert(selected@ =~= Seq::new((i + 1) as nat, |j: int| false));
            i = i + 1;
        }
        MultiSelect { label: text::owned(label), options, selected, cursor: 0, focused: false }
    }

    /// Flips the tick under the cursor, if there is one.
    pub fn toggle_current(&mut self)
        ensures
            final(self).label == old(self).label,
            final(self).options == old(self).options,
            final(self).cursor == old(self).cursor,
            final(self).focused == old(self).focused,
            final(self).selected@ == toggled(old(self).selected@, old(self).cursor as int),
    {
        if self.cursor < self.selected.len() {
            let b = self.selected[self.cursor];
            self.selected.set(self.cursor, !b);
        }
    }

    /// Moves the cursor up, from the first option to the last.
    pub fn cursor_up(&mut self)
        ensures
            final(self).label == old(self).label,
            final(self).options == old(self).options,
            final(self).selected == old(self).selected,
            final(self).focused == old(self).focused,
            final(self).cursor == cursor_above(old(self).cursor as int, old(self).options@.len() as int),
            old(self).options@.len() <= usize::MAX,
    {
        let n = self.options.len();
        if self.cursor > 0 {
            self.cursor = self.cursor - 1;
        } else if n > 0 {
            self.cursor = n - 1;
        }
    }

    /// Moves the cursor down, from the last option to the first.
    pub fn cursor_down(&mut self)
        requires
            old(self).cursor < usize::MAX,
        ensures
            final(self).label == old(self).label,
            final(self).options == old(self).options,
            final(self).selected == old(self).selected,
            final(self).focused == old(self).focused,
            final(self).cursor == cursor_below(old(self).cursor as int, old(self).options@.len() as int),
            old(self).options@.len() <= usize::MAX,
    {
        if self.options.len() > 0 {
            self.cursor = (self.cursor + 1) % self.options.len();
        }
    }

    /// How many options are ticked.
    pub fn selected_count(&self) -> (r: usize)
        ensures
            r == count_true(self.selected@),
    {
        let mut n: usize = 0;
        let mut i: usize = 0;
        while i < self.selected.len()
            invariant
                i <= self.selected@.len(),
                n == count_true(self.selected@.subrange(0, i as int)),
                n <= i,
            decreases self.selected.len() - i,
        {
            assert(self.selected@.subrange(0, i + 1).drop_last() =~= self.selected@.subrange(0, i as int));
            if self.selected[i] {
                n = n + 1;
            }
            i = i + 1;
        }
        assert(self.selected@.subrange(0, self.selected@.len() as int) =~= self.selected@);
        n
    }

    /// The values of the ticked options, in option order.
    pub fn selected_values(&self) -> (r: Vec<String>)
        ensures
            text::views(r@) == ticked_values(self.options@, self.selected@),
    {
        let mut r: Vec<String> = Vec::new();
        let mut i: usize = 0;
        while i < self.options.len()
            invariant
                i <= self.options@.len(),
                text::views(r@) == ticked_values(self.options@.subrange(0, i as int), self.selected@),
            decreases self.options.len() - i,
        {
            let ghost before = r@;
            assert(self.options@.subrange(0, i + 1).drop_last() =~= self.options@.subrange(0, i as int));
            if i < self.selected.len() && self.selected[i] {
                r.push(self.options[i].0.clone());
                assert(text::views(r@) =~= text::views(before).push(self.options@[i as int].0@));
            }
            i = i + 1;
        }
        assert(self.options@.subrange(0, self.options@.len() as int) =~= self.options@);
        r
    }

    /// The block title: `" <label> (<ticked>/<options>) "`.
    pub fn title(&self) -> (r: String)
        ensures
            r@ == " "@ + self.label@ + " ("@ + text::decimal(count_true(self.selected@)) + "/"@
                + text::decimal(self.options@.len()) + ") "@,
    {
        let mut r = text::concat3(" ", self.label.as_str(), " (");
        let c = text::decimal_string(self.selected_count());
        r.append(c.as_str());
        r.append("/");
        let n = text::decimal_string(self.options.len());
        r.append(n.as_str());
        r.append(") ");
        r
    }
}

} // verus!
