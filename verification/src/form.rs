//! The state of a filled-in blueprint: field values, which field is selected,
//! editing with a byte cursor, scrolling, and list fields.
use vstd::prelude::*;
use vstd::utf8::*;
use crate::blueprint::{Blueprint, BlueprintView, FieldType, FieldVal, FieldValue, FieldView, SelectOption, SectionView};
use crate::keyed::{TypeMap, ValueMap};
use crate::text;

verus! {

/// `a - b`, or 0 when `b > a`.
pub open spec fn sat_sub(a: int, b: int) -> int {
    if a > b {
        a - b
    } else {
        0
    }
}

/// How many UTF-8 bytes `c` takes.
pub open spec fn width(c: char) -> int {
    encode_utf8(seq![c]).len() as int
}

/// A char takes one to four UTF-8 bytes.
pub proof fn lemma_width(c: char)
    ensures
        1 <= width(c) <= 4,
{
    text::lemma_encode_one(c);
    text::lemma_scalar_bytes(c);
}

/// The key under which the pending input of a list field is kept.
pub open spec fn input_key(k: Seq<char>) -> Seq<char> {
    k + "_input"@
}

/// The first position of `x` in `s`.
pub open spec fn first_pos(s: Seq<Seq<char>>, x: Seq<char>) -> Option<int>
    decreases s.len(),
{
    if s.len() == 0 {
        None
    } else {
        match first_pos(s.drop_last(), x) {
            Some(i) => Some(i),
            None => if s.last() == x {
                Some(s.len() - 1)
            } else {
                None
            },
        }
    }
}

/// A field that the form edits: not a section break and not hidden.
pub open spec fn editable(f: FieldView) -> bool {
    f.field_type != FieldType::SectionBreak && !f.hidden
}

/// The keys of the form fields among `fields`, in order.
pub open spec fn section_keys(fields: Seq<FieldView>) -> Seq<Seq<char>>
    decreases fields.len(),
{
    if fields.len() == 0 {
        Seq::empty()
    } else if editable(fields.last()) {
        section_keys(fields.drop_last()).push(fields.last().key)
    } else {
        section_keys(fields.drop_last())
    }
}

/// `m` with the default value of each form field among `fields` stored
/// under its key (a later field wins).
pub open spec fn with_defaults(fields: Seq<FieldView>, m: Map<Seq<char>, FieldVal>) -> Map<Seq<char>, FieldVal>
    decreases fields.len(),
{
    if fields.len() == 0 {
        m
    } else if editable(fields.last()) {
        with_defaults(fields.drop_last(), m).insert(fields.last().key, fields.last().default)
    } else {
        with_defaults(fields.drop_last(), m)
    }
}

/// `m` with the widget kind of each form field among `fields` stored under its key.
pub open spec fn with_types(fields: Seq<FieldView>, m: Map<Seq<char>, FieldType>) -> Map<Seq<char>, FieldType>
    decreases fields.len(),
{
    if fields.len() == 0 {
        m
    } else if editable(fields.last()) {
        with_types(fields.drop_last(), m).insert(fields.last().key, fields.last().field_type)
    } else {
        with_types(fields.drop_last(), m)
    }
}

/// The default values of all form fields of `sections`.
pub open spec fn initial_values(sections: Seq<SectionView>) -> Map<Seq<char>, FieldVal>
    decreases sections.len(),
{
    if sections.len() == 0 {
        Map::empty()
    } else {
        with_defaults(sections.last().fields, initial_values(sections.drop_last()))
    }
}

/// The widget kinds of all form fields of `sections`.
pub open spec fn initial_types(sections: Seq<SectionView>) -> Map<Seq<char>, FieldType>
    decreases sections.len(),
{
    if sections.len() == 0 {
        Map::empty()
    } else {
        with_types(sections.last().fields, initial_types(sections.drop_last()))
    }
}

/// The editing state of a blueprint's form.
pub struct Form {
    pub values: ValueMap,
    pub section_fields: Vec<Vec<String>>,
    pub field_types: TypeMap,
    pub selected_field: usize,
    pub editing: bool,
    pub cursor_pos: usize,
    pub scroll_offset: usize,
    pub current_section: usize,
    pub total_sections: usize,
    pub sub_focus: usize,
    pub list_selected: usize,
    pub visible_field_count: usize,
    pub text_scroll_offset: u16,
}

/// The model of a `Form`.
pub struct FormView {
    pub values: Map<Seq<char>, FieldVal>,
    pub section_fields: Seq<Seq<Seq<char>>>,
    pub field_types: Map<Seq<char>, FieldType>,
    pub selected_field: usize,
    pub editing: bool,
    pub cursor_pos: usize,
    pub scroll_offset: usize,
    pub current_section: usize,
    pub total_sections: usize,
    pub sub_focus: usize,
    pub list_selected: usize,
    pub visible_field_count: usize,
    pub text_scroll_offset: u16,
}

impl View for Form {
    type V = FormView;

    open spec fn view(&self) -> FormView {
        FormView {
            values: self.values@,
            section_fields: self.section_fields@.map_values(|v: Vec<String>| text::views(v@)),
            field_types: self.field_types@,
            selected_field: self.selected_field,
            editing: self.editing,
            cursor_pos: self.cursor_pos,
            scroll_offset: self.scroll_offset,
            current_section: self.current_section,
            total_sections: self.total_sections,
            sub_focus: self.sub_focus,
            list_selected: self.list_selected,
            visible_field_count: self.visible_field_count,
            text_scroll_offset: self.text_scroll_offset,
        }
    }
}

impl FormView {
    /// Number of fields in the current section (0 when the section does not exist).
    pub open spec fn field_count(self) -> int {
        if self.current_section < self.section_fields.len() {
            self.section_fields[self.current_section as int].len() as int
        } else {
            0
        }
    }

    /// Key of the selected field, if the selection names one.
    pub open spec fn current_key(self) -> Option<Seq<char>> {
        if self.selected_field < self.field_count() {
            Some(self.section_fields[self.current_section as int][self.selected_field as int])
        } else {
            None
        }
    }

    /// The value under `k`, `Empty` when there is none.
    pub open spec fn value_at(self, k: Seq<char>) -> FieldVal {
        if self.values.contains_key(k) {
            self.values[k]
        } else {
            FieldVal::Empty
        }
    }

    /// The value of the selected field (`Empty` when no field is selected).
    pub open spec fn current_value(self) -> FieldVal {
        match self.current_key() {
            Some(k) => self.value_at(k),
            None => FieldVal::Empty,
        }
    }

    /// The text of the selected field, when it holds text.
    pub open spec fn current_text(self) -> Option<Seq<char>> {
        match self.current_key() {
            Some(k) => if self.values.contains_key(k) && self.values[k] is Text {
                Some(self.values[k].text())
            } else {
                None
            },
            None => None,
        }
    }

    /// Whether the selected field is edited as multi-line text.
    pub open spec fn multiline(self) -> bool {
        match self.current_key() {
            Some(k) => self.field_types.contains_key(k) && self.field_types[k] == FieldType::Textarea,
            None => false,
        }
    }

    /// The state with editing, cursor, sub-focus, text scroll and list selection cleared.
    pub open spec fn reset_edit(self) -> FormView {
        FormView {
            editing: false,
            cursor_pos: 0,
            sub_focus: 0,
            text_scroll_offset: 0,
            list_selected: 0,
            ..self
        }
    }

    /// The end of the window of visible fields (at least one field wide)
    /// can be computed in `usize`: where it cannot, moving the selection
    /// overflows.
    pub open spec fn window_fits(self) -> bool {
        self.scroll_offset + (if self.visible_field_count >= 1 {
            self.visible_field_count as int
        } else {
            1
        }) <= usize::MAX
    }

    /// Selection clamped into the section and the scroll offset moved so that
    /// the selected field is among the visible ones.
    pub open spec fn ensure_visible(self) -> FormView {
        let count = self.field_count();
        if count == 0 {
            self
        } else {
            let sel = if self.selected_field >= count {
                count - 1
            } else {
                self.selected_field as int
            };
            let visible = if self.visible_field_count >= 1 {
                self.visible_field_count as int
            } else {
                1
            };
            let scroll = if sel < self.scroll_offset {
                sel
            } else if sel >= self.scroll_offset + visible {
                sat_sub(sel, visible - 1)
            } else {
                self.scroll_offset as int
            };
            let max_scroll = sat_sub(count, visible);
            FormView {
                selected_field: sel as usize,
                scroll_offset: (if scroll > max_scroll {
                    max_scroll
                } else {
                    scroll
                }) as usize,
                ..self
            }
        }
    }

    /// The selection after moving to the next field (wrapping around).
    pub open spec fn next_field(self) -> FormView {
        let count = self.field_count();
        if count == 0 {
            self
        } else {
            let sel = if self.selected_field >= count {
                count - 1
            } else {
                self.selected_field as int
            };
            FormView { selected_field: ((sel + 1) % count) as usize, ..self.reset_edit() }.ensure_visible()
        }
    }

    /// The selection after moving to the previous field (wrapping around).
    pub open spec fn prev_field(self) -> FormView {
        let count = self.field_count();
        if count == 0 {
            self
        } else {
            let sel = if self.selected_field >= count {
                count - 1
            } else {
                self.selected_field as int
            };
            let new_sel = if sel == 0 {
                count - 1
            } else {
                sel - 1
            };
            FormView { selected_field: new_sel as usize, ..self.reset_edit() }.ensure_visible()
        }
    }

    /// The state on entering section `idx` at its first field.
    pub open spec fn enter_section(self, idx: int) -> FormView {
        FormView {
            current_section: idx as usize,
            selected_field: 0,
            scroll_offset: 0,
            ..self.reset_edit()
        }
    }

    /// The next section (wrapping around).
    pub open spec fn next_section(self) -> FormView {
        self.enter_section(
            if self.current_section < self.total_sections - 1 {
                self.current_section + 1
            } else {
                0
            },
        )
    }

    /// The previous section (wrapping around).
    pub open spec fn prev_section(self) -> FormView {
        self.enter_section(
            if self.current_section > 0 {
                self.current_section - 1
            } else {
                sat_sub(self.total_sections as int, 1)
            },
        )
    }

    /// Section `idx` when it exists; otherwise nothing changes.
    pub open spec fn go_to_section(self, idx: int) -> FormView {
        if idx < self.total_sections {
            self.enter_section(idx)
        } else {
            self
        }
    }

    /// The field list scrolled up by `amount` (not past the top).
    pub open spec fn scroll_up(self, amount: int) -> FormView {
        FormView { scroll_offset: sat_sub(self.scroll_offset as int, amount) as usize, ..self }
    }

    /// The field list scrolled down by `amount`, but not past the last page.
    pub open spec fn scroll_down(self, amount: int) -> FormView {
        let s = self.scroll_offset + amount;
        let max_scroll = sat_sub(self.field_count(), self.visible_field_count as int);
        FormView {
            scroll_offset: (if s > max_scroll {
                max_scroll
            } else {
                s
            }) as usize,
            ..self
        }
    }

    /// Multi-line text scrolled up by `amount` lines (not past the top).
    pub open spec fn scroll_text_up(self, amount: int) -> FormView {
        FormView { text_scroll_offset: sat_sub(self.text_scroll_offset as int, amount) as u16, ..self }
    }

    /// Multi-line text scrolled down by `amount` lines (saturating at `u16::MAX`).
    pub open spec fn scroll_text_down(self, amount: int) -> FormView {
        let t = self.text_scroll_offset + amount;
        FormView {
            text_scroll_offset: (if t > u16::MAX {
                u16::MAX as int
            } else {
                t
            }) as u16,
            ..self
        }
    }

    /// Editing on, text scroll at the top, cursor after the last byte of the text.
    pub open spec fn start_editing(self) -> FormView {
        FormView {
            editing: true,
            text_scroll_offset: 0,
            cursor_pos: match self.current_text() {
                Some(s) => text::byte_len(s) as usize,
                None => 0,
            },
            ..self
        }
    }

    /// Editing off, cursor and text scroll back to 0.
    pub open spec fn stop_editing(self) -> FormView {
        FormView { editing: false, cursor_pos: 0, text_scroll_offset: 0, ..self }
    }

    /// Typing `c` can be done without a panic: into text the cursor stands on a
    /// char boundary (or past the end, where nothing happens), and into a field
    /// that holds no text the cursor is at 0.
    pub open spec fn can_insert_char(self) -> bool {
        match self.current_key() {
            Some(k) => if self.values.contains_key(k) && self.values[k] is Text {
                self.cursor_pos <= text::byte_len(self.values[k].text()) ==> text::boundary(
                    self.values[k].text(),
                    self.cursor_pos as int,
                )
            } else {
                self.cursor_pos == 0
            },
            None => true,
        }
    }

    /// The state after typing `c` at the cursor.
    pub open spec fn insert_char(self, c: char) -> FormView {
        match self.current_key() {
            Some(k) => if self.values.contains_key(k) && self.values[k] is Text {
                let s = self.values[k].text();
                if self.cursor_pos <= text::byte_len(s) {
                    FormView {
                        values: self.values.insert(
                            k,
                            FieldVal::Text(text::insert_at_byte(s, self.cursor_pos as int, c)),
                        ),
                        cursor_pos: (self.cursor_pos + width(c)) as usize,
                        ..self
                    }
                } else {
                    self
                }
            } else {
                FormView {
                    values: self.values.insert(k, FieldVal::Text(seq![c])),
                    cursor_pos: (self.cursor_pos + width(c)) as usize,
                    ..self
                }
            },
            None => self,
        }
    }

    /// Backspace can be done without a panic: in text, a cursor past 0 is on a char boundary.
    pub open spec fn can_backspace(self) -> bool {
        match self.current_text() {
            Some(s) => self.cursor_pos > 0 ==> text::boundary(s, self.cursor_pos as int),
            None => true,
        }
    }

    /// The state after deleting the char before the cursor.
    pub open spec fn backspace(self) -> FormView {
        match self.current_text() {
            Some(s) => if self.cursor_pos > 0 {
                let prev = text::prev_boundary(s, self.cursor_pos as int);
                FormView {
                    values: self.values.insert(
                        self.current_key()->0,
                        FieldVal::Text(text::remove_bytes(s, prev, self.cursor_pos as int)),
                    ),
                    cursor_pos: prev as usize,
                    ..self
                }
            } else {
                self
            },
            None => self,
        }
    }

    /// Delete can be done without a panic: in text, a cursor before the end is on a char boundary.
    pub open spec fn can_delete(self) -> bool {
        match self.current_text() {
            Some(s) => self.cursor_pos < text::byte_len(s) ==> text::boundary(s, self.cursor_pos as int),
            None => true,
        }
    }

    /// The state after deleting the char at the cursor.
    pub open spec fn delete(self) -> FormView {
        match self.current_text() {
            Some(s) => if self.cursor_pos < text::byte_len(s) {
                let next = text::next_boundary(s, self.cursor_pos as int);
                FormView {
                    values: self.values.insert(
                        self.current_key()->0,
                        FieldVal::Text(text::remove_bytes(s, self.cursor_pos as int, next)),
                    ),
                    ..self
                }
            } else {
                self
            },
            None => self,
        }
    }

    /// The cursor moved one char to the left.
    pub open spec fn cursor_left(self) -> FormView {
        match self.current_text() {
            Some(s) => FormView { cursor_pos: text::prev_boundary(s, self.cursor_pos as int) as usize, ..self },
            None => self,
        }
    }

    /// The cursor moved one char to the right.
    pub open spec fn cursor_right(self) -> FormView {
        match self.current_text() {
            Some(s) => FormView { cursor_pos: text::next_boundary(s, self.cursor_pos as int) as usize, ..self },
            None => self,
        }
    }

    /// The cursor at the end of the text (0 when the field holds no text).
    pub open spec fn cursor_end(self) -> FormView {
        FormView {
            cursor_pos: match self.current_text() {
                Some(s) => text::byte_len(s) as usize,
                None => 0,
            },
            ..self
        }
    }

    /// `v` stored under the selected field's key.
    pub open spec fn set_current_value(self, v: FieldVal) -> FormView {
        match self.current_key() {
            Some(k) => FormView { values: self.values.insert(k, v), ..self },
            None => self,
        }
    }

    /// A checkbox flipped: `Bool(b)` becomes `Bool(!b)`, `Empty` becomes `Bool(true)`.
    pub open spec fn toggle_checkbox(self) -> FormView {
        match self.current_key() {
            Some(k) => if self.values.contains_key(k) {
                match self.values[k] {
                    FieldVal::Bool(b) => self.set_current_value(FieldVal::Bool(!b)),
                    FieldVal::Empty => self.set_current_value(FieldVal::Bool(true)),
                    _ => self,
                }
            } else {
                self
            },
            None => self,
        }
    }

    /// The option after the current one (the first when the current text is no option).
    pub open spec fn cycle_select(self, opts: Seq<Seq<char>>) -> FormView {
        if opts.len() == 0 {
            self
        } else {
            match self.current_key() {
                Some(k) => {
                    let idx = match first_pos(opts, self.value_at(k).text()) {
                        Some(i) => (i + 1) % (opts.len() as int),
                        None => 0,
                    };
                    self.set_current_value(FieldVal::Text(opts[idx]))
                },
                None => self,
            }
        }
    }

    /// `item` appended to the list under `k` unless it is empty or already there.
    pub open spec fn add_to_list(self, k: Seq<char>, item: Seq<char>) -> FormView {
        let items = self.value_at(k).items();
        if item.len() == 0 || items.contains(item) {
            self
        } else {
            FormView { values: self.values.insert(k, FieldVal::Array(items.push(item))), ..self }
        }
    }

    /// The item at `index` taken out of the list under `k`, when there is one.
    pub open spec fn remove_from_list(self, k: Seq<char>, index: int) -> FormView {
        let items = self.value_at(k).items();
        if 0 <= index < items.len() {
            FormView { values: self.values.insert(k, FieldVal::Array(items.remove(index))), ..self }
        } else {
            self
        }
    }

    /// `item` added to the selected list field.
    pub open spec fn add_list_item(self, item: Seq<char>) -> FormView {
        if item.len() == 0 {
            self
        } else {
            match self.current_key() {
                Some(k) => self.add_to_list(k, item),
                None => self,
            }
        }
    }

    /// Item `index` removed from the selected list field.
    pub open spec fn remove_list_item(self, index: int) -> FormView {
        match self.current_key() {
            Some(k) => self.remove_from_list(k, index),
            None => self,
        }
    }

    /// The pending input text of the selected list field.
    pub open spec fn list_input(self) -> Seq<char> {
        match self.current_key() {
            Some(k) => self.value_at(input_key(k)).text(),
            None => Seq::empty(),
        }
    }

    /// `v` stored as the pending input of the selected list field.
    pub open spec fn set_list_input(self, v: Seq<char>) -> FormView {
        match self.current_key() {
            Some(k) => FormView { values: self.values.insert(input_key(k), FieldVal::Text(v)), ..self },
            None => self,
        }
    }

    /// Typing into the list input can be done without a panic.
    pub open spec fn can_insert_list_char(self) -> bool {
        let v = self.list_input();
        let pos = if self.cursor_pos <= text::byte_len(v) {
            self.cursor_pos as int
        } else {
            text::byte_len(v)
        };
        text::boundary(v, pos)
    }

    /// The state after typing `c` into the list input.
    pub open spec fn insert_list_input_char(self, c: char) -> FormView {
        let v = self.list_input();
        let pos = if self.cursor_pos <= text::byte_len(v) {
            self.cursor_pos as int
        } else {
            text::byte_len(v)
        };
        FormView { cursor_pos: (pos + width(c)) as usize, ..self }.set_list_input(
            text::insert_at_byte(v, pos, c),
        )
    }

    /// Backspace in the list input can be done without a panic.
    pub open spec fn can_list_backspace(self) -> bool {
        self.cursor_pos > 0 ==> text::boundary(self.list_input(), self.cursor_pos as int)
    }

    /// The state after a backspace in the list input.
    pub open spec fn list_input_backspace(self) -> FormView {
        if self.cursor_pos > 0 {
            let v = self.list_input();
            let prev = text::prev_boundary(v, self.cursor_pos as int);
            FormView { cursor_pos: prev as usize, ..self }.set_list_input(
                text::remove_bytes(v, prev, self.cursor_pos as int),
            )
        } else {
            self
        }
    }

    /// The list input emptied and the cursor at 0.
    pub open spec fn clear_list_input(self) -> FormView {
        FormView { cursor_pos: 0, ..self.set_list_input(Seq::empty()) }
    }
}

/// The keys of `values` that hold something (not an empty value).
pub open spec fn filled_keys(values: Map<Seq<char>, FieldVal>) -> Set<Seq<char>> {
    values.dom().filter(|k: Seq<char>| !values[k].empty())
}

/// Adding the last entry to a list of entries with distinct keys adds its
/// key to the filled keys exactly when its value holds something.
proof fn lemma_filled_push(s: Seq<(String, FieldValue)>)
    requires
        s.len() > 0,
        crate::keyed::distinct_keys(s),
    ensures
        filled_keys(crate::keyed::entries_map(s)).len() == filled_keys(crate::keyed::entries_map(s.drop_last())).len()
            + if s.last().1@.empty() { 0int } else { 1int },
        filled_keys(crate::keyed::entries_map(s)).finite(),
{
    let p = s.drop_last();
    let m0 = crate::keyed::entries_map(p);
    let k = s.last().0@;
    let m = m0.insert(k, s.last().1@);
    crate::keyed::lemma_entries_finite(p);
    crate::keyed::lemma_entries_finite(s);
    crate::keyed::lemma_last_key_new(s);
    assert(!m0.contains_key(k));
    let f0 = filled_keys(m0);
    let f = filled_keys(m);
    assert(f0.finite()) by {
        m0.dom().lemma_len_filter(|kk: Seq<char>| !m0[kk].empty());
    }
    if s.last().1@.empty() {
        assert(f =~= f0);
    } else {
        assert(f =~= f0.insert(k));
        assert(!f0.contains(k));
    }
    assert(f.finite()) by {
        m.dom().lemma_len_filter(|kk: Seq<char>| !m[kk].empty());
    }
}

/// What `Form::new` builds for `bp`.
pub open spec fn new_form_view(bp: BlueprintView) -> FormView {
    FormView {
        values: initial_values(bp.sections),
        section_fields: bp.sections.map_values(|s: SectionView| section_keys(s.fields)),
        field_types: initial_types(bp.sections),
        selected_field: 0,
        editing: false,
        cursor_pos: 0,
        scroll_offset: 0,
        current_section: 0,
        total_sections: bp.sections.len() as usize,
        sub_focus: 0,
        list_selected: 0,
        visible_field_count: 5,
        text_scroll_offset: 0,
    }
}

/// Whether `items` holds `item`.
pub fn contains_string(items: &Vec<String>, item: &String) -> (r: bool)
    ensures
        r == text::views(items@).contains(item@),
{
    let mut i: usize = 0;
    while i < items.len()
        invariant
            i <= items.len(),
            forall|j: int| 0 <= j < i ==> items@[j]@ != item@,
        decreases items.len() - i,
    {
        if items[i] == *item {
            assert(text::views(items@)[i as int] == item@);
            return true;
        }
        i = i + 1;
    }
    assert forall|j: int| 0 <= j < text::views(items@).len() implies text::views(items@)[j] != item@ by {
        assert(items@[j]@ != item@);
    }
    false
}

proof fn lemma_empty_boundary(s: Seq<char>)
    ensures
        text::boundary(s, 0),
        text::boundary(s, text::byte_len(s)),
{
    encode_utf8_valid_utf8(s);
    is_char_boundary_start_end_of_seq(encode_utf8(s));
}

proof fn lemma_prev_boundary(s: Seq<char>, pos: int)
    ensures
        text::boundary(s, text::prev_boundary(s, pos)),
        pos > 0 ==> 0 <= text::prev_boundary(s, pos) < pos,
        pos <= 0 ==> text::prev_boundary(s, pos) == 0,
    decreases pos,
{
    lemma_empty_boundary(s);
    if pos > 0 && !text::boundary(s, pos - 1) {
        lemma_prev_boundary(s, pos - 1);
    }
}

proof fn lemma_next_boundary(s: Seq<char>, pos: int)
    requires
        pos >= 0,
    ensures
        text::boundary(s, text::next_boundary(s, pos)),
        pos < text::byte_len(s) ==> pos < text::next_boundary(s, pos) <= text::byte_len(s),
        pos >= text::byte_len(s) ==> text::next_boundary(s, pos) == text::byte_len(s),
    decreases text::byte_len(s) - pos,
{
    lemma_empty_boundary(s);
    if pos < text::byte_len(s) && !text::boundary(s, pos + 1) {
        lemma_next_boundary(s, pos + 1);
    }
}

proof fn lemma_decode_encode(s: Seq<char>)
    ensures
        decode_utf8(encode_utf8(s)) == s,
{
    encode_utf8_decode_utf8(s);
}

impl Form {
    /// The form of `blueprint`: each editable field's default under its key,
    /// the keys of each section in order, first section and field selected.
    pub fn new(blueprint: &Blueprint) -> (r: Form)
        ensures
            r@ == new_form_view(blueprint@),
    {
        let mut values = ValueMap::new();
        let mut field_types = TypeMap::new();
        let mut section_fields: Vec<Vec<String>> = Vec::new();
        let sections = &blueprint.sections;
        let ghost sv = blueprint@.sections;
        let mut i: usize = 0;
        while i < sections.len()
            invariant
                sv == blueprint@.sections,
                sections == blueprint.sections,
                i <= sections@.len(),
                values@ == initial_values(sv.subrange(0, i as int)),
                field_types@ == initial_types(sv.subrange(0, i as int)),
                section_fields@.len() == i,
                forall|j: int| 0 <= j < i ==> text::views(#[trigger] section_fields@[j]@) == section_keys(sv[j].fields),
            decreases sections.len() - i,
        {
            let fields = &sections[i].fields;
            let ghost fv = sv[i as int].fields;
            assert(fv == fields@.map_values(|f: crate::blueprint::Field| f@));
            let mut keys: Vec<String> = Vec::new();
            let ghost base_v = values@;
            let ghost base_t = field_types@;
            let mut j: usize = 0;
            while j < fields.len()
                invariant
                    i < sections@.len(),
                    fv == fields@.map_values(|f: crate::blueprint::Field| f@),
                    j <= fields@.len(),
                    values@ == with_defaults(fv.subrange(0, j as int), base_v),
                    field_types@ == with_types(fv.subrange(0, j as int), base_t),
                    text::views(keys@) == section_keys(fv.subrange(0, j as int)),
                decreases fields.len() - j,
            {
                let f = &fields[j];
                assert(fv.subrange(0, j + 1).drop_last() =~= fv.subrange(0, j as int));
                assert(fv.subrange(0, j + 1).last() == f@);
                if f.is_editable() {
                    let key = f.key.clone();
                    values.insert(key.clone(), f.default.duplicate());
                    field_types.insert(key.clone(), f.field_type);
                    let ghost before = keys@;
                    keys.push(key);
                    assert(text::views(keys@) =~= text::views(before).push(f.key@));
                }
                j = j + 1;
            }
            assert(fv.subrange(0, fv.len() as int) =~= fv);
            assert(sv.subrange(0, i + 1).drop_last() =~= sv.subrange(0, i as int));
            section_fields.push(keys);
            i = i + 1;
        }
        assert(sv.subrange(0, sv.len() as int) =~= sv);
        let r = Form {
            values,
            section_fields,
            field_types,
            selected_field: 0,
            editing: false,
            cursor_pos: 0,
            scroll_offset: 0,
            current_section: 0,
            total_sections: blueprint.sections.len(),
            sub_focus: 0,
            list_selected: 0,
            visible_field_count: 5,
            text_scroll_offset: 0,
        };
        assert(r@.section_fields =~= new_form_view(blueprint@).section_fields);
        r
    }

    /// The key of the selected field.
    fn get_current_key(&self) -> (r: Option<&String>)
        ensures
            match r {
                Some(k) => self@.current_key() == Some(k@),
                None => self@.current_key() is None,
            },
    {
        if self.current_section < self.section_fields.len() {
            let fields = &self.section_fields[self.current_section];
            if self.selected_field < fields.len() {
                return Some(&fields[self.selected_field]);
            }
        }
        None
    }

    /// A copy of the key of the selected field.
    fn current_key_owned(&self) -> (r: Option<String>)
        ensures
            match r {
                Some(k) => self@.current_key() == Some(k@),
                None => self@.current_key() is None,
            },
    {
        match self.get_current_key() {
            Some(k) => Some(k.clone()),
            None => None,
        }
    }

    /// A copy of the text stored under `key`, when it holds text.
    fn text_at(&self, key: &String) -> (r: Option<String>)
        ensures
            match r {
                Some(s) => self@.values.contains_key(key@) && self@.values[key@] is Text && s@
                    == self@.values[key@].text(),
                None => !(self@.values.contains_key(key@) && self@.values[key@] is Text),
            },
    {
        match self.values.get(key) {
            Some(FieldValue::Text(s)) => Some(s.clone()),
            _ => None,
        }
    }

    /// A copy of the value stored under `key`, `Empty` when there is none.
    pub fn value_at(&self, key: &String) -> (r: FieldValue)
        ensures
            r@ == self@.value_at(key@),
    {
        match self.values.get(key) {
            Some(v) => v.duplicate(),
            None => FieldValue::Empty,
        }
    }

    /// A copy of the text of the selected field, when it holds text.
    fn current_text_owned(&self) -> (r: Option<String>)
        ensures
            match r {
                Some(s) => self@.current_text() == Some(s@),
                None => self@.current_text() is None,
            },
    {
        match self.get_current_key() {
            Some(k) => self.text_at(k),
            None => None,
        }
    }

    /// Number of fields in the current section.
    pub fn current_section_field_count(&self) -> (r: usize)
        ensures
            r == self@.field_count(),
    {
        if self.current_section < self.section_fields.len() {
            self.section_fields[self.current_section].len()
        } else {
            0
        }
    }

    /// Whether the selected field is a textarea.
    pub fn is_multiline(&self) -> (r: bool)
        ensures
            r == self@.multiline(),
    {
        match self.get_current_key() {
            Some(k) => match self.field_types.get(k) {
                Some(t) => *t == FieldType::Textarea,
                None => false,
            },
            None => false,
        }
    }

    /// Sets how many fields fit on screen (at least one).
    pub fn set_visible_field_count(&mut self, count: usize)
        ensures
            final(self)@ == (FormView {
                visible_field_count: if count >= 1 {
                    count
                } else {
                    1
                },
                ..old(self)@
            }),
    {
        self.visible_field_count = if count >= 1 {
            count
        } else {
            1
        };
    }

    fn reset_edit(&mut self)
        ensures
            final(self)@ == old(self)@.reset_edit(),
    {
        self.editing = false;
        self.cursor_pos = 0;
        self.sub_focus = 0;
        self.text_scroll_offset = 0;
        self.list_selected = 0;
    }

    fn ensure_visible(&mut self)
        requires
            old(self)@.window_fits(),
        ensures
            final(self)@ == old(self)@.ensure_visible(),
    {
        let count = self.current_section_field_count();
        if count == 0 {
            return;
        }
        if self.selected_field >= count {
            self.selected_field = count - 1;
        }
        let visible = if self.visible_field_count >= 1 {
            self.visible_field_count
        } else {
            1
        };
        if self.selected_field < self.scroll_offset {
            self.scroll_offset = self.selected_field;
        } else if self.selected_field >= self.scroll_offset + visible {
            self.scroll_offset = self.selected_field.saturating_sub(visible - 1);
        }
        let max_scroll = count.saturating_sub(visible);
        if self.scroll_offset > max_scroll {
            self.scroll_offset = max_scroll;
        }
    }

    /// Moves to the next field of the section, wrapping to the first.
    pub fn next_field(&mut self)
        requires
            old(self)@.window_fits(),
        ensures
            final(self)@ == old(self)@.next_field(),
            final(self)@.window_fits(),
            old(self)@.field_count() <= usize::MAX,
    {
        let count = self.current_section_field_count();
        if count == 0 {
            return;
        }
        if self.selected_field >= count {
            self.selected_field = count - 1;
        }
        self.selected_field = (self.selected_field + 1) % count;
        self.reset_edit();
        self.ensure_visible();
    }

    /// Moves to the previous field of the section, wrapping to the last.
    pub fn prev_field(&mut self)
        requires
            old(self)@.window_fits(),
        ensures
            final(self)@ == old(self)@.prev_field(),
            final(self)@.window_fits(),
            old(self)@.field_count() <= usize::MAX,
    {
        let count = self.current_section_field_count();
        if count == 0 {
            return;
        }
        if self.selected_field >= count {
            self.selected_field = count - 1;
        }
        if self.selected_field == 0 {
            self.selected_field = count - 1;
        } else {
            self.selected_field = self.selected_field - 1;
        }
        self.reset_edit();
        self.ensure_visible();
    }

    fn enter_section(&mut self, idx: usize)
        ensures
            final(self)@ == old(self)@.enter_section(idx as int),
    {
        self.current_section = idx;
        self.selected_field = 0;
        self.scroll_offset = 0;
        self.reset_edit();
    }

    /// Moves to the next section, wrapping to the first.
    pub fn next_section(&mut self)
        requires
            old(self).total_sections >= 1,
        ensures
            final(self)@ == old(self)@.next_section(),
    {
        if self.current_section < self.total_sections - 1 {
            self.enter_section(self.current_section + 1);
        } else {
            self.enter_section(0);
        }
    }

    /// Moves to the previous section, wrapping to the last.
    pub fn prev_section(&mut self)
        ensures
            final(self)@ == old(self)@.prev_section(),
    {
        if self.current_section > 0 {
            self.enter_section(self.current_section - 1);
        } else {
            self.enter_section(self.total_sections.saturating_sub(1));
        }
    }

    /// Moves to section `idx` if it exists.
    pub fn go_to_section(&mut self, idx: usize)
        ensures
            final(self)@ == old(self)@.go_to_section(idx as int),
    {
        if idx < self.total_sections {
            self.enter_section(idx);
        }
    }

    /// Scrolls the field list up.
    pub fn scroll_up(&mut self, amount: usize)
        ensures
            final(self)@ == old(self)@.scroll_up(amount as int),
    {
        self.scroll_offset = self.scroll_offset.saturating_sub(amount);
    }

    /// Scrolls the field list down, at most to the last page.
    pub fn scroll_down(&mut self, amount: usize)
        requires
            old(self).scroll_offset + amount <= usize::MAX,
        ensures
            final(self)@ == old(self)@.scroll_down(amount as int),
    {
        self.scroll_offset = self.scroll_offset + amount;
        let count = self.current_section_field_count();
        let max_scroll = count.saturating_sub(self.visible_field_count);
        if self.scroll_offset > max_scroll {
            self.scroll_offset = max_scroll;
        }
    }

    /// Scrolls multi-line text up.
    pub fn scroll_text_up(&mut self, amount: u16)
        ensures
            final(self)@ == old(self)@.scroll_text_up(amount as int),
    {
        self.text_scroll_offset = self.text_scroll_offset.saturating_sub(amount);
    }

    /// Scrolls multi-line text down.
    pub fn scroll_text_down(&mut self, amount: u16)
        ensures
            final(self)@ == old(self)@.scroll_text_down(amount as int),
    {
        self.text_scroll_offset = self.text_scroll_offset.saturating_add(amount);
    }

    /// Scrolls multi-line text back to the top.
    pub fn reset_text_scroll(&mut self)
        ensures
            final(self)@ == (FormView { text_scroll_offset: 0, ..old(self)@ }),
    {
        self.text_scroll_offset = 0;
    }

    /// Starts editing the selected field with the cursor at the end of its text.
    pub fn start_editing(&mut self)
        ensures
            final(self)@ == old(self)@.start_editing(),
    {
        self.editing = true;
        self.text_scroll_offset = 0;
        let new_pos = match self.current_text_owned() {
            Some(s) => text::utf8_len(s.as_str()),
            None => 0,
        };
        self.cursor_pos = new_pos;
    }

    /// Stops editing.
    pub fn stop_editing(&mut self)
        ensures
            final(self)@ == old(self)@.stop_editing(),
    {
        self.editing = false;
        self.cursor_pos = 0;
        self.text_scroll_offset = 0;
    }

    /// Whether a field is being edited.
    pub fn is_editing(&self) -> (r: bool)
        ensures
            r == self@.editing,
    {
        self.editing
    }

    /// Types `c` at the cursor of the selected field's text; a field without
    /// text becomes the text `c`.
    pub fn insert_char(&mut self, c: char)
        requires
            old(self)@.can_insert_char(),
        ensures
            final(self)@ == old(self)@.insert_char(c),
    {
        let pos = self.cursor_pos;
        if let Some(key) = self.current_key_owned() {
            match self.text_at(&key) {
                Some(s) => {
                    let len = text::utf8_len(s.as_str());
                    if pos <= len {
                        let mut s = s;
                        let ghost old_s = s@;
                        text::insert_char_at(&mut s, pos, c);
                        proof {
                            lemma_decode_encode(s@);
                        }
                        assert(s@ == text::insert_at_byte(old_s, pos as int, c));
                        let w = text::char_utf8_len(c);
                        self.values.insert(key, FieldValue::Text(s));
                        self.cursor_pos = pos + w;
                    }
                },
                None => {
                    let mut s = String::new();
                    proof {
                        lemma_empty_boundary(s@);
                    }
                    text::insert_char_at(&mut s, pos, c);
                    proof {
                        lemma_decode_encode(s@);
                        lemma_decode_encode(seq![c]);
                        assert(encode_utf8(Seq::<char>::empty()) =~= Seq::<u8>::empty());
                        assert(encode_utf8(s@) =~= encode_utf8(seq![c]));
                    }
                    let w = text::char_utf8_len(c);
                    self.values.insert(key, FieldValue::Text(s));
                    self.cursor_pos = pos + w;
                },
            }
        }
    }

    /// Deletes the char before the cursor.
    pub fn backspace(&mut self)
        requires
            old(self)@.can_backspace(),
        ensures
            final(self)@ == old(self)@.backspace(),
    {
        let pos = self.cursor_pos;
        if let Some(key) = self.current_key_owned() {
            if let Some(s) = self.text_at(&key) {
                if pos > 0 {
                    let mut s = s;
                    let ghost old_s = s@;
                    let prev = text::prev_char_boundary(s.as_str(), pos);
                    proof {
                        lemma_prev_boundary(old_s, pos as int);
                    }
                    text::drain_bytes(&mut s, prev, pos);
                    proof {
                        lemma_decode_encode(s@);
                    }
                    assert(s@ == text::remove_bytes(old_s, prev as int, pos as int));
                    self.values.insert(key, FieldValue::Text(s));
                    self.cursor_pos = prev;
                }
            }
        }
    }

    /// Deletes the char at the cursor.
    pub fn delete(&mut self)
        requires
            old(self)@.can_delete(),
        ensures
            final(self)@ == old(self)@.delete(),
    {
        let pos = self.cursor_pos;
        if let Some(key) = self.current_key_owned() {
            if let Some(s) = self.text_at(&key) {
                if pos < text::utf8_len(s.as_str()) {
                    let mut s = s;
                    let ghost old_s = s@;
                    let next = text::next_char_boundary(s.as_str(), pos);
                    proof {
                        lemma_next_boundary(old_s, pos as int);
                    }
                    text::drain_bytes(&mut s, pos, next);
                    proof {
                        lemma_decode_encode(s@);
                    }
                    assert(s@ == text::remove_bytes(old_s, pos as int, next as int));
                    self.values.insert(key, FieldValue::Text(s));
                }
            }
        }
    }

    /// Moves the cursor one char left.
    pub fn cursor_left(&mut self)
        ensures
            final(self)@ == old(self)@.cursor_left(),
    {
        let pos = self.cursor_pos;
        let new_pos = match self.current_text_owned() {
            Some(s) => text::prev_char_boundary(s.as_str(), pos),
            None => pos,
        };
        self.cursor_pos = new_pos;
    }

    /// Moves the cursor one char right.
    pub fn cursor_right(&mut self)
        ensures
            final(self)@ == old(self)@.cursor_right(),
    {
        let pos = self.cursor_pos;
        let new_pos = match self.current_text_owned() {
            Some(s) => {
                proof {
                    lemma_next_boundary(s@, pos as int);
                }
                text::next_char_boundary(s.as_str(), pos)
            },
            None => pos,
        };
        self.cursor_pos = new_pos;
    }

    /// Moves the cursor to the start.
    pub fn cursor_start(&mut self)
        ensures
            final(self)@ == (FormView { cursor_pos: 0, ..old(self)@ }),
    {
        self.cursor_pos = 0;
    }

    /// Moves the cursor to the end of the text.
    pub fn cursor_end(&mut self)
        ensures
            final(self)@ == old(self)@.cursor_end(),
    {
        let new_pos = match self.current_text_owned() {
            Some(s) => text::utf8_len(s.as_str()),
            None => 0,
        };
        self.cursor_pos = new_pos;
    }

    /// Flips the selected checkbox.
    pub fn toggle_checkbox(&mut self)
        ensures
            final(self)@ == old(self)@.toggle_checkbox(),
    {
        if let Some(key) = self.current_key_owned() {
            let next = match self.values.get(&key) {
                Some(FieldValue::Bool(b)) => Some(FieldValue::Bool(!*b)),
                Some(FieldValue::Empty) => Some(FieldValue::Bool(true)),
                _ => None,
            };
            if let Some(v) = next {
                self.values.insert(key, v);
            }
        }
    }

    /// Sets the selected select field to the option after its current one.
    pub fn cycle_select(&mut self, options: &[SelectOption])
        ensures
            final(self)@ == old(self)@.cycle_select(options@.map_values(|o: SelectOption| o.value@)),
    {
        let ghost opts = options@.map_values(|o: SelectOption| o.value@);
        if options.len() == 0 {
            return;
        }
        if let Some(key) = self.current_key_owned() {
            let current_value = self.value_at(&key);
            let current_str = text::owned(current_value.as_str());
            let mut i: usize = 0;
            let mut found: Option<usize> = None;
            while i < options.len()
                invariant
                    i <= options@.len(),
                    opts == options@.map_values(|o: SelectOption| o.value@),
                    current_str@ == old(self)@.value_at(key@).text(),
                    match found {
                        Some(j) => j < i && first_pos(opts.subrange(0, i as int), current_str@) == Some(j as int),
                        None => first_pos(opts.subrange(0, i as int), current_str@) is None,
                    },
                decreases options.len() - i,
            {
                assert(opts.subrange(0, i + 1).drop_last() =~= opts.subrange(0, i as int));
                if found.is_none() && options[i].value == current_str {
                    found = Some(i);
                }
                i = i + 1;
            }
            assert(opts.subrange(0, options@.len() as int) =~= opts);
            let next_index = match found {
                Some(j) => (j + 1) % options.len(),
                None => 0,
            };
            let next_value = options[next_index].value.clone();
            self.values.insert(key, FieldValue::Text(next_value));
        }
    }

    /// Stores `value` in the selected field.
    pub fn set_current_value(&mut self, value: FieldValue)
        ensures
            final(self)@ == old(self)@.set_current_value(value@),
    {
        if let Some(key) = self.current_key_owned() {
            self.values.insert(key, value);
        }
    }

    /// A copy of the selected field's value (`Empty` when none is selected).
    pub fn get_current_value(&self) -> (r: FieldValue)
        ensures
            r@ == self@.current_value(),
    {
        match self.get_current_key() {
            Some(k) => self.value_at(k),
            None => FieldValue::Empty,
        }
    }

    fn add_item_under(&mut self, key: String, item: String)
        ensures
            final(self)@ == old(self)@.add_to_list(key@, item@),
    {
        if item.as_str().is_empty() {
            return;
        }
        let existing = self.value_at(&key);
        let mut items = existing.as_vec();
        if !contains_string(&items, &item) {
            let ghost before = items@;
            items.push(item);
            assert(text::views(items@) =~= text::views(before).push(item@));
            self.values.insert(key, FieldValue::Array(items));
        }
    }

    fn remove_item_under(&mut self, key: String, index: usize)
        ensures
            final(self)@ == old(self)@.remove_from_list(key@, index as int),
    {
        let existing = self.value_at(&key);
        let mut items = existing.as_vec();
        if index < items.len() {
            let ghost before = items@;
            items.remove(index);
            assert(text::views(items@) =~= text::views(before).remove(index as int));
            self.values.insert(key, FieldValue::Array(items));
        }
    }

    /// Appends `item` to the selected list field unless it is empty or already listed.
    pub fn add_list_item(&mut self, item: String)
        ensures
            final(self)@ == old(self)@.add_list_item(item@),
    {
        if item.as_str().is_empty() {
            return;
        }
        if let Some(key) = self.current_key_owned() {
            self.add_item_under(key, item);
        }
    }

    /// Removes item `index` of the selected list field.
    pub fn remove_list_item(&mut self, index: usize)
        ensures
            final(self)@ == old(self)@.remove_list_item(index as int),
    {
        if let Some(key) = self.current_key_owned() {
            self.remove_item_under(key, index);
        }
    }

    /// The pending input of the selected list field.
    pub fn get_list_input_value(&self) -> (r: String)
        ensures
            r@ == self@.list_input(),
    {
        match self.get_current_key() {
            Some(k) => {
                let input_key = text::concat(k.as_str(), "_input");
                let v = self.value_at(&input_key);
                text::owned(v.as_str())
            },
            None => String::new(),
        }
    }

    /// Sets the pending input of the selected list field.
    pub fn set_list_input_value(&mut self, value: String)
        ensures
            final(self)@ == old(self)@.set_list_input(value@),
    {
        if let Some(key) = self.current_key_owned() {
            let input_key = text::concat(key.as_str(), "_input");
            self.values.insert(input_key, FieldValue::Text(value));
        }
    }

    /// Types `c` into the list input at the cursor (clamped to its end).
    pub fn insert_list_input_char(&mut self, c: char)
        requires
            old(self)@.can_insert_list_char(),
        ensures
            final(self)@ == old(self)@.insert_list_input_char(c),
    {
        let mut value = self.get_list_input_value();
        let len = text::utf8_len(value.as_str());
        let pos = if self.cursor_pos <= len {
            self.cursor_pos
        } else {
            len
        };
        let ghost old_v = value@;
        text::insert_char_at(&mut value, pos, c);
        proof {
            lemma_decode_encode(value@);
        }
        assert(value@ == text::insert_at_byte(old_v, pos as int, c));
        let w = text::char_utf8_len(c);
        self.cursor_pos = pos + w;
        self.set_list_input_value(value);
    }

    /// Deletes the char before the cursor in the list input.
    pub fn list_input_backspace(&mut self)
        requires
            old(self)@.can_list_backspace(),
        ensures
            final(self)@ == old(self)@.list_input_backspace(),
    {
        let mut value = self.get_list_input_value();
        if self.cursor_pos > 0 {
            let ghost old_v = value@;
            let prev = text::prev_char_boundary(value.as_str(), self.cursor_pos);
            proof {
                lemma_prev_boundary(old_v, self.cursor_pos as int);
            }
            text::drain_bytes(&mut value, prev, self.cursor_pos);
            proof {
                lemma_decode_encode(value@);
            }
            assert(value@ == text::remove_bytes(old_v, prev as int, self.cursor_pos as int));
            self.cursor_pos = prev;
            self.set_list_input_value(value);
        }
    }

    /// Empties the list input and puts the cursor at 0.
    pub fn clear_list_input(&mut self)
        ensures
            final(self)@ == old(self)@.clear_list_input(),
    {
        self.set_list_input_value(String::new());
        self.cursor_pos = 0;
    }

    /// A copy of the list stored under `target_key` (none when it holds no list).
    pub fn get_target_list(&self, target_key: &str) -> (r: Vec<String>)
        ensures
            text::views(r@) == self@.value_at(target_key@).items(),
    {
        let key = text::owned(target_key);
        self.value_at(&key).as_vec()
    }

    /// Appends `item` to the list under `target_key` unless it is empty or already listed.
    pub fn add_to_target_list(&mut self, target_key: &str, item: String)
        ensures
            final(self)@ == old(self)@.add_to_list(target_key@, item@),
    {
        self.add_item_under(text::owned(target_key), item);
    }

    /// Removes item `index` of the list under `target_key`.
    pub fn remove_from_target_list(&mut self, target_key: &str, index: usize)
        ensures
            final(self)@ == old(self)@.remove_from_list(target_key@, index as int),
    {
        self.remove_item_under(text::owned(target_key), index);
    }

    /// Stores an empty list under `target_key`.
    pub fn clear_target_list(&mut self, target_key: &str)
        ensures
            final(self)@ == (FormView {
                values: old(self)@.values.insert(target_key@, FieldVal::Array(Seq::empty())),
                ..old(self)@
            }),
    {
        let v: Vec<String> = Vec::new();
        assert(text::views(v@) =~= Seq::<Seq<char>>::empty());
        self.values.insert(text::owned(target_key), FieldValue::Array(v));
    }

    /// Whether typing a char now is safe (see `can_insert_char`).
    pub fn may_insert_char(&self) -> (r: bool)
        ensures
            r == self@.can_insert_char(),
    {
        match self.get_current_key() {
            Some(k) => match self.text_at(k) {
                Some(t) => {
                    let n = text::utf8_len(t.as_str());
                    self.cursor_pos > n || t.as_str().is_char_boundary(self.cursor_pos)
                },
                None => self.cursor_pos == 0,
            },
            None => true,
        }
    }

    /// Whether a backspace now is safe (see `can_backspace`).
    pub fn may_backspace(&self) -> (r: bool)
        ensures
            r == self@.can_backspace(),
    {
        match self.current_text_owned() {
            Some(t) => self.cursor_pos == 0 || t.as_str().is_char_boundary(self.cursor_pos),
            None => true,
        }
    }

    /// Whether a delete now is safe (see `can_delete`).
    pub fn may_delete(&self) -> (r: bool)
        ensures
            r == self@.can_delete(),
    {
        match self.current_text_owned() {
            Some(t) => {
                let n = text::utf8_len(t.as_str());
                self.cursor_pos >= n || t.as_str().is_char_boundary(self.cursor_pos)
            },
            None => true,
        }
    }

    /// Whether typing into the pending list input now is safe (see `can_insert_list_char`).
    pub fn may_insert_list_char(&self) -> (r: bool)
        ensures
            r == self@.can_insert_list_char(),
    {
        let v = self.get_list_input_value();
        let n = text::utf8_len(v.as_str());
        let pos = if self.cursor_pos <= n {
            self.cursor_pos
        } else {
            n
        };
        v.as_str().is_char_boundary(pos)
    }

    /// Whether a backspace in the pending list input now is safe (see `can_list_backspace`).
    pub fn may_list_backspace(&self) -> (r: bool)
        ensures
            r == self@.can_list_backspace(),
    {
        let v = self.get_list_input_value();
        self.cursor_pos == 0 || v.as_str().is_char_boundary(self.cursor_pos)
    }

    /// How many of the form's values hold something (are not empty).
    pub fn filled_count(&self) -> (r: usize)
        ensures
            r == filled_keys(self@.values).len(),
    {
        let entries = self.values.entries();
        let ghost s = entries@;
        let mut n: usize = 0;
        let mut i: usize = 0;
        assert(s.subrange(0, 0) =~= Seq::<(String, FieldValue)>::empty());
        assert(filled_keys(crate::keyed::entries_map(s.subrange(0, 0))) =~= Set::<Seq<char>>::empty());
        while i < entries.len()
            invariant
                s == entries@,
                crate::keyed::distinct_keys(s),
                i <= s.len(),
                n <= i,
                n == filled_keys(crate::keyed::entries_map(s.subrange(0, i as int))).len(),
            decreases entries.len() - i,
        {
            proof {
                crate::keyed::lemma_distinct_prefix(s, i as int + 1);
                assert(s.subrange(0, i + 1).drop_last() =~= s.subrange(0, i as int));
                lemma_filled_push(s.subrange(0, i + 1));
            }
            if !entries[i].1.is_empty() {
                n = n + 1;
            }
            i = i + 1;
        }
        assert(s.subrange(0, s.len() as int) =~= s);
        n
    }
}

} // verus!
