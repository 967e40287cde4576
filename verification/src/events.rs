//! What each key press and mouse event does to the program state.
//!
//! Each handler is a step from the state and an event to the next state and
//! the outside work to do (`Effect`): saving a draft, searching a registry,
//! deleting or re-reading files. The caller performs the effect.
use vstd::prelude::*;
use crate::app::{App, AppView, PanelFocus, Screen};
use crate::blueprint::{Field, FieldType, FieldVal, FieldValue, FieldView, opt_view};
use crate::form::{FormView, editable, sat_sub};
use crate::text;

verus! {

/// A key of the keyboard, as far as the program tells keys apart.
#[derive(Debug, Clone, Copy, PartialEq, Eq, Structural)]
pub enum Key {
    Char(char),
    Enter,
    Esc,
    Tab,
    BackTab,
    Backspace,
    Delete,
    Left,
    Right,
    Up,
    Down,
    Home,
    End,
    PageUp,
    PageDown,
    Other,
}

/// A key press, with whether Control was held.
#[derive(Debug, Clone, Copy, PartialEq, Eq, Structural)]
pub struct KeyPress {
    pub code: Key,
    pub ctrl: bool,
}

/// A mouse event at a terminal cell.
#[derive(Debug, Clone, Copy, PartialEq, Eq, Structural)]
pub enum Mouse {
    LeftClick { column: u16, row: u16 },
    ScrollUp { column: u16, row: u16 },
    ScrollDown { column: u16, row: u16 },
    Other,
}

/// An input event.
#[derive(Debug, Clone, Copy, PartialEq, Eq, Structural)]
pub enum Event {
    Key(KeyPress),
    Mouse(Mouse),
    Other,
}

/// Outside work that a step asks for.
#[derive(Debug, Clone, PartialEq)]
pub enum Effect {
    Nothing,
    /// Save the current draft and show an error if that fails.
    SaveDraft,
    /// Save the current draft; a failure is ignored.
    SaveDraftQuietly,
    /// Look `package` up in `registry` in the background.
    Search { package: String, registry: String, add_to_list: bool },
    /// Delete the selected draft's file, then re-read the drafts.
    DeleteSelectedDraft,
    /// Re-read the blueprints and the drafts.
    Refresh,
    /// Open the prompts directory in the file manager.
    OpenPromptsDirectory,
}

/// The model of an `Effect`.
pub enum EffectView {
    Nothing,
    SaveDraft,
    SaveDraftQuietly,
    Search { package: Seq<char>, registry: Seq<char>, add_to_list: bool },
    DeleteSelectedDraft,
    Refresh,
    OpenPromptsDirectory,
}

impl View for Effect {
    type V = EffectView;

    open spec fn view(&self) -> EffectView {
        match self {
            Effect::Nothing => EffectView::Nothing,
            Effect::SaveDraft => EffectView::SaveDraft,
            Effect::SaveDraftQuietly => EffectView::SaveDraftQuietly,
            Effect::Search { package, registry, add_to_list } => EffectView::Search {
                package: package@,
                registry: registry@,
                add_to_list: *add_to_list,
            },
            Effect::DeleteSelectedDraft => EffectView::DeleteSelectedDraft,
            Effect::Refresh => EffectView::Refresh,
            Effect::OpenPromptsDirectory => EffectView::OpenPromptsDirectory,
        }
    }
}

/// The fields of `fs` that the form edits, in order.
pub open spec fn editable_fields(fs: Seq<FieldView>) -> Seq<FieldView>
    decreases fs.len(),
{
    if fs.len() == 0 {
        Seq::empty()
    } else if editable(fs.last()) {
        editable_fields(fs.drop_last()).push(fs.last())
    } else {
        editable_fields(fs.drop_last())
    }
}

proof fn lemma_editable_prefix(s: Seq<FieldView>, m: int)
    requires
        0 <= m <= s.len(),
    ensures
        editable_fields(s.subrange(0, m)).len() <= editable_fields(s).len(),
        editable_fields(s.subrange(0, m)) == editable_fields(s).subrange(0, editable_fields(s.subrange(0, m)).len() as int),
    decreases s.len(),
{
    if m == s.len() {
        assert(s.subrange(0, m) =~= s);
        assert(editable_fields(s).subrange(0, editable_fields(s).len() as int) =~= editable_fields(s));
    } else {
        lemma_editable_prefix(s.drop_last(), m);
        assert(s.drop_last().subrange(0, m) =~= s.subrange(0, m));
        let p = editable_fields(s.subrange(0, m));
        assert(editable_fields(s).subrange(0, p.len() as int) =~= editable_fields(s.drop_last()).subrange(0, p.len() as int));
    }
}

/// The blueprint field that the form's selection names.
pub open spec fn current_field(a: AppView) -> Option<FieldView> {
    match a.current_blueprint {
        Some(bp) => if a.form.current_section < bp.sections.len() {
            let ed = editable_fields(bp.sections[a.form.current_section as int].fields);
            if a.form.selected_field < ed.len() {
                Some(ed[a.form.selected_field as int])
            } else {
                None
            }
        } else {
            None
        },
        None => None,
    }
}

/// Fields whose pending input is a separate line (list builders and crate searches).
pub open spec fn is_list_type(t: FieldType) -> bool {
    t == FieldType::ListBuilder || t == FieldType::CrateSearch
}

/// The list a crate search adds to.
pub open spec fn target_key_of(f: FieldView) -> Seq<char> {
    match f.target_list_key {
        Some(k) => k,
        None => "tech.additional_crates"@,
    }
}

/// `items` without `v` if it holds `v`, else with `v` added at the end.
pub open spec fn toggle_in(items: Seq<Seq<char>>, v: Seq<char>) -> Seq<Seq<char>> {
    if items.contains(v) {
        items.filter(|x: Seq<char>| x != v)
    } else {
        items.push(v)
    }
}

/// The form's room for a field move: the visible window's end fits in `usize`.
pub open spec fn fits(f: FormView) -> bool {
    f.window_fits()
}

/// Editing the pending input of a list field: editing on, cursor at its end.
pub open spec fn start_list_edit(f: FormView) -> FormView {
    FormView { editing: true, text_scroll_offset: 0, cursor_pos: text::byte_len(f.list_input()) as usize, ..f }
}

/// A search started: loading shown, the effect asks for it.
pub open spec fn search_step(a: AppView, package: Seq<char>, registry: Seq<char>, add: bool) -> (AppView, EffectView) {
    (
        AppView {
            is_loading: true,
            loading_message: "Searching "@ + registry + " for '"@ + package + "'..."@,
            search_add_to_list: add,
            ..a
        },
        EffectView::Search { package, registry, add_to_list: add },
    )
}

/// The list selection after item `ls` of a list of `len` items is deleted.
pub open spec fn after_delete(ls: int, len: int) -> int {
    let new_len = len - 1;
    if ls >= new_len && new_len > 0 {
        new_len - 1
    } else if new_len == 0 {
        0
    } else {
        ls
    }
}

/// A key while a field is being edited.
pub open spec fn editing_step(f: FormView, t: FieldType, code: Key) -> FormView {
    match code {
        Key::Esc => f.stop_editing(),
        Key::Enter => if t == FieldType::Textarea {
            f.insert_char('\n')
        } else {
            f.stop_editing()
        },
        Key::Tab => f.stop_editing().next_field(),
        Key::BackTab => f.stop_editing().prev_field(),
        Key::Backspace => if is_list_type(t) {
            f.list_input_backspace()
        } else {
            f.backspace()
        },
        Key::Delete => f.delete(),
        Key::Left => f.cursor_left(),
        Key::Right => f.cursor_right(),
        Key::Home => FormView { cursor_pos: 0, ..f },
        Key::End => f.cursor_end(),
        Key::PageUp => if t == FieldType::Textarea {
            f.scroll_text_up(3)
        } else {
            f
        },
        Key::PageDown => if t == FieldType::Textarea {
            f.scroll_text_down(3)
        } else {
            f
        },
        Key::Char(c) => if is_list_type(t) {
            f.insert_list_input_char(c)
        } else {
            f.insert_char(c)
        },
        _ => f,
    }
}

/// The editing keys that can be handled without a panic (char boundaries, counters below `usize::MAX`).
pub open spec fn editing_ok(f: FormView, t: FieldType, code: Key) -> bool {
    match code {
        Key::Enter => t == FieldType::Textarea ==> f.can_insert_char(),
        Key::Tab => fits(f),
        Key::BackTab => fits(f),
        Key::Backspace => if is_list_type(t) {
            f.can_list_backspace()
        } else {
            f.can_backspace()
        },
        Key::Delete => f.can_delete(),
        Key::Char(c) => if is_list_type(t) {
            f.can_insert_list_char()
        } else {
            f.can_insert_char()
        },
        _ => true,
    }
}

/// Up in navigation mode.
pub open spec fn nav_up(a: AppView, fld: FieldView) -> AppView {
    let f = a.form;
    if fld.field_type == FieldType::Multiselect {
        if f.list_selected > 0 {
            AppView { form: FormView { list_selected: (f.list_selected - 1) as usize, ..f }, ..a }
        } else {
            AppView { form: FormView { sub_focus: 0, ..f }.prev_field(), ..a }
        }
    } else if f.sub_focus == 2 {
        if is_list_type(fld.field_type) && f.list_selected > 0 {
            AppView { form: FormView { list_selected: (f.list_selected - 1) as usize, ..f }, ..a }
        } else {
            a
        }
    } else {
        AppView { form: FormView { sub_focus: 0, ..f }.prev_field(), ..a }
    }
}

/// Down in navigation mode.
pub open spec fn nav_down(a: AppView, fld: FieldView) -> AppView {
    let f = a.form;
    if fld.field_type == FieldType::Multiselect {
        if f.list_selected < sat_sub(fld.options.len() as int, 1) {
            AppView { form: FormView { list_selected: (f.list_selected + 1) as usize, ..f }, ..a }
        } else {
            AppView { form: FormView { sub_focus: 0, ..f }.next_field(), ..a }
        }
    } else if f.sub_focus == 2 {
        let len = if fld.field_type == FieldType::ListBuilder {
            f.current_value().items().len() as int
        } else if fld.field_type == FieldType::CrateSearch {
            f.value_at(target_key_of(fld)).items().len() as int
        } else {
            0
        };
        if is_list_type(fld.field_type) && f.list_selected < sat_sub(len, 1) {
            AppView { form: FormView { list_selected: (f.list_selected + 1) as usize, ..f }, ..a }
        } else {
            a
        }
    } else {
        AppView { form: FormView { sub_focus: 0, ..f }.next_field(), ..a }
    }
}

/// Tab in navigation mode: through the parts of a composite field, then on.
pub open spec fn nav_tab(a: AppView, fld: FieldView) -> AppView {
    let f = a.form;
    if fld.field_type == FieldType::CrateInput {
        if f.sub_focus == 0 {
            AppView { form: FormView { sub_focus: 1, ..f }, ..a }
        } else {
            AppView { form: FormView { sub_focus: 0, ..f }.next_field(), ..a }
        }
    } else if is_list_type(fld.field_type) {
        if f.sub_focus == 0 {
            AppView { form: FormView { sub_focus: 1, ..f }, ..a }
        } else if f.sub_focus == 1 {
            AppView { form: FormView { sub_focus: 2, list_selected: 0, ..f }, ..a }
        } else {
            AppView { form: FormView { sub_focus: 0, ..f }.next_field(), ..a }
        }
    } else {
        AppView { form: FormView { sub_focus: 0, ..f }.next_field(), ..a }
    }
}

/// Shift-Tab in navigation mode.
pub open spec fn nav_backtab(a: AppView, fld: FieldView) -> AppView {
    let f = a.form;
    if fld.field_type == FieldType::CrateInput || is_list_type(fld.field_type) {
        if f.sub_focus > 0 {
            AppView { form: FormView { sub_focus: (f.sub_focus - 1) as usize, ..f }, ..a }
        } else {
            AppView { form: f.prev_field(), ..a }
        }
    } else {
        AppView { form: FormView { sub_focus: 0, ..f }.prev_field(), ..a }
    }
}

/// A multiselect option ticked or unticked.
pub open spec fn toggle_option(a: AppView, fld: FieldView) -> AppView {
    let idx = a.form.list_selected as int;
    if idx < fld.options.len() {
        AppView {
            form: a.form.set_current_value(
                FieldVal::Array(toggle_in(a.form.current_value().items(), fld.options[idx].value)),
            ),
            ..a
        }
    } else {
        a
    }
}

/// Enter in navigation mode.
pub open spec fn nav_enter(a: AppView, fld: FieldView) -> (AppView, EffectView) {
    let f = a.form;
    match fld.field_type {
        FieldType::Multiselect => (toggle_option(a, fld), EffectView::Nothing),
        FieldType::Text | FieldType::Textarea => (AppView { form: f.start_editing(), ..a }, EffectView::Nothing),
        FieldType::Checkbox => (AppView { form: f.toggle_checkbox(), ..a }, EffectView::Nothing),
        FieldType::Select => (
            AppView { form: f.cycle_select(fld.options.map_values(|o: crate::blueprint::OptionView| o.value)), ..a },
            EffectView::Nothing,
        ),
        FieldType::SearchCrate => {
            let package = match fld.search_crate {
                Some(p) => p,
                None => Seq::empty(),
            };
            if package.len() != 0 {
                search_step(a, package, fld.registry, false)
            } else {
                (a, EffectView::Nothing)
            }
        },
        FieldType::CrateInput => if f.sub_focus == 1 {
            let package = match fld.crate_name {
                Some(p) => p,
                None => match fld.search_crate {
                    Some(p) => p,
                    None => Seq::empty(),
                },
            };
            let a2 = AppView { form: FormView { sub_focus: 0, ..f }, ..a };
            if package.len() != 0 {
                search_step(a2, package, fld.registry, false)
            } else {
                (a2, EffectView::Nothing)
            }
        } else {
            (AppView { form: f.start_editing(), ..a }, EffectView::Nothing)
        },
        FieldType::ListBuilder => if f.sub_focus == 0 {
            (AppView { form: start_list_edit(f), ..a }, EffectView::Nothing)
        } else if f.sub_focus == 1 {
            let item = text::trim(f.list_input());
            let f2 = if item.len() != 0 {
                f.add_list_item(item).clear_list_input()
            } else {
                f
            };
            (AppView { form: FormView { sub_focus: 0, ..f2 }, ..a }, EffectView::Nothing)
        } else {
            (a, EffectView::Nothing)
        },
        FieldType::CrateSearch => if f.sub_focus == 0 {
            (AppView { form: start_list_edit(f), ..a }, EffectView::Nothing)
        } else if f.sub_focus == 1 {
            let package = text::trim(f.list_input());
            let a2 = AppView { form: FormView { sub_focus: 0, ..f }, ..a };
            if package.len() != 0 {
                search_step(
                    AppView { search_target_key: Some(target_key_of(fld)), ..a2 },
                    package,
                    fld.registry,
                    true,
                )
            } else {
                (a2, EffectView::Nothing)
            }
        } else {
            (a, EffectView::Nothing)
        },
        FieldType::ActionButton => (
            AppView { status_message: Some("Press SPACE to activate this button"@), ..a },
            EffectView::Nothing,
        ),
        _ => (a, EffectView::Nothing),
    }
}

/// Space in navigation mode.
pub open spec fn nav_space(a: AppView, fld: FieldView) -> AppView {
    match fld.field_type {
        FieldType::Multiselect => toggle_option(a, fld),
        FieldType::ActionButton => {
            let action = match fld.action {
                Some(x) => x,
                None => Seq::empty(),
            };
            if action == "generate_copy"@ {
                AppView { generate_prompt: true, copy_to_clipboard: true, ..a }
            } else if action == "generate_only"@ {
                AppView { generate_prompt: true, copy_to_clipboard: false, ..a }
            } else {
                a
            }
        },
        FieldType::Checkbox => AppView { form: a.form.toggle_checkbox(), ..a },
        _ => a,
    }
}

/// Delete (or `d`) in navigation mode: removes the selected list item.
pub open spec fn nav_delete(a: AppView, fld: FieldView) -> AppView {
    let f = a.form;
    if f.sub_focus == 2 && fld.field_type == FieldType::ListBuilder {
        let len = f.current_value().items().len() as int;
        if len > 0 && f.list_selected < len {
            let f2 = f.remove_list_item(f.list_selected as int);
            AppView { form: FormView { list_selected: after_delete(f.list_selected as int, len) as usize, ..f2 }, ..a }
        } else {
            a
        }
    } else if f.sub_focus == 2 && fld.field_type == FieldType::CrateSearch {
        let k = target_key_of(fld);
        let len = f.value_at(k).items().len() as int;
        if len > 0 && f.list_selected < len {
            let f2 = f.remove_from_list(k, f.list_selected as int);
            AppView { form: FormView { list_selected: after_delete(f.list_selected as int, len) as usize, ..f2 }, ..a }
        } else {
            a
        }
    } else {
        a
    }
}

/// A key in navigation mode on field `fld`.
pub open spec fn nav_step(a: AppView, fld: FieldView, code: Key) -> (AppView, EffectView) {
    match code {
        Key::Char('q') | Key::Esc => (AppView { current_screen: Screen::Menu, ..a }, EffectView::Nothing),
        Key::Up | Key::Char('k') => (nav_up(a, fld), EffectView::Nothing),
        Key::Down | Key::Char('j') => (nav_down(a, fld), EffectView::Nothing),
        Key::Tab => (nav_tab(a, fld), EffectView::Nothing),
        Key::BackTab => (nav_backtab(a, fld), EffectView::Nothing),
        Key::Enter => nav_enter(a, fld),
        Key::Char(' ') => (nav_space(a, fld), EffectView::Nothing),
        Key::Char('e') => if fld.field_type == FieldType::Text || fld.field_type == FieldType::Textarea
            || fld.field_type == FieldType::CrateInput {
            (AppView { form: a.form.start_editing(), ..a }, EffectView::Nothing)
        } else if is_list_type(fld.field_type) {
            (AppView { form: start_list_edit(a.form), ..a }, EffectView::Nothing)
        } else {
            (a, EffectView::Nothing)
        },
        Key::Char('n') | Key::Right => (
            AppView { form: a.form.next_section(), ..a }.ensure_navbar_visible(5),
            EffectView::Nothing,
        ),
        Key::Char('p') | Key::Left => (
            AppView { form: a.form.prev_section(), ..a }.ensure_navbar_visible(5),
            EffectView::Nothing,
        ),
        Key::Char('r') => (AppView { current_screen: Screen::Review, ..a }, EffectView::Nothing),
        Key::Char('g') => (AppView { generate_prompt: true, copy_to_clipboard: true, should_quit: true, ..a }, EffectView::Nothing),
        Key::Char('s') => (a, EffectView::SaveDraft),
        Key::Delete | Key::Char('d') => (nav_delete(a, fld), EffectView::Nothing),
        Key::PageUp => (AppView { form: a.form.scroll_up(3), ..a }, EffectView::Nothing),
        Key::PageDown => (AppView { form: a.form.scroll_down(3), ..a }, EffectView::Nothing),
        _ => (a, EffectView::Nothing),
    }
}

/// The navigation keys that can be handled without a panic (char boundaries, counters below `usize::MAX`).
pub open spec fn nav_ok(a: AppView, code: Key) -> bool {
    match code {
        Key::Up | Key::Char('k') | Key::Down | Key::Char('j') | Key::Tab | Key::BackTab => fits(a.form),
        Key::Char('n') | Key::Right => a.form.total_sections >= 1 && a.navbar_scroll_offset + 5 <= usize::MAX,
        Key::Char('p') | Key::Left => a.navbar_scroll_offset + 5 <= usize::MAX,
        Key::PageDown => a.form.scroll_offset + 3 <= usize::MAX,
        _ => true,
    }
}

/// Leaving the form after confirming, with a save.
pub open spec fn exit_with_save(a: AppView) -> (AppView, EffectView) {
    (AppView { show_exit_confirm: false, current_screen: Screen::Drafts, ..a }, EffectView::SaveDraft)
}

/// Leaving the form after confirming, without a save: the form is closed.
pub open spec fn exit_without_save(a: AppView) -> AppView {
    AppView {
        show_exit_confirm: false,
        current_screen: Screen::Drafts,
        current_blueprint: None,
        current_draft_name: None,
        ..a
    }
}

/// A key while the exit confirmation is shown (only `App::request_exit`
/// opens it; no key does).
pub open spec fn confirm_step(a: AppView, code: Key) -> (AppView, EffectView) {
    match code {
        Key::Up | Key::Char('k') => (
            if a.exit_confirm_selection > 0 {
                AppView { exit_confirm_selection: (a.exit_confirm_selection - 1) as usize, ..a }
            } else {
                a
            },
            EffectView::Nothing,
        ),
        Key::Down | Key::Char('j') => (
            if a.exit_confirm_selection < 2 {
                AppView { exit_confirm_selection: (a.exit_confirm_selection + 1) as usize, ..a }
            } else {
                a
            },
            EffectView::Nothing,
        ),
        Key::Enter | Key::Char(' ') => if a.exit_confirm_selection == 0 {
            exit_with_save(a)
        } else if a.exit_confirm_selection == 1 {
            (exit_without_save(a), EffectView::Nothing)
        } else {
            (AppView { show_exit_confirm: false, ..a }, EffectView::Nothing)
        },
        Key::Esc => (AppView { show_exit_confirm: false, ..a }, EffectView::Nothing),
        Key::Char('s') => exit_with_save(a),
        Key::Char('x') => (exit_without_save(a), EffectView::Nothing),
        _ => (a, EffectView::Nothing),
    }
}

/// A key on the form screen.
pub open spec fn form_key_step(a: AppView, k: KeyPress) -> (AppView, EffectView) {
    if k.ctrl && (k.code == Key::Char('c') || k.code == Key::Char('q')) {
        (AppView { should_quit: true, ..a }, EffectView::SaveDraftQuietly)
    } else if k.ctrl && k.code == Key::Char('s') {
        (AppView { generate_prompt: true, copy_to_clipboard: true, should_quit: true, ..a }, EffectView::Nothing)
    } else if a.show_exit_confirm {
        confirm_step(a, k.code)
    } else {
        match current_field(a) {
            None => (a, EffectView::Nothing),
            Some(fld) => if a.form.editing {
                (AppView { form: editing_step(a.form, fld.field_type, k.code), ..a }, EffectView::Nothing)
            } else {
                nav_step(a, fld, k.code)
            },
        }
    }
}

/// The form-screen keys that can be handled without a panic (char boundaries, counters below `usize::MAX`).
pub open spec fn form_key_ok(a: AppView, k: KeyPress) -> bool {
    if k.ctrl && (k.code == Key::Char('c') || k.code == Key::Char('q') || k.code == Key::Char('s')) {
        true
    } else if a.show_exit_confirm {
        true
    } else {
        match current_field(a) {
            None => true,
            Some(fld) => if a.form.editing {
                editing_ok(a.form, fld.field_type, k.code)
            } else {
                nav_ok(a, k.code)
            },
        }
    }
}

/// `items` without any copy of `v`.
pub fn without(items: &Vec<String>, v: &String) -> (r: Vec<String>)
    ensures
        text::views(r@) == text::views(items@).filter(|x: Seq<char>| x != v@),
{
    let ghost pred = |x: Seq<char>| x != v@;
    let mut r: Vec<String> = Vec::new();
    let mut i: usize = 0;
    while i < items.len()
        invariant
            i <= items.len(),
            text::views(r@) == text::views(items@.subrange(0, i as int)).filter(pred),
            pred == (|x: Seq<char>| x != v@),
        decreases items.len() - i,
    {
        let ghost before = text::views(items@.subrange(0, i as int));
        let ghost after = text::views(items@.subrange(0, i + 1));
        assert(after.drop_last() =~= before);
        reveal_with_fuel(Seq::<_>::filter, 1);
        let ghost old_r = r@;
        if items[i] != *v {
            r.push(items[i].clone());
            assert(text::views(r@) =~= text::views(old_r).push(items@[i as int]@));
        }
        i = i + 1;
    }
    assert(items@.subrange(0, items.len() as int) =~= items@);
    r
}

impl App {
    /// The blueprint field that the form's selection names (a copy).
    pub fn current_field(&self) -> (r: Option<Field>)
        ensures
            match r {
                Some(f) => current_field(self@) == Some(f@),
                None => current_field(self@) is None,
            },
    {
        let bp = match &self.current_blueprint {
            Some(bp) => bp,
            None => return None,
        };
        if self.form.current_section >= bp.sections.len() {
            return None;
        }
        let fields = &bp.sections[self.form.current_section].fields;
        let ghost fv = bp@.sections[self.form.current_section as int].fields;
        assert(fv == fields@.map_values(|f: Field| f@));
        let mut count: usize = 0;
        let mut i: usize = 0;
        while i < fields.len()
            invariant
                fv == fields@.map_values(|f: Field| f@),
                self@.current_blueprint == Some(bp@),
                self.form.current_section < bp.sections@.len(),
                fv == bp@.sections[self.form.current_section as int].fields,
                i <= fields@.len(),
                count == editable_fields(fv.subrange(0, i as int)).len(),
                count <= i,
                self.form.selected_field >= count,
            decreases fields.len() - i,
        {
            assert(fv.subrange(0, i + 1).drop_last() =~= fv.subrange(0, i as int));
            assert(fv.subrange(0, i + 1).last() == fields@[i as int]@);
            if fields[i].is_editable() {
                if count == self.form.selected_field {
                    proof {
                        lemma_editable_prefix(fv, i + 1);
                        let pre = editable_fields(fv.subrange(0, i + 1));
                        assert(pre == editable_fields(fv.subrange(0, i as int)).push(fv[i as int]));
                        assert(pre[count as int] == fields@[i as int]@);
                        assert(editable_fields(fv)[count as int] == pre[count as int]);
                        assert(pre.len() == count + 1);
                        assert(self@.current_blueprint == Some(bp@));
                        assert(self@.form.current_section < bp@.sections.len());
                        assert(current_field(self@) == Some(editable_fields(fv)[count as int]));
                    }
                    return Some(fields[i].duplicate());
                }
                count = count + 1;
            }
            i = i + 1;
        }
        assert(fv.subrange(0, fv.len() as int) =~= fv);
        None
    }

    fn start_search(&mut self, package: String, registry: String, add_to_list: bool) -> (r: Effect)
        ensures
            (final(self)@, r@) == search_step(old(self)@, package@, registry@, add_to_list),
    {
        let mut msg = text::concat3("Searching ", registry.as_str(), " for '");
        msg.append(package.as_str());
        msg.append("'...");
        self.is_loading = true;
        self.loading_message = msg;
        self.search_add_to_list = add_to_list;
        Effect::Search { package, registry, add_to_list }
    }

    fn start_list_edit(&mut self)
        ensures
            final(self)@ == (AppView { form: start_list_edit(old(self)@.form), ..old(self)@ }),
    {
        let input = self.form.get_list_input_value();
        self.form.editing = true;
        self.form.text_scroll_offset = 0;
        self.form.cursor_pos = text::utf8_len(input.as_str());
    }

    fn toggle_option(&mut self, fld: &Field)
        ensures
            final(self)@ == toggle_option(old(self)@, fld@),
    {
        let idx = self.form.list_selected;
        if idx < fld.options.len() {
            let opt = fld.options[idx].value.clone();
            let current = self.form.get_current_value();
            let items = current.as_vec();
            let new_items = if crate::form::contains_string(&items, &opt) {
                without(&items, &opt)
            } else {
                let mut v = items;
                let ghost before = v@;
                v.push(opt);
                assert(text::views(v@) =~= text::views(before).push(fld@.options[idx as int].value));
                v
            };
            self.form.set_current_value(FieldValue::Array(new_items));
        }
    }

    fn editing_key(&mut self, t: FieldType, code: Key)
        requires
            editing_ok(old(self)@.form, t, code),
        ensures
            final(self)@ == (AppView { form: editing_step(old(self)@.form, t, code), ..old(self)@ }),
    {
        let list = t == FieldType::ListBuilder || t == FieldType::CrateSearch;
        match code {
            Key::Esc => self.form.stop_editing(),
            Key::Enter => {
                if t == FieldType::Textarea {
                    self.form.insert_char('\n');
                } else {
                    self.form.stop_editing();
                }
            },
            Key::Tab => {
                self.form.stop_editing();
                self.form.next_field();
            },
            Key::BackTab => {
                self.form.stop_editing();
                self.form.prev_field();
            },
            Key::Backspace => {
                if list {
                    self.form.list_input_backspace();
                } else {
                    self.form.backspace();
                }
            },
            Key::Delete => self.form.delete(),
            Key::Left => self.form.cursor_left(),
            Key::Right => self.form.cursor_right(),
            Key::Home => self.form.cursor_start(),
            Key::End => self.form.cursor_end(),
            Key::PageUp => {
                if t == FieldType::Textarea {
                    self.form.scroll_text_up(3);
                }
            },
            Key::PageDown => {
                if t == FieldType::Textarea {
                    self.form.scroll_text_down(3);
                }
            },
            Key::Char(c) => {
                if list {
                    self.form.insert_list_input_char(c);
                } else {
                    self.form.insert_char(c);
                }
            },
            _ => {},
        }
    }

    fn nav_up(&mut self, fld: &Field)
        requires
            fits(old(self)@.form),
        ensures
            final(self)@ == nav_up(old(self)@, fld@),
    {
        let t = fld.field_type;
        if t == FieldType::Multiselect {
            if self.form.list_selected > 0 {
                self.form.list_selected = self.form.list_selected - 1;
            } else {
                self.form.sub_focus = 0;
                self.form.prev_field();
            }
        } else if self.form.sub_focus == 2 {
            if (t == FieldType::ListBuilder || t == FieldType::CrateSearch) && self.form.list_selected > 0 {
                self.form.list_selected = self.form.list_selected - 1;
            }
        } else {
            self.form.sub_focus = 0;
            self.form.prev_field();
        }
    }

    #[verifier::rlimit(50)]
    fn nav_down(&mut self, fld: &Field)
        requires
            fits(old(self)@.form),
        ensures
            final(self)@ == nav_down(old(self)@, fld@),
    {
        let t = fld.field_type;
        if t == FieldType::Multiselect {
            if self.form.list_selected < fld.options.len().saturating_sub(1) {
                self.form.list_selected = self.form.list_selected + 1;
            } else {
                self.form.sub_focus = 0;
                self.form.next_field();
            }
        } else if self.form.sub_focus == 2 {
            let len = if t == FieldType::ListBuilder {
                self.form.get_current_value().as_vec().len()
            } else if t == FieldType::CrateSearch {
                let key = match &fld.target_list_key {
                    Some(k) => k.clone(),
                    None => text::owned("tech.additional_crates"),
                };
                self.form.get_target_list(key.as_str()).len()
            } else {
                0
            };
            if (t == FieldType::ListBuilder || t == FieldType::CrateSearch) && self.form.list_selected < len.saturating_sub(1) {
                self.form.list_selected = self.form.list_selected + 1;
            }
        } else {
            self.form.sub_focus = 0;
            self.form.next_field();
        }
    }

    fn nav_tab(&mut self, fld: &Field)
        requires
            fits(old(self)@.form),
        ensures
            final(self)@ == nav_tab(old(self)@, fld@),
    {
        let t = fld.field_type;
        if t == FieldType::CrateInput {
            if self.form.sub_focus == 0 {
                self.form.sub_focus = 1;
            } else {
                self.form.sub_focus = 0;
                self.form.next_field();
            }
        } else if t == FieldType::ListBuilder || t == FieldType::CrateSearch {
            if self.form.sub_focus == 0 {
                self.form.sub_focus = 1;
            } else if self.form.sub_focus == 1 {
                self.form.sub_focus = 2;
                self.form.list_selected = 0;
            } else {
                self.form.sub_focus = 0;
                self.form.next_field();
            }
        } else {
            self.form.sub_focus = 0;
            self.form.next_field();
        }
    }

    fn nav_backtab(&mut self, fld: &Field)
        requires
            fits(old(self)@.form),
        ensures
            final(self)@ == nav_backtab(old(self)@, fld@),
    {
        let t = fld.field_type;
        if t == FieldType::CrateInput || t == FieldType::ListBuilder || t == FieldType::CrateSearch {
            if self.form.sub_focus > 0 {
                self.form.sub_focus = self.form.sub_focus - 1;
            } else {
                self.form.prev_field();
            }
        } else {
            self.form.sub_focus = 0;
            self.form.prev_field();
        }
    }

    fn enter_search_crate(&mut self, fld: &Field) -> (r: Effect)
        requires
            fld.field_type == FieldType::SearchCrate,
        ensures
            (final(self)@, r@) == nav_enter(old(self)@, fld@),
    {
        let package = match &fld.search_crate {
            Some(p) => p.clone(),
            None => String::new(),
        };
        if !package.as_str().is_empty() {
            self.start_search(package, fld.registry.clone(), false)
        } else {
            Effect::Nothing
        }
    }

    fn enter_crate_input(&mut self, fld: &Field) -> (r: Effect)
        requires
            fld.field_type == FieldType::CrateInput,
        ensures
            (final(self)@, r@) == nav_enter(old(self)@, fld@),
    {
        if self.form.sub_focus == 1 {
            let package = match &fld.crate_name {
                Some(p) => p.clone(),
                None => match &fld.search_crate {
                    Some(p) => p.clone(),
                    None => String::new(),
                },
            };
            self.form.sub_focus = 0;
            if !package.as_str().is_empty() {
                self.start_search(package, fld.registry.clone(), false)
            } else {
                Effect::Nothing
            }
        } else {
            self.form.start_editing();
            Effect::Nothing
        }
    }

    fn enter_list_builder(&mut self, fld: &Field) -> (r: Effect)
        requires
            fld.field_type == FieldType::ListBuilder,
        ensures
            (final(self)@, r@) == nav_enter(old(self)@, fld@),
    {
        if self.form.sub_focus == 0 {
            self.start_list_edit();
        } else if self.form.sub_focus == 1 {
            let value = self.form.get_list_input_value();
            let item = text::trimmed(value.as_str());
            if !item.as_str().is_empty() {
                self.form.add_list_item(item);
                self.form.clear_list_input();
            }
            self.form.sub_focus = 0;
        }
        Effect::Nothing
    }

    fn enter_crate_search(&mut self, fld: &Field) -> (r: Effect)
        requires
            fld.field_type == FieldType::CrateSearch,
        ensures
            (final(self)@, r@) == nav_enter(old(self)@, fld@),
    {
        if self.form.sub_focus == 0 {
            self.start_list_edit();
            Effect::Nothing
        } else if self.form.sub_focus == 1 {
            let value = self.form.get_list_input_value();
            let package = text::trimmed(value.as_str());
            self.form.sub_focus = 0;
            if !package.as_str().is_empty() {
                let key = match &fld.target_list_key {
                    Some(k) => k.clone(),
                    None => text::owned("tech.additional_crates"),
                };
                self.search_target_key = Some(key);
                self.start_search(package, fld.registry.clone(), true)
            } else {
                Effect::Nothing
            }
        } else {
            Effect::Nothing
        }
    }

    fn nav_enter(&mut self, fld: &Field) -> (r: Effect)
        ensures
            (final(self)@, r@) == nav_enter(old(self)@, fld@),
    {
        match fld.field_type {
            FieldType::Multiselect => {
                self.toggle_option(fld);
                Effect::Nothing
            },
            FieldType::Text | FieldType::Textarea => {
                self.form.start_editing();
                Effect::Nothing
            },
            FieldType::Checkbox => {
                self.form.toggle_checkbox();
                Effect::Nothing
            },
            FieldType::Select => {
                self.form.cycle_select(fld.options.as_slice());
                assert(fld.options@.map_values(|o: crate::blueprint::SelectOption| o.value@)
                    =~= fld@.options.map_values(|o: crate::blueprint::OptionView| o.value));
                Effect::Nothing
            },
            FieldType::SearchCrate => self.enter_search_crate(fld),
            FieldType::CrateInput => self.enter_crate_input(fld),
            FieldType::ListBuilder => self.enter_list_builder(fld),
            FieldType::CrateSearch => self.enter_crate_search(fld),
            FieldType::ActionButton => {
                self.status_message = Some(text::owned("Press SPACE to activate this button"));
                Effect::Nothing
            },
            _ => Effect::Nothing,
        }
    }

    fn nav_space(&mut self, fld: &Field)
        ensures
            final(self)@ == nav_space(old(self)@, fld@),
    {
        match fld.field_type {
            FieldType::Multiselect => self.toggle_option(fld),
            FieldType::ActionButton => {
                let action = match &fld.action {
                    Some(x) => x.clone(),
                    None => String::new(),
                };
                if action == text::owned("generate_copy") {
                    self.generate_prompt = true;
                    self.copy_to_clipboard = true;
                } else if action == text::owned("generate_only") {
                    self.generate_prompt = true;
                    self.copy_to_clipboard = false;
                }
            },
            FieldType::Checkbox => self.form.toggle_checkbox(),
            _ => {},
        }
    }

    fn delete_builder_item(&mut self, fld: &Field)
        requires
            old(self).form.sub_focus == 2 && fld.field_type == FieldType::ListBuilder,
        ensures
            final(self)@ == nav_delete(old(self)@, fld@),
    {
        let len = self.form.get_current_value().as_vec().len();
        let ls = self.form.list_selected;
        if len > 0 && ls < len {
            self.form.remove_list_item(ls);
            let new_len = len - 1;
            if ls >= new_len && new_len > 0 {
                self.form.list_selected = new_len - 1;
            } else if new_len == 0 {
                self.form.list_selected = 0;
            }
        }
    }

    #[verifier::rlimit(50)]
    fn delete_target_item(&mut self, fld: &Field)
        requires
            old(self).form.sub_focus == 2 && fld.field_type == FieldType::CrateSearch,
        ensures
            final(self)@ == nav_delete(old(self)@, fld@),
    {
        let key = match &fld.target_list_key {
            Some(k) => k.clone(),
            None => text::owned("tech.additional_crates"),
        };
        let len = self.form.get_target_list(key.as_str()).len();
        let ls = self.form.list_selected;
        if len > 0 && ls < len {
            self.form.remove_from_target_list(key.as_str(), ls);
            let new_len = len - 1;
            if ls >= new_len && new_len > 0 {
                self.form.list_selected = new_len - 1;
            } else if new_len == 0 {
                self.form.list_selected = 0;
            }
        }
    }

    fn nav_delete(&mut self, fld: &Field)
        ensures
            final(self)@ == nav_delete(old(self)@, fld@),
    {
        if self.form.sub_focus == 2 && fld.field_type == FieldType::ListBuilder {
            self.delete_builder_item(fld);
        } else if self.form.sub_focus == 2 && fld.field_type == FieldType::CrateSearch {
            self.delete_target_item(fld);
        }
    }

    fn nav_key(&mut self, fld: &Field, code: Key) -> (r: Effect)
        requires
            nav_ok(old(self)@, code),
        ensures
            (final(self)@, r@) == nav_step(old(self)@, fld@, code),
    {
        match code {
            Key::Char('q') | Key::Esc => {
                self.current_screen = Screen::Menu;
                Effect::Nothing
            },
            Key::Up | Key::Char('k') => {
                self.nav_up(fld);
                Effect::Nothing
            },
            Key::Down | Key::Char('j') => {
                self.nav_down(fld);
                Effect::Nothing
            },
            Key::Tab => {
                self.nav_tab(fld);
                Effect::Nothing
            },
            Key::BackTab => {
                self.nav_backtab(fld);
                Effect::Nothing
            },
            Key::Enter => self.nav_enter(fld),
            Key::Char(' ') => {
                self.nav_space(fld);
                Effect::Nothing
            },
            Key::Char('e') => {
                let t = fld.field_type;
                if t == FieldType::Text || t == FieldType::Textarea || t == FieldType::CrateInput {
                    self.form.start_editing();
                } else if t == FieldType::ListBuilder || t == FieldType::CrateSearch {
                    self.start_list_edit();
                }
                Effect::Nothing
            },
            Key::Char('n') | Key::Right => {
                self.form.next_section();
                self.ensure_navbar_visible(5);
                Effect::Nothing
            },
            Key::Char('p') | Key::Left => {
                self.form.prev_section();
                self.ensure_navbar_visible(5);
                Effect::Nothing
            },
            Key::Char('r') => {
                self.current_screen = Screen::Review;
                Effect::Nothing
            },
            Key::Char('g') => {
                self.generate_prompt = true;
                self.copy_to_clipboard = true;
                self.should_quit = true;
                Effect::Nothing
            },
            Key::Char('s') => Effect::SaveDraft,
            Key::Delete | Key::Char('d') => {
                self.nav_delete(fld);
                Effect::Nothing
            },
            Key::PageUp => {
                self.form.scroll_up(3);
                Effect::Nothing
            },
            Key::PageDown => {
                self.form.scroll_down(3);
                Effect::Nothing
            },
            _ => Effect::Nothing,
        }
    }

    fn confirm_key(&mut self, code: Key) -> (r: Effect)
        ensures
            (final(self)@, r@) == confirm_step(old(self)@, code),
    {
        match code {
            Key::Up | Key::Char('k') => {
                if self.exit_confirm_selection > 0 {
                    self.exit_confirm_selection = self.exit_confirm_selection - 1;
                }
                Effect::Nothing
            },
            Key::Down | Key::Char('j') => {
                if self.exit_confirm_selection < 2 {
                    self.exit_confirm_selection = self.exit_confirm_selection + 1;
                }
                Effect::Nothing
            },
            Key::Enter | Key::Char(' ') => {
                if self.exit_confirm_selection == 0 {
                    self.confirm_exit_with_save()
                } else if self.exit_confirm_selection == 1 {
                    self.confirm_exit_without_save();
                    Effect::Nothing
                } else {
                    self.cancel_exit();
                    Effect::Nothing
                }
            },
            Key::Esc => {
                self.cancel_exit();
                Effect::Nothing
            },
            Key::Char('s') => self.confirm_exit_with_save(),
            Key::Char('x') => {
                self.confirm_exit_without_save();
                Effect::Nothing
            },
            _ => Effect::Nothing,
        }
    }

    /// Asks whether to save before leaving the form. No key opens this
    /// question (Esc and `q` on the form go back to the menu, keeping the
    /// form); it is there for a front end that asks before leaving.
    pub fn request_exit(&mut self)
        ensures
            final(self)@ == (AppView { show_exit_confirm: true, exit_confirm_selection: 0, ..old(self)@ }),
    {
        self.show_exit_confirm = true;
        self.exit_confirm_selection = 0;
    }

    /// Closes the exit question and stays in the form.
    pub fn cancel_exit(&mut self)
        ensures
            final(self)@ == (AppView { show_exit_confirm: false, ..old(self)@ }),
    {
        self.show_exit_confirm = false;
    }

    /// Leaves the form for the start screen; the draft is to be saved.
    pub fn confirm_exit_with_save(&mut self) -> (r: Effect)
        ensures
            (final(self)@, r@) == exit_with_save(old(self)@),
    {
        self.show_exit_confirm = false;
        self.current_screen = Screen::Drafts;
        Effect::SaveDraft
    }

    /// Leaves the form for the start screen and closes it without saving.
    pub fn confirm_exit_without_save(&mut self)
        ensures
            final(self)@ == exit_without_save(old(self)@),
    {
        self.show_exit_confirm = false;
        self.current_screen = Screen::Drafts;
        self.current_blueprint = None;
        self.current_draft_name = None;
    }

    /// Handles a key press on the form screen.
    pub fn handle_form_key(&mut self, key: KeyPress) -> (r: Effect)
        requires
            form_key_ok(old(self)@, key),
        ensures
            (final(self)@, r@) == form_key_step(old(self)@, key),
    {
        if key.ctrl {
            match key.code {
                Key::Char('c') | Key::Char('q') => {
                    self.should_quit = true;
                    return Effect::SaveDraftQuietly;
                },
                Key::Char('s') => {
                    self.generate_prompt = true;
                    self.copy_to_clipboard = true;
                    self.should_quit = true;
                    return Effect::Nothing;
                },
                _ => {},
            }
        }
        if self.show_exit_confirm {
            return self.confirm_key(key.code);
        }
        let fld = match self.current_field() {
            Some(f) => f,
            None => return Effect::Nothing,
        };
        if self.form.editing {
            self.editing_key(fld.field_type, key.code);
            Effect::Nothing
        } else {
            self.nav_key(&fld, key.code)
        }
    }
}


/// A key or click on the start screen (blueprints and drafts side by side).
pub open spec fn start_step(a: AppView, e: Event) -> (AppView, EffectView) {
    match e {
        Event::Key(k) => match k.code {
            Key::Char('q') | Key::Esc => (AppView { should_quit: true, ..a }, EffectView::Nothing),
            Key::Tab | Key::Right => (AppView { panel_focus: PanelFocus::Drafts, ..a }, EffectView::Nothing),
            Key::BackTab | Key::Left => (AppView { panel_focus: PanelFocus::Blueprints, ..a }, EffectView::Nothing),
            Key::Up | Key::Char('k') => (
                if a.panel_focus == PanelFocus::Blueprints {
                    a.menu_prev()
                } else {
                    a.drafts_prev()
                },
                EffectView::Nothing,
            ),
            Key::Down | Key::Char('j') => (
                if a.panel_focus == PanelFocus::Blueprints {
                    a.menu_next()
                } else {
                    a.drafts_next()
                },
                EffectView::Nothing,
            ),
            Key::Enter => (
                if a.panel_focus == PanelFocus::Blueprints {
                    a.select_blueprint()
                } else {
                    a.load_selected_draft()
                },
                EffectView::Nothing,
            ),
            Key::Char('n') => (AppView { panel_focus: PanelFocus::Blueprints, ..a }, EffectView::Nothing),
            Key::Char('d') => if a.panel_focus == PanelFocus::Drafts {
                (a, EffectView::DeleteSelectedDraft)
            } else {
                (a, EffectView::Nothing)
            },
            Key::Char('r') => (a, EffectView::Refresh),
            _ => (a, EffectView::Nothing),
        },
        Event::Mouse(Mouse::LeftClick { column, row }) => {
            let item = sat_sub(row as int, 4);
            if column < 60 {
                let b = AppView { panel_focus: PanelFocus::Blueprints, ..a };
                (
                    if item < a.blueprints.len() {
                        AppView { selected_blueprint: item as usize, ..b }
                    } else {
                        b
                    },
                    EffectView::Nothing,
                )
            } else {
                let b = AppView { panel_focus: PanelFocus::Drafts, ..a };
                (
                    if item < a.drafts.len() {
                        AppView { selected_draft: item as usize, ..b }
                    } else {
                        b
                    },
                    EffectView::Nothing,
                )
            }
        },
        _ => (a, EffectView::Nothing),
    }
}

/// The start-screen events that can be handled without a panic (char boundaries, counters below `usize::MAX`).
pub open spec fn start_ok(a: AppView, e: Event) -> bool {
    match e {
        Event::Key(k) => (k.code == Key::Down || k.code == Key::Char('j')) ==> a.selected_blueprint < usize::MAX
            && a.selected_draft < usize::MAX,
        _ => true,
    }
}

/// A key on the review screen.
pub open spec fn review_step(a: AppView, e: Event) -> AppView {
    match e {
        Event::Key(k) => match k.code {
            Key::Char('q') | Key::Esc | Key::Char('e') => AppView { current_screen: Screen::Form, ..a },
            Key::Enter | Key::Char('g') | Key::Char('y') => AppView {
                generate_prompt: true,
                copy_to_clipboard: true,
                should_quit: true,
                ..a
            },
            _ => a,
        },
        _ => a,
    }
}

/// A key or mouse event on the success message.
pub open spec fn success_step(a: AppView, e: Event) -> (AppView, EffectView) {
    match e {
        Event::Key(k) => match k.code {
            Key::Enter | Key::Esc | Key::Char(' ') => (AppView { current_screen: Screen::Form, ..a }, EffectView::Nothing),
            Key::Char('q') => (AppView { should_quit: true, ..a }, EffectView::Nothing),
            Key::Char('m') => (AppView { current_screen: Screen::Menu, ..a }, EffectView::Nothing),
            Key::Char('o') => (a, EffectView::OpenPromptsDirectory),
            _ => (a, EffectView::Nothing),
        },
        Event::Mouse(_) => (AppView { current_screen: Screen::Form, ..a }, EffectView::Nothing),
        _ => (a, EffectView::Nothing),
    }
}

/// The left half of the (assumed 120 columns wide) screen holds the form.
pub open spec fn form_width() -> int {
    60
}

/// A mouse event on the form screen.
pub open spec fn form_mouse_step(a: AppView, m: Mouse) -> AppView {
    match m {
        Mouse::LeftClick { column, row } => if column < form_width() && row >= 3 {
            let idx = sat_sub(row as int, 5) / 3 + a.form.scroll_offset;
            if idx < a.form.field_count() {
                AppView { form: FormView { selected_field: idx as usize, ..a.form }, ..a }
            } else {
                a
            }
        } else {
            a
        },
        Mouse::ScrollUp { column, row } => if row < 3 {
            AppView { navbar_scroll_offset: sat_sub(a.navbar_scroll_offset as int, 1) as usize, ..a }
        } else if column < form_width() {
            if a.form.editing && a.form.multiline() {
                AppView { form: a.form.scroll_text_up(1), ..a }
            } else {
                AppView { form: a.form.scroll_up(1), ..a }
            }
        } else {
            AppView { preview_scroll: sat_sub(a.preview_scroll as int, 3) as u16, ..a }
        },
        Mouse::ScrollDown { column, row } => if row < 3 {
            match a.current_blueprint {
                Some(bp) => {
                    let max_offset = sat_sub(bp.sections.len() as int, 1);
                    let n = a.navbar_scroll_offset + 1;
                    AppView {
                        navbar_scroll_offset: (if n < max_offset {
                            n
                        } else {
                            max_offset
                        }) as usize,
                        ..a
                    }
                },
                None => a,
            }
        } else if column < form_width() {
            if a.form.editing && a.form.multiline() {
                AppView { form: a.form.scroll_text_down(1), ..a }
            } else {
                AppView { form: a.form.scroll_down(1), ..a }
            }
        } else {
            let p = a.preview_scroll + 3;
            AppView {
                preview_scroll: (if p > u16::MAX {
                    u16::MAX as int
                } else {
                    p
                }) as u16,
                ..a
            }
        },
        Mouse::Other => a,
    }
}

/// The form-screen mouse events that can be handled without a panic (char boundaries, counters below `usize::MAX`).
pub open spec fn form_mouse_ok(a: AppView, m: Mouse) -> bool {
    match m {
        Mouse::LeftClick { column, row } => a.form.scroll_offset + 21845 <= usize::MAX,
        Mouse::ScrollDown { column, row } => a.navbar_scroll_offset < usize::MAX && a.form.scroll_offset + 1
            <= usize::MAX,
        _ => true,
    }
}

/// An event while an error is shown: a key among Enter, Esc, Space and `q`,
/// or any mouse event, closes it; nothing else happens.
pub open spec fn error_step(a: AppView, e: Event) -> AppView {
    match e {
        Event::Key(k) => if k.code == Key::Enter || k.code == Key::Esc || k.code == Key::Char(' ')
            || k.code == Key::Char('q') {
            a.dismiss_error()
        } else {
            a
        },
        Event::Mouse(_) => a.dismiss_error(),
        _ => a,
    }
}

/// One event, dispatched by what is shown.
pub open spec fn event_step(a: AppView, e: Event) -> (AppView, EffectView) {
    if a.has_error() {
        (error_step(a, e), EffectView::Nothing)
    } else {
        match a.current_screen {
            Screen::Menu | Screen::Drafts => start_step(a, e),
            Screen::Form => match e {
                Event::Key(k) => form_key_step(a, k),
                Event::Mouse(m) => (form_mouse_step(a, m), EffectView::Nothing),
                Event::Other => (a, EffectView::Nothing),
            },
            Screen::Review => (review_step(a, e), EffectView::Nothing),
            Screen::Success => success_step(a, e),
        }
    }
}

/// The events that can be handled without a panic (char boundaries, counters below `usize::MAX`).
pub open spec fn event_ok(a: AppView, e: Event) -> bool {
    if a.has_error() {
        true
    } else {
        match a.current_screen {
            Screen::Menu | Screen::Drafts => start_ok(a, e),
            Screen::Form => match e {
                Event::Key(k) => form_key_ok(a, k),
                Event::Mouse(m) => form_mouse_ok(a, m),
                Event::Other => true,
            },
            _ => true,
        }
    }
}

/// The outcome of a search: the package's name and version, or a message.
pub open spec fn search_finished(a: AppView, result: Result<(Seq<char>, Seq<char>), Seq<char>>) -> AppView {
    let b = AppView { is_loading: false, ..a };
    let c = match result {
        Ok((name, version)) => {
            let label = name + " v"@ + version;
            if a.search_add_to_list {
                let target = match a.search_target_key {
                    Some(k) => k,
                    None => "tech.additional_crates"@,
                };
                AppView {
                    form: b.form.add_to_list(target, label).clear_list_input(),
                    status_message: Some("✓ Added: "@ + version),
                    ..b
                }
            } else {
                AppView {
                    form: b.form.set_current_value(FieldVal::Text(label)),
                    status_message: Some("✓ Found: "@ + version),
                    ..b
                }
            }
        },
        Err(msg) => b.show_error("Search Failed"@, msg),
    };
    AppView { search_target_key: None, search_add_to_list: false, ..c }
}

/// The model of a search outcome.
pub open spec fn outcome_view(r: Result<crate::registry::PackageInfo, String>) -> Result<(Seq<char>, Seq<char>), Seq<char>> {
    match r {
        Ok(info) => Ok((info.name@, info.version@)),
        Err(e) => Err(e@),
    }
}

/// The file name of the prompt of blueprint `name`.
pub open spec fn prompt_file_of(name: Seq<char>) -> Seq<char> {
    text::spaces_to_underscores(text::lowercase(name)) + "_prompt.md"@
}

impl App {
    /// Handles a key press or click on the start screen.
    pub fn handle_start_event(&mut self, e: Event) -> (r: Effect)
        requires
            start_ok(old(self)@, e),
        ensures
            (final(self)@, r@) == start_step(old(self)@, e),
    {
        match e {
            Event::Key(k) => match k.code {
                Key::Char('q') | Key::Esc => {
                    self.should_quit = true;
                    Effect::Nothing
                },
                Key::Tab | Key::Right => {
                    self.panel_focus = PanelFocus::Drafts;
                    Effect::Nothing
                },
                Key::BackTab | Key::Left => {
                    self.panel_focus = PanelFocus::Blueprints;
                    Effect::Nothing
                },
                Key::Up | Key::Char('k') => {
                    if self.panel_focus == PanelFocus::Blueprints {
                        self.menu_prev();
                    } else {
                        self.drafts_prev();
                    }
                    Effect::Nothing
                },
                Key::Down | Key::Char('j') => {
                    if self.panel_focus == PanelFocus::Blueprints {
                        self.menu_next();
                    } else {
                        self.drafts_next();
                    }
                    Effect::Nothing
                },
                Key::Enter => {
                    if self.panel_focus == PanelFocus::Blueprints {
                        self.select_blueprint();
                    } else {
                        self.load_selected_draft();
                    }
                    Effect::Nothing
                },
                Key::Char('n') => {
                    self.panel_focus = PanelFocus::Blueprints;
                    Effect::Nothing
                },
                Key::Char('d') => {
                    if self.panel_focus == PanelFocus::Drafts {
                        Effect::DeleteSelectedDraft
                    } else {
                        Effect::Nothing
                    }
                },
                Key::Char('r') => Effect::Refresh,
                _ => Effect::Nothing,
            },
            Event::Mouse(Mouse::LeftClick { column, row }) => {
                let item = row.saturating_sub(4) as usize;
                if column < 60 {
                    self.panel_focus = PanelFocus::Blueprints;
                    if item < self.blueprints.len() {
                        self.selected_blueprint = item;
                    }
                } else {
                    self.panel_focus = PanelFocus::Drafts;
                    if item < self.drafts.len() {
                        self.selected_draft = item;
                    }
                }
                Effect::Nothing
            },
            _ => Effect::Nothing,
        }
    }

    /// Handles a key on the review screen.
    pub fn handle_review_event(&mut self, e: Event)
        ensures
            final(self)@ == review_step(old(self)@, e),
    {
        if let Event::Key(k) = e {
            match k.code {
                Key::Char('q') | Key::Esc | Key::Char('e') => self.current_screen = Screen::Form,
                Key::Enter | Key::Char('g') | Key::Char('y') => {
                    self.generate_prompt = true;
                    self.copy_to_clipboard = true;
                    self.should_quit = true;
                },
                _ => {},
            }
        }
    }

    /// Handles an event on the success message.
    pub fn handle_success_event(&mut self, e: Event) -> (r: Effect)
        ensures
            (final(self)@, r@) == success_step(old(self)@, e),
    {
        match e {
            Event::Key(k) => match k.code {
                Key::Enter | Key::Esc | Key::Char(' ') => {
                    self.current_screen = Screen::Form;
                    Effect::Nothing
                },
                Key::Char('q') => {
                    self.should_quit = true;
                    Effect::Nothing
                },
                Key::Char('m') => {
                    self.current_screen = Screen::Menu;
                    Effect::Nothing
                },
                Key::Char('o') => Effect::OpenPromptsDirectory,
                _ => Effect::Nothing,
            },
            Event::Mouse(_) => {
                self.current_screen = Screen::Form;
                Effect::Nothing
            },
            Event::Other => Effect::Nothing,
        }
    }

    /// Handles a mouse event on the form screen.
    pub fn handle_form_mouse(&mut self, m: Mouse)
        requires
            form_mouse_ok(old(self)@, m),
        ensures
            final(self)@ == form_mouse_step(old(self)@, m),
    {
        match m {
            Mouse::LeftClick { column, row } => {
                if column < 60 && row >= 3 {
                    let field_row = row.saturating_sub(5);
                    let idx = (field_row / 3) as usize + self.form.scroll_offset;
                    let count = self.form.current_section_field_count();
                    if idx < count {
                        self.form.selected_field = idx;
                    }
                }
            },
            Mouse::ScrollUp { column, row } => {
                if row < 3 {
                    self.navbar_scroll_left();
                } else if column < 60 {
                    if self.form.is_editing() && self.form.is_multiline() {
                        self.form.scroll_text_up(1);
                    } else {
                        self.form.scroll_up(1);
                    }
                } else {
                    self.preview_scroll = self.preview_scroll.saturating_sub(3);
                }
            },
            Mouse::ScrollDown { column, row } => {
                if row < 3 {
                    self.navbar_scroll_right();
                } else if column < 60 {
                    if self.form.is_editing() && self.form.is_multiline() {
                        self.form.scroll_text_down(1);
                    } else {
                        self.form.scroll_down(1);
                    }
                } else {
                    self.preview_scroll = self.preview_scroll.saturating_add(3);
                }
            },
            Mouse::Other => {},
        }
    }

    /// Whether the form may scroll its window by one more field.
    fn form_fits(&self) -> (r: bool)
        ensures
            r == fits(self@.form),
    {
        let visible = if self.form.visible_field_count >= 1 {
            self.form.visible_field_count
        } else {
            1
        };
        self.form.scroll_offset <= usize::MAX - visible
    }

    /// Whether `handle_event` may be given `e` now (see `event_ok`): the
    /// positions it would use are char boundaries and no counter would pass
    /// `usize::MAX`.
    pub fn event_allowed(&self, e: Event) -> (r: bool)
        ensures
            r == event_ok(self@, e),
    {
        if self.has_error() {
            return true;
        }
        match self.current_screen {
            Screen::Menu | Screen::Drafts => match e {
                Event::Key(k) => if k.code == Key::Down || k.code == Key::Char('j') {
                    self.selected_blueprint < usize::MAX && self.selected_draft < usize::MAX
                } else {
                    true
                },
                _ => true,
            },
            Screen::Form => match e {
                Event::Key(k) => self.form_key_allowed(k),
                Event::Mouse(m) => match m {
                    Mouse::LeftClick { column, row } => self.form.scroll_offset <= usize::MAX - 21845,
                    Mouse::ScrollDown { column, row } => self.navbar_scroll_offset < usize::MAX
                        && self.form.scroll_offset < usize::MAX,
                    _ => true,
                },
                Event::Other => true,
            },
            _ => true,
        }
    }

    /// Whether `handle_form_key` may be given `k` now (see `form_key_ok`).
    pub fn form_key_allowed(&self, k: KeyPress) -> (r: bool)
        ensures
            r == form_key_ok(self@, k),
    {
        if k.ctrl && (k.code == Key::Char('c') || k.code == Key::Char('q') || k.code == Key::Char('s')) {
            return true;
        }
        if self.show_exit_confirm {
            return true;
        }
        let fld = match self.current_field() {
            Some(f) => f,
            None => return true,
        };
        let list = fld.field_type == FieldType::ListBuilder || fld.field_type == FieldType::CrateSearch;
        if self.form.editing {
            match k.code {
                Key::Enter => fld.field_type != FieldType::Textarea || self.form.may_insert_char(),
                Key::Tab | Key::BackTab => self.form_fits(),
                Key::Backspace => if list {
                    self.form.may_list_backspace()
                } else {
                    self.form.may_backspace()
                },
                Key::Delete => self.form.may_delete(),
                Key::Char(_) => if list {
                    self.form.may_insert_list_char()
                } else {
                    self.form.may_insert_char()
                },
                _ => true,
            }
        } else {
            match k.code {
                Key::Up | Key::Char('k') | Key::Down | Key::Char('j') | Key::Tab | Key::BackTab => self.form_fits(),
                Key::Char('n') | Key::Right => self.form.total_sections >= 1 && self.navbar_scroll_offset
                    <= usize::MAX - 5,
                Key::Char('p') | Key::Left => self.navbar_scroll_offset <= usize::MAX - 5,
                Key::PageDown => self.form.scroll_offset <= usize::MAX - 3,
                _ => true,
            }
        }
    }

    /// Handles one event, by what is shown: an open error takes it first.
    pub fn handle_event(&mut self, e: Event) -> (r: Effect)
        requires
            event_ok(old(self)@, e),
        ensures
            (final(self)@, r@) == event_step(old(self)@, e),
    {
        if self.has_error() {
            match e {
                Event::Key(k) => {
                    if k.code == Key::Enter || k.code == Key::Esc || k.code == Key::Char(' ') || k.code
                        == Key::Char('q') {
                        self.dismiss_error();
                    }
                },
                Event::Mouse(_) => self.dismiss_error(),
                Event::Other => {},
            }
            return Effect::Nothing;
        }
        match self.current_screen {
            Screen::Menu | Screen::Drafts => self.handle_start_event(e),
            Screen::Form => match e {
                Event::Key(k) => self.handle_form_key(k),
                Event::Mouse(m) => {
                    self.handle_form_mouse(m);
                    Effect::Nothing
                },
                Event::Other => Effect::Nothing,
            },
            Screen::Review => {
                self.handle_review_event(e);
                Effect::Nothing
            },
            Screen::Success => self.handle_success_event(e),
        }
    }

    /// Records the outcome of a background search.
    pub fn finish_search(&mut self, result: Result<crate::registry::PackageInfo, String>)
        ensures
            final(self)@ == search_finished(old(self)@, outcome_view(result)),
    {
        self.is_loading = false;
        match result {
            Ok(info) => {
                let label = crate::registry::version_label(&info);
                if self.search_add_to_list {
                    let target = match &self.search_target_key {
                        Some(k) => k.clone(),
                        None => text::owned("tech.additional_crates"),
                    };
                    self.form.add_to_target_list(target.as_str(), label);
                    self.form.clear_list_input();
                    self.status_message = Some(text::concat("✓ Added: ", info.version.as_str()));
                } else {
                    self.form.set_current_value(FieldValue::Text(label));
                    self.status_message = Some(text::concat("✓ Found: ", info.version.as_str()));
                }
            },
            Err(e) => self.show_error("Search Failed", e.as_str()),
        }
        self.search_target_key = None;
        self.search_add_to_list = false;
    }

    /// Records that the search ended without an answer.
    pub fn search_lost(&mut self)
        ensures
            final(self)@ == (AppView { is_loading: false, ..old(self)@ }).show_error(
                "Search Error"@,
                "Search thread terminated unexpectedly"@,
            ),
    {
        self.is_loading = false;
        self.show_error("Search Error", "Search thread terminated unexpectedly");
    }

    /// The file name of the prompt of the open blueprint.
    pub fn prompt_file_name(&self) -> (r: Option<String>)
        ensures
            match r {
                Some(n) => self@.current_blueprint is Some && n@ == prompt_file_of(self@.current_blueprint->0.name),
                None => self@.current_blueprint is None,
            },
    {
        match &self.current_blueprint {
            Some(bp) => {
                let lower = text::to_lowercase(bp.name.as_str());
                let mut n = text::replace_spaces(lower.as_str());
                n.append("_prompt.md");
                Some(n)
            },
            None => None,
        }
    }

    /// Records that no prompt was made because the system clock could not be read.
    pub fn prompt_clock_failed(&mut self)
        ensures
            final(self)@ == (AppView { generate_prompt: false, copy_to_clipboard: false, ..old(self)@ }).show_error(
                "Clock Error"@,
                "Failed to read the system clock"@,
            ),
    {
        self.show_error("Clock Error", "Failed to read the system clock");
        self.generate_prompt = false;
        self.copy_to_clipboard = false;
    }

    /// Whether leaving the program now saves the open form as a draft: it
    /// is quitting with a blueprint open.
    pub fn saves_draft_on_quit(&self) -> (r: bool)
        ensures
            r == (self@.should_quit && self@.current_blueprint is Some),
    {
        self.should_quit && self.current_blueprint.is_some()
    }

    /// The title of the message shown after generating: an error when the
    /// last generation failed.
    pub fn success_title(&self) -> (r: &'static str)
        ensures
            r@ == if self@.last_error is Some {
                "✗ Error"@
            } else {
                "✓ Success"@
            },
    {
        if self.last_error.is_some() {
            "✗ Error"
        } else {
            "✓ Success"
        }
    }

    /// Records that the prompts directory could not be created.
    pub fn prompt_dir_failed(&mut self, detail: &str)
        ensures
            final(self)@ == (AppView { generate_prompt: false, copy_to_clipboard: false, ..old(self)@ }).show_error(
                "Directory Error"@,
                "Failed to create prompts directory: "@ + detail@,
            ),
    {
        let msg = text::concat("Failed to create prompts directory: ", detail);
        self.show_error("Directory Error", msg.as_str());
        self.generate_prompt = false;
        self.copy_to_clipboard = false;
    }

    /// Records that the prompt was written to `path`, and how copying it to
    /// the clipboard went (`None` when it was not asked for).
    pub fn prompt_written(&mut self, path: String, copied: Option<Result<(), String>>)
        ensures
            final(self)@ == (AppView {
                last_output_path: Some(path@),
                last_copy_result: match copied {
                    Some(Ok(())) => Some("✓ Copied to clipboard"@),
                    Some(Err(e)) => Some("✗ Clipboard error: "@ + e@),
                    None => None,
                },
                last_error: None,
                current_screen: Screen::Success,
                generate_prompt: false,
                copy_to_clipboard: false,
                ..old(self)@
            }),
    {
        self.last_output_path = Some(path);
        self.last_copy_result = match copied {
            Some(Ok(())) => Some(text::owned("✓ Copied to clipboard")),
            Some(Err(e)) => Some(text::concat("✗ Clipboard error: ", e.as_str())),
            None => None,
        };
        self.last_error = None;
        self.current_screen = Screen::Success;
        self.generate_prompt = false;
        self.copy_to_clipboard = false;
    }

    /// Records that the prompt file could not be written.
    pub fn prompt_write_failed(&mut self)
        ensures
            final(self)@ == (AppView {
                last_output_path: None,
                last_copy_result: None,
                current_screen: Screen::Success,
                generate_prompt: false,
                copy_to_clipboard: false,
                ..old(self)@
            }).show_error("Save Failed"@, "Failed to save prompt to file"@),
    {
        self.show_error("Save Failed", "Failed to save prompt to file");
        self.last_output_path = None;
        self.last_copy_result = None;
        self.current_screen = Screen::Success;
        self.generate_prompt = false;
        self.copy_to_clipboard = false;
    }
}

} // verus!
