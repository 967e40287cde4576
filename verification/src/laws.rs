//! Properties that span several operations of the form, the app state, the
//! listings and the widgets.
use vstd::prelude::*;
use crate::app::{first_named, AppView};
use crate::blueprint::{BlueprintView, FieldVal};
use crate::draft::DraftView;
use crate::form::FormView;
use crate::prompt::{crates_text, field_text, fields_text, prompt_text, section_text, sections_text};
use crate::blueprint::{Blueprint, Field, Section};
use crate::widgets::multiselect::{cursor_above, cursor_below, toggled};
use crate::listing::{
    by_name, in_order, lemma_by_name_weak_order, lemma_most_recent_first_weak_order,
    lemma_stable_sort_in_order, lemma_stable_sort_permutes, most_recent_first, stable_sort,
};

verus! {

/// `(i + 1) % n` for `i < n`: the next index, wrapping to 0.
proof fn lemma_wrap_next(i: int, n: int)
    requires
        0 <= i < n,
    ensures
        (i + 1) % n == if i + 1 < n { i + 1 } else { 0 },
{
    if i + 1 < n {
        vstd::arithmetic::div_mod::lemma_small_mod((i + 1) as nat, n as nat);
    } else {
        vstd::arithmetic::div_mod::lemma_mod_self_0(n);
    }
}

/// Moving to the next field and back selects the same field again, in the
/// same section, with the same values.
pub proof fn law_next_then_prev_field(f: FormView)
    requires
        f.selected_field < f.field_count() <= usize::MAX,
    ensures
        f.next_field().prev_field().selected_field == f.selected_field,
        f.next_field().prev_field().current_section == f.current_section,
        f.next_field().prev_field().values == f.values,
{
    lemma_wrap_next(f.selected_field as int, f.field_count());
}

/// Moving to the previous field and back selects the same field again.
pub proof fn law_prev_then_next_field(f: FormView)
    requires
        f.selected_field < f.field_count() <= usize::MAX,
    ensures
        f.prev_field().next_field().selected_field == f.selected_field,
        f.prev_field().next_field().current_section == f.current_section,
        f.prev_field().next_field().values == f.values,
{
    let count = f.field_count();
    let p = if f.selected_field == 0 { count - 1 } else { f.selected_field - 1 };
    lemma_wrap_next(p, count);
}

/// Moving to the next section and back returns to the same section.
pub proof fn law_next_then_prev_section(f: FormView)
    requires
        f.current_section < f.total_sections,
    ensures
        f.next_section().prev_section().current_section == f.current_section,
        f.next_section().prev_section().values == f.values,
{
}

/// Moving to the previous section and back returns to the same section.
pub proof fn law_prev_then_next_section(f: FormView)
    requires
        f.current_section < f.total_sections,
    ensures
        f.prev_section().next_section().current_section == f.current_section,
        f.prev_section().next_section().values == f.values,
{
}

/// Toggling a checkbox that holds a boolean twice gives back the same form.
pub proof fn law_toggle_checkbox_twice(f: FormView)
    requires
        f.current_key() is Some,
        f.values.contains_key(f.current_key()->0),
        f.values[f.current_key()->0] is Bool,
    ensures
        f.toggle_checkbox().toggle_checkbox() == f,
{
    let k = f.current_key()->0;
    let g = f.toggle_checkbox();
    assert(g.current_key() == f.current_key());
    assert(g.toggle_checkbox().values =~= f.values);
}

/// After the selection is made visible, the selected field lies in the
/// section and inside the window of visible fields.
pub proof fn law_selected_field_visible(f: FormView)
    requires
        f.field_count() > 0,
    ensures
        f.ensure_visible().selected_field < f.field_count(),
        f.ensure_visible().scroll_offset <= f.ensure_visible().selected_field,
        f.ensure_visible().selected_field < f.ensure_visible().scroll_offset + (if f.visible_field_count >= 1 {
            f.visible_field_count as int
        } else {
            1
        }),
{
}

/// Adding an item to a list field keeps the list free of repeats, and the
/// item is in the list afterwards (when it is not empty).
pub proof fn law_add_list_item_no_repeats(f: FormView, item: Seq<char>)
    requires
        f.current_key() is Some,
        f.value_at(f.current_key()->0).items().no_duplicates(),
    ensures
        f.add_list_item(item).value_at(f.current_key()->0).items().no_duplicates(),
        item.len() > 0 ==> f.add_list_item(item).value_at(f.current_key()->0).items().contains(item),
{
    let k = f.current_key()->0;
    let items = f.value_at(k).items();
    if item.len() > 0 && !items.contains(item) {
        let n = items.push(item);
        assert(n[items.len() as int] == item);
        assert forall|i: int, j: int| 0 <= i < n.len() && 0 <= j < n.len() && i != j implies n[i] != n[j] by {
            if i < items.len() && j < items.len() {
            } else if i < items.len() {
                assert(items.contains(n[i]));
            } else {
                assert(items.contains(n[j]));
            }
        }
    }
}

/// Adding the same item twice changes nothing the second time.
pub proof fn law_add_list_item_idempotent(f: FormView, item: Seq<char>)
    requires
        f.current_key() is Some,
    ensures
        f.add_list_item(item).add_list_item(item) == f.add_list_item(item),
{
    let k = f.current_key()->0;
    let g = f.add_list_item(item);
    assert(g.current_key() == f.current_key());
    if item.len() > 0 && !f.value_at(k).items().contains(item) {
        let n = f.value_at(k).items().push(item);
        assert(g.value_at(k).items() == n);
        assert(n[n.len() - 1] == item);
        assert(n.contains(item));
    }
}

/// Cycling a select field stores one of its options.
pub proof fn law_cycle_select_stores_option(f: FormView, opts: Seq<Seq<char>>)
    requires
        opts.len() > 0,
        f.current_key() is Some,
    ensures
        exists|i: int| 0 <= i < opts.len() && f.cycle_select(opts).current_value() == FieldVal::Text(
            #[trigger] opts[i],
        ),
{
    let k = f.current_key()->0;
    let g = f.cycle_select(opts);
    let idx = match crate::form::first_pos(opts, f.value_at(k).text()) {
        Some(i) => (i + 1) % (opts.len() as int),
        None => 0,
    };
    assert(g.current_key() == f.current_key());
    assert(g.current_value() == FieldVal::Text(opts[idx]));
}

/// Typing a char into a text field and pressing backspace gives back the
/// text and the cursor position from before (the cursor standing on a char
/// boundary of the text, as typing needs).
pub proof fn law_backspace_undoes_typing(f: FormView, c: char)
    requires
        f.current_key() is Some,
        f.values.contains_key(f.current_key()->0),
        f.values[f.current_key()->0] is Text,
        f.cursor_pos <= crate::text::byte_len(f.values[f.current_key()->0].text()),
        crate::text::boundary(f.values[f.current_key()->0].text(), f.cursor_pos as int),
        f.cursor_pos + crate::form::width(c) <= usize::MAX,
    ensures
        f.insert_char(c).can_backspace(),
        f.insert_char(c).backspace().values == f.values,
        f.insert_char(c).backspace().cursor_pos == f.cursor_pos,
{
    let k = f.current_key()->0;
    let t = f.values[k].text();
    crate::text::lemma_insert_then_remove(t, f.cursor_pos as int, c);
    crate::text::lemma_insert_then_delete(t, f.cursor_pos as int, c);
    let g = f.insert_char(c);
    assert(g.current_key() == f.current_key());
    assert(g.current_text() == Some(crate::text::insert_at_byte(t, f.cursor_pos as int, c)));
    assert(FieldVal::Text(t) == f.values[k]);
    assert(g.backspace().values =~= f.values);
}

/// A package found for a search-and-add field is in the target list
/// afterwards as `name vversion`, and the search is no longer running. It
/// fails only where the target list is the pending input of the selected
/// field, which clearing that input empties.
pub proof fn law_search_adds_package(a: AppView, name: Seq<char>, version: Seq<char>)
    requires
        a.search_add_to_list,
        a.form.current_key() matches Some(k) ==> crate::form::input_key(k) != (match a.search_target_key {
            Some(t) => t,
            None => "tech.additional_crates"@,
        }),
    ensures
        ({
            let r = crate::events::search_finished(a, Ok((name, version)));
            let target = match a.search_target_key {
                Some(t) => t,
                None => "tech.additional_crates"@,
            };
            &&& r.form.value_at(target).items().contains(name + " v"@ + version)
            &&& !r.is_loading
            &&& r.search_target_key is None
        }),
{
    let target = match a.search_target_key {
        Some(t) => t,
        None => "tech.additional_crates"@,
    };
    let label = name + " v"@ + version;
    assert(label.len() > 0) by {
        reveal_strlit(" v");
        assert(label.len() == name.len() + 2 + version.len());
    }
    let f = a.form;
    let items = f.value_at(target).items();
    let g = f.add_to_list(target, label);
    if !items.contains(label) {
        assert(g.value_at(target).items() == items.push(label));
        assert(items.push(label)[items.len() as int] == label);
    }
    assert(g.current_key() == f.current_key());
    assert(g.clear_list_input().value_at(target) == g.value_at(target));
}

/// A search that failed shows its message in an error, and the search is no
/// longer running.
pub proof fn law_search_failure_shown(a: AppView, message: Seq<char>)
    ensures
        crate::events::search_finished(a, Err(message)).has_error(),
        crate::events::search_finished(a, Err(message)).error_message == Some(message),
        !crate::events::search_finished(a, Err(message)).is_loading,
        crate::events::search_finished(a, Err(message)).form == a.form,
{
}

/// An error that was shown is shown until it is dismissed, and then gone.
pub proof fn law_error_shown_until_dismissed(a: AppView, title: Seq<char>, message: Seq<char>)
    ensures
        a.show_error(title, message).has_error(),
        !a.show_error(title, message).dismiss_error().has_error(),
        a.show_error(title, message).dismiss_error().form == a.form,
        a.show_error(title, message).dismiss_error().current_screen == a.current_screen,
{
}

/// Typing a char, moving the cursor back over it and pressing Delete gives
/// back the text from before, with the cursor where it was.
pub proof fn law_delete_undoes_typing(f: FormView, c: char)
    requires
        f.current_key() is Some,
        f.values.contains_key(f.current_key()->0),
        f.values[f.current_key()->0] is Text,
        f.cursor_pos <= crate::text::byte_len(f.values[f.current_key()->0].text()),
        crate::text::boundary(f.values[f.current_key()->0].text(), f.cursor_pos as int),
        f.cursor_pos + crate::form::width(c) <= usize::MAX,
    ensures
        f.insert_char(c).can_backspace(),
        f.insert_char(c).cursor_left().can_delete(),
        f.insert_char(c).cursor_left().delete().values == f.values,
        f.insert_char(c).cursor_left().delete().cursor_pos == f.cursor_pos,
{
    let k = f.current_key()->0;
    let t = f.values[k].text();
    crate::text::lemma_insert_then_delete(t, f.cursor_pos as int, c);
    let g = f.insert_char(c);
    assert(g.current_key() == f.current_key());
    let s2 = crate::text::insert_at_byte(t, f.cursor_pos as int, c);
    assert(g.current_text() == Some(s2));
    let h = g.cursor_left();
    assert(h.cursor_pos == f.cursor_pos);
    assert(h.current_text() == Some(s2));
    assert(FieldVal::Text(t) == f.values[k]);
    assert(h.delete().values =~= f.values);
}

/// Typing a char into the pending input of a list field and pressing
/// backspace gives back the input and the cursor position from before.
pub proof fn law_list_input_backspace_undoes_typing(f: FormView, c: char)
    requires
        f.current_key() is Some,
        f.cursor_pos <= crate::text::byte_len(f.list_input()),
        crate::text::boundary(f.list_input(), f.cursor_pos as int),
        f.cursor_pos + crate::form::width(c) <= usize::MAX,
    ensures
        f.insert_list_input_char(c).can_list_backspace(),
        f.insert_list_input_char(c).list_input_backspace().list_input() == f.list_input(),
        f.insert_list_input_char(c).list_input_backspace().cursor_pos == f.cursor_pos,
{
    crate::text::lemma_insert_then_remove(f.list_input(), f.cursor_pos as int, c);
    crate::text::lemma_insert_then_delete(f.list_input(), f.cursor_pos as int, c);
    let g = f.insert_list_input_char(c);
    assert(g.current_key() == f.current_key());
    assert(g.list_input() == crate::text::insert_at_byte(f.list_input(), f.cursor_pos as int, c));
}

/// Esc or `q` on the form, with no question open and no field being edited,
/// goes back to the menu and keeps everything filled in, asking for no
/// outside work.
pub proof fn law_escape_returns_to_menu(a: AppView, code: crate::events::Key)
    requires
        !a.has_error(),
        a.current_screen == crate::app::Screen::Form,
        !a.show_exit_confirm,
        !a.form.editing,
        crate::events::current_field(a) is Some,
        code == crate::events::Key::Esc || code == crate::events::Key::Char('q'),
    ensures
        ({
            let (b, e) = crate::events::event_step(a, crate::events::Event::Key(crate::events::KeyPress { code, ctrl: false }));
            &&& b.current_screen == crate::app::Screen::Menu
            &&& b.form == a.form
            &&& b.current_blueprint == a.current_blueprint
            &&& e == crate::events::EffectView::Nothing
        }),
{
}

/// Two forms that agree on every value but the one under `k`, which is
/// empty in both, write the same lines for `fields`.
proof fn lemma_fields_text_agree(fields: Seq<Field>, f: FormView, g: FormView, k: Seq<char>)
    requires
        forall|key: Seq<char>| key != k ==> #[trigger] f.value_at(key) == g.value_at(key),
        f.value_at(k).empty(),
        g.value_at(k).empty(),
    ensures
        fields_text(fields, f) == fields_text(fields, g),
    decreases fields.len(),
{
    if fields.len() > 0 {
        lemma_fields_text_agree(fields.drop_last(), f, g, k);
        let fl = fields.last();
        if fl.key@ != k {
            assert(f.value_at(fl.key@) == g.value_at(fl.key@));
        }
        assert(field_text(fl, f) == field_text(fl, g));
    }
}

proof fn lemma_sections_text_agree(sections: Seq<Section>, f: FormView, g: FormView, k: Seq<char>)
    requires
        forall|key: Seq<char>| key != k ==> #[trigger] f.value_at(key) == g.value_at(key),
        f.value_at(k).empty(),
        g.value_at(k).empty(),
    ensures
        sections_text(sections, f) == sections_text(sections, g),
    decreases sections.len(),
{
    if sections.len() > 0 {
        lemma_sections_text_agree(sections.drop_last(), f, g, k);
        lemma_fields_text_agree(sections.last().fields@, f, g, k);
        assert(section_text(sections.last(), f) == section_text(sections.last(), g));
    }
}

/// A value that counts as not filled in (nothing, blank text, false, zero or
/// an empty list) adds nothing to the prompt: taking it out of the form
/// leaves the prompt as it was.
pub proof fn law_empty_value_adds_nothing(bp: Blueprint, f: FormView, k: Seq<char>, generated_at: Seq<char>)
    requires
        f.value_at(k).empty(),
    ensures
        prompt_text(bp, FormView { values: f.values.remove(k), ..f }, generated_at) == prompt_text(bp, f, generated_at),
{
    let g = FormView { values: f.values.remove(k), ..f };
    assert forall|key: Seq<char>| key != k implies #[trigger] f.value_at(key) == g.value_at(key) by {}
    assert(g.value_at(k) == FieldVal::Empty);
    lemma_sections_text_agree(bp.sections@, f, g, k);
    let ck = crate::prompt::additional_crates_key();
    if ck != k {
        assert(f.value_at(ck) == g.value_at(ck));
    }
    assert(crates_text(f) == crates_text(g));
}

/// While an error is shown, an event either dismisses it or changes
/// nothing, and asks for no outside work.
pub proof fn law_error_takes_every_event(a: AppView, e: crate::events::Event)
    requires
        a.has_error(),
    ensures
        crate::events::event_step(a, e).0 == a || crate::events::event_step(a, e).0 == a.dismiss_error(),
        crate::events::event_step(a, e).1 == crate::events::EffectView::Nothing,
{
}

/// After the navbar is scrolled for `visible` tabs, the current section's
/// tab is among the shown ones.
pub proof fn law_current_tab_visible(a: AppView, visible: int)
    requires
        0 < visible,
        a.form.current_section + visible <= usize::MAX,
    ensures
        a.ensure_navbar_visible(visible).navbar_scroll_offset <= a.form.current_section,
        a.form.current_section < a.ensure_navbar_visible(visible).navbar_scroll_offset + visible,
{
}

/// Moving down the blueprint menu and back up selects the same blueprint.
pub proof fn law_menu_next_then_prev(a: AppView)
    requires
        a.selected_blueprint < a.blueprints.len() <= usize::MAX,
    ensures
        a.menu_next().menu_prev() == a,
{
    lemma_wrap_next(a.selected_blueprint as int, a.blueprints.len() as int);
}

/// Moving down the draft list and back up selects the same draft.
pub proof fn law_drafts_next_then_prev(a: AppView)
    requires
        a.selected_draft < a.drafts.len() <= usize::MAX,
    ensures
        a.drafts_next().drafts_prev() == a,
{
    lemma_wrap_next(a.selected_draft as int, a.drafts.len() as int);
}

/// Ticking the same option of a multiselect twice leaves the ticks as they were.
pub proof fn law_multiselect_toggle_twice(ticks: Seq<bool>, cursor: int)
    ensures
        toggled(toggled(ticks, cursor), cursor) == ticks,
{
    assert(toggled(toggled(ticks, cursor), cursor) =~= ticks);
}

/// Moving a multiselect cursor down and back up returns it to its option.
pub proof fn law_multiselect_down_then_up(cursor: int, n: int)
    requires
        0 <= cursor < n,
    ensures
        cursor_above(cursor_below(cursor, n), n) == cursor,
        cursor_below(cursor_above(cursor, n), n) == cursor,
{
    lemma_wrap_next(cursor, n);
    lemma_wrap_next(cursor_above(cursor, n), n);
}

/// Blueprints are listed in name order, and every blueprint that was read
/// is listed, as often as it was read.
pub proof fn law_blueprints_listed_by_name(s: Seq<BlueprintView>)
    ensures
        in_order(stable_sort(s, by_name()), by_name()),
        stable_sort(s, by_name()).to_multiset() == s.to_multiset(),
{
    lemma_by_name_weak_order();
    lemma_stable_sort_in_order(s, by_name());
    lemma_stable_sort_permutes(s, by_name());
}

/// Drafts are listed most recently changed first, and every draft that was
/// read is listed, as often as it was read.
pub proof fn law_drafts_listed_most_recent_first(s: Seq<(Seq<char>, DraftView)>)
    ensures
        in_order(stable_sort(s, most_recent_first()), most_recent_first()),
        stable_sort(s, most_recent_first()).to_multiset() == s.to_multiset(),
{
    lemma_most_recent_first_weak_order();
    lemma_stable_sort_in_order(s, most_recent_first());
    lemma_stable_sort_permutes(s, most_recent_first());
}

/// Resuming a draft that holds what the form held when it was saved (its
/// values, section and selected field, under the name of the open
/// blueprint) brings that blueprint and those values back, under the
/// draft's file name. It fails only where an earlier blueprint in the menu
/// has the same name: loading takes the first of that name.
pub proof fn law_draft_resumes_form(a: AppView, saved: FormView, bp: BlueprintView, file: Seq<char>, d: DraftView)
    requires
        a.selected_draft < a.drafts.len(),
        a.drafts[a.selected_draft as int] == (file, d),
        d.blueprint_name == bp.name,
        d.values == saved.values,
        d.current_section == saved.current_section,
        d.selected_field == saved.selected_field,
        first_named(a.blueprints, bp.name) matches Some(i) && a.blueprints[i] == bp,
    ensures
        a.load_selected_draft().current_blueprint == Some(bp),
        a.load_selected_draft().form.values == saved.values,
        a.load_selected_draft().form.current_section == saved.current_section,
        a.load_selected_draft().form.selected_field == saved.selected_field,
        a.load_selected_draft().current_draft_name == Some(file),
        a.load_selected_draft().current_screen == crate::app::Screen::Form,
{
}

} // verus!

verus! {

/// `part` occurs in `whole` as a contiguous piece.
pub open spec fn infix(part: Seq<char>, whole: Seq<char>) -> bool {
    exists|i: int| 0 <= i && i + part.len() <= whole.len() && #[trigger] whole.subrange(i, i + part.len()) == part
}

proof fn lemma_infix_self(p: Seq<char>)
    ensures
        infix(p, p),
{
    let z: int = 0;
    assert(p.subrange(z, z + p.len()) =~= p);
}

proof fn lemma_infix_left(p: Seq<char>, a: Seq<char>, b: Seq<char>)
    requires
        infix(p, a),
    ensures
        infix(p, a + b),
{
    let i = choose|i: int| 0 <= i && i + p.len() <= a.len() && #[trigger] a.subrange(i, i + p.len()) == p;
    assert((a + b).subrange(i, i + p.len()) =~= a.subrange(i, i + p.len()));
}

proof fn lemma_infix_right(p: Seq<char>, a: Seq<char>, b: Seq<char>)
    requires
        infix(p, b),
    ensures
        infix(p, a + b),
{
    let i = choose|i: int| 0 <= i && i + p.len() <= b.len() && #[trigger] b.subrange(i, i + p.len()) == p;
    assert((a + b).subrange(a.len() + i, a.len() + i + p.len()) =~= b.subrange(i, i + p.len()));
}

proof fn lemma_field_in_fields_text(fields: Seq<Field>, form: FormView, i: int, p: Seq<char>)
    requires
        0 <= i < fields.len(),
        infix(p, field_text(fields[i], form)),
    ensures
        infix(p, fields_text(fields, form)),
    decreases fields.len(),
{
    if i == fields.len() - 1 {
        lemma_infix_right(p, fields_text(fields.drop_last(), form), field_text(fields.last(), form));
    } else {
        assert(fields.drop_last()[i] == fields[i]);
        lemma_field_in_fields_text(fields.drop_last(), form, i, p);
        lemma_infix_left(p, fields_text(fields.drop_last(), form), field_text(fields.last(), form));
    }
}

proof fn lemma_section_in_sections_text(sections: Seq<Section>, form: FormView, j: int, p: Seq<char>)
    requires
        0 <= j < sections.len(),
        infix(p, section_text(sections[j], form)),
    ensures
        infix(p, sections_text(sections, form)),
    decreases sections.len(),
{
    if j == sections.len() - 1 {
        lemma_infix_right(p, sections_text(sections.drop_last(), form), section_text(sections.last(), form));
    } else {
        assert(sections.drop_last()[j] == sections[j]);
        lemma_section_in_sections_text(sections.drop_last(), form, j, p);
        lemma_infix_left(p, sections_text(sections.drop_last(), form), section_text(sections.last(), form));
    }
}

/// Whatever a field of the blueprint contributes appears in the prompt.
proof fn lemma_field_in_prompt(bp: Blueprint, form: FormView, t: Seq<char>, j: int, i: int, p: Seq<char>)
    requires
        0 <= j < bp.sections@.len(),
        0 <= i < bp.sections@[j].fields@.len(),
        infix(p, field_text(bp.sections@[j].fields@[i], form)),
    ensures
        infix(p, prompt_text(bp, form, t)),
{
    let s = bp.sections@[j];
    lemma_field_in_fields_text(s.fields@, form, i, p);
    let desc = if s.description@.len() != 0 {
        s.description@ + "\n\n"@
    } else {
        Seq::empty()
    };
    let pre = "## "@ + s.icon@ + " "@ + s.title@ + "\n\n"@ + desc;
    assert(section_text(s, form) == pre + fields_text(s.fields@, form) + "\n"@);
    lemma_infix_right(p, pre, fields_text(s.fields@, form));
    lemma_infix_left(p, pre + fields_text(s.fields@, form), "\n"@);
    lemma_section_in_sections_text(bp.sections@, form, j, p);
    let head = crate::prompt::prompt_head(bp, t) + crates_text(form);
    lemma_infix_right(p, head, sections_text(bp.sections@, form));
    lemma_infix_left(p, head + sections_text(bp.sections@, form), crate::prompt::prompt_tail());
    assert(prompt_text(bp, form, t) == head + sections_text(bp.sections@, form) + crate::prompt::prompt_tail());
}

/// A multiselect field with ticked values puts one line in the prompt that
/// names its label and then every ticked value, in order, separated by
/// `", "`.
pub proof fn law_prompt_lists_every_ticked_value(
    bp: Blueprint,
    form: FormView,
    t: Seq<char>,
    j: int,
    i: int,
    ticked: Seq<Seq<char>>,
)
    requires
        0 <= j < bp.sections@.len(),
        0 <= i < bp.sections@[j].fields@.len(),
        bp.sections@[j].fields@[i].field_type == crate::blueprint::FieldType::Multiselect,
        form.value_at(bp.sections@[j].fields@[i].key@) == FieldVal::Array(ticked),
        ticked.len() > 0,
    ensures
        infix(
            "- **"@ + bp.sections@[j].fields@[i].label@ + ":** "@ + crate::text::join(ticked, ", "@) + "\n"@,
            prompt_text(bp, form, t),
        ),
{
    let fl = bp.sections@[j].fields@[i];
    let line = "- **"@ + fl.label@ + ":** "@ + crate::text::join(ticked, ", "@) + "\n"@;
    assert(field_text(fl, form) == line);
    lemma_infix_self(line);
    lemma_field_in_prompt(bp, form, t, j, i, line);
}

/// Joining puts every item in, in order: the join of `items` is the join of
/// all but the last, the separator, then the last.
pub proof fn law_join_keeps_every_item(items: Seq<Seq<char>>, sep: Seq<char>, k: int)
    requires
        0 <= k < items.len(),
    ensures
        infix(items[k], crate::text::join(items, sep)),
    decreases items.len(),
{
    if items.len() == 1 {
        lemma_infix_self(items[0]);
    } else if k == items.len() - 1 {
        lemma_infix_self(items[k]);
        lemma_infix_right(items[k], crate::text::join(items.drop_last(), sep) + sep, items.last());
    } else {
        assert(items.drop_last()[k] == items[k]);
        law_join_keeps_every_item(items.drop_last(), sep, k);
        lemma_infix_left(items[k], crate::text::join(items.drop_last(), sep), sep);
        lemma_infix_left(items[k], crate::text::join(items.drop_last(), sep) + sep, items.last());
    }
}

/// Joining one item gives the item itself, and joining a list with one more
/// item at the end gives the join of the list, the separator, then that item.
pub proof fn law_join_appends_with_separator(items: Seq<Seq<char>>, x: Seq<char>, sep: Seq<char>)
    ensures
        crate::text::join(seq![x], sep) == x,
        items.len() > 0 ==> crate::text::join(items.push(x), sep) == crate::text::join(items, sep) + sep + x,
{
    assert(seq![x][0] == x);
    assert(items.push(x).drop_last() =~= items);
    assert(items.push(x).last() == x);
}

proof fn lemma_contains_left<A>(a: Seq<A>, b: Seq<A>, x: A)
    requires
        a.contains(x),
    ensures
        (a + b).contains(x),
{
    let i = choose|i: int| 0 <= i < a.len() && a[i] == x;
    assert((a + b)[i] == x);
}

proof fn lemma_contains_right<A>(a: Seq<A>, b: Seq<A>, x: A)
    requires
        b.contains(x),
    ensures
        (a + b).contains(x),
{
    let i = choose|i: int| 0 <= i < b.len() && b[i] == x;
    assert((a + b)[a.len() + i] == x);
}

proof fn lemma_line_in_fields_lines(
    fields: Seq<crate::blueprint::FieldView>,
    form: FormView,
    i: int,
    l: Seq<(Seq<char>, crate::preview::Tone)>,
)
    requires
        0 <= i < fields.len(),
        crate::preview::field_lines(fields[i], form).contains(l),
    ensures
        crate::preview::fields_lines(fields, form).contains(l),
    decreases fields.len(),
{
    if i == fields.len() - 1 {
        lemma_contains_right(crate::preview::fields_lines(fields.drop_last(), form), crate::preview::field_lines(fields.last(), form), l);
    } else {
        assert(fields.drop_last()[i] == fields[i]);
        lemma_line_in_fields_lines(fields.drop_last(), form, i, l);
        lemma_contains_left(crate::preview::fields_lines(fields.drop_last(), form), crate::preview::field_lines(fields.last(), form), l);
    }
}

proof fn lemma_line_in_sections_lines(
    sections: Seq<crate::blueprint::SectionView>,
    form: FormView,
    j: int,
    l: Seq<(Seq<char>, crate::preview::Tone)>,
)
    requires
        0 <= j < sections.len(),
        crate::preview::section_lines(sections[j], form).contains(l),
    ensures
        crate::preview::sections_lines(sections, form).contains(l),
    decreases sections.len(),
{
    if j == sections.len() - 1 {
        lemma_contains_right(crate::preview::sections_lines(sections.drop_last(), form), crate::preview::section_lines(sections.last(), form), l);
    } else {
        assert(sections.drop_last()[j] == sections[j]);
        lemma_line_in_sections_lines(sections.drop_last(), form, j, l);
        lemma_contains_left(crate::preview::sections_lines(sections.drop_last(), form), crate::preview::section_lines(sections.last(), form), l);
    }
}

/// A shown select field whose value is text that is not blank has a
/// preview line: the bullet, its label with `": "`, then the chosen value.
pub proof fn law_preview_shows_select_choice(bp: BlueprintView, form: FormView, j: int, i: int, chosen: Seq<char>)
    requires
        0 <= j < bp.sections.len(),
        0 <= i < bp.sections[j].fields.len(),
        bp.sections[j].fields[i].field_type == crate::blueprint::FieldType::Select,
        !bp.sections[j].fields[i].hidden,
        form.value_at(bp.sections[j].fields[i].key) == FieldVal::Text(chosen),
        !crate::text::blank(chosen),
    ensures
        crate::preview::preview_of(bp, form).contains(
            seq![
                ("  • "@, crate::preview::Tone::Accent),
                (bp.sections[j].fields[i].label + ": "@, crate::preview::Tone::Dim),
                (chosen, crate::preview::Tone::Text),
            ],
        ),
{
    let fl = bp.sections[j].fields[i];
    let s = bp.sections[j];
    let l = seq![
        ("  • "@, crate::preview::Tone::Accent),
        (fl.label + ": "@, crate::preview::Tone::Dim),
        (chosen, crate::preview::Tone::Text),
    ];
    assert(crate::preview::field_lines(fl, form) =~= seq![l]);
    assert(seq![l][0] == l);
    lemma_line_in_fields_lines(s.fields, form, i, l);
    let head = seq![
        crate::preview::one(s.icon + " "@ + s.title, crate::preview::Tone::Warning),
        crate::preview::one(crate::preview::rule(), crate::preview::Tone::Border),
    ];
    lemma_contains_right(head, crate::preview::fields_lines(s.fields, form), l);
    lemma_contains_left(head + crate::preview::fields_lines(s.fields, form), seq![Seq::empty()], l);
    lemma_line_in_sections_lines(bp.sections, form, j, l);
    lemma_contains_right(
        seq![crate::preview::one(bp.icon + " "@ + bp.name, crate::preview::Tone::Accent), Seq::empty()],
        crate::preview::sections_lines(bp.sections, form),
        l,
    );
}

} // verus!

verus! {

proof fn lemma_filter_keeps_all(s: Seq<Seq<char>>, pred: spec_fn(Seq<char>) -> bool)
    requires
        forall|i: int| 0 <= i < s.len() ==> pred(#[trigger] s[i]),
    ensures
        s.filter(pred) == s,
    decreases s.len(),
{
    if s.len() == 0 {
        assert(s.filter(pred) =~= s) by {
            reveal(Seq::filter);
        }
    } else {
        let p = s.drop_last();
        assert forall|i: int| 0 <= i < p.len() implies pred(#[trigger] p[i]) by {
            assert(p[i] == s[i]);
        }
        lemma_filter_keeps_all(p, pred);
        assert(pred(s[s.len() - 1]));
        p.lemma_filter_push(s.last(), pred);
        assert(p.push(s.last()) =~= s);
    }
}

/// What ticking `v` in a list does: a present `v` is taken out and every
/// other value stays; an absent `v` is put at the end, and ticking it again
/// gives the list back.
proof fn lemma_toggle_in(items: Seq<Seq<char>>, v: Seq<char>)
    ensures
        items.contains(v) ==> !crate::events::toggle_in(items, v).contains(v),
        items.contains(v) ==> forall|x: Seq<char>|
            x != v ==> (#[trigger] crate::events::toggle_in(items, v).contains(x) <==> items.contains(x)),
        !items.contains(v) ==> crate::events::toggle_in(items, v) == items.push(v),
        !items.contains(v) ==> crate::events::toggle_in(items.push(v), v) == items,
{
    broadcast use {vstd::seq_lib::group_filter_ensures, vstd::seq::Seq::lemma_filter_contains_rev, vstd::seq::Seq::lemma_filter_push};

    if items.contains(v) {
        let r = crate::events::toggle_in(items, v);
        if r.contains(v) {
            let i = choose|i: int| 0 <= i < r.len() && r[i] == v;
            assert(r[i] != v);
        }
        assert forall|x: Seq<char>| x != v implies (#[trigger] r.contains(x) <==> items.contains(x)) by {
            if items.contains(x) {
                let i = choose|i: int| 0 <= i < items.len() && items[i] == x;
                assert(r.contains(items[i]));
            }
        }
    } else {
        let p = items.push(v);
        assert(p.contains(v)) by {
            assert(p[items.len() as int] == v);
        }
        assert forall|pred: spec_fn(Seq<char>) -> bool|
            (forall|i: int| 0 <= i < items.len() ==> pred(#[trigger] items[i])) implies #[trigger] items.filter(pred) == items by {
            lemma_filter_keeps_all(items, pred);
        }
        assert forall|i: int| 0 <= i < items.len() implies #[trigger] items[i] != v by {
            if items[i] == v {
                assert(items.contains(v));
            }
        }
        assert(crate::events::toggle_in(p, v) == items);
    }
}

/// Space on a multiselect option in the form ticks it when it is not ticked
/// (it is added after the others) and unticks it when it is (it is gone and
/// every other value stays as it was); ticking an unticked option twice gives
/// the field back the values it had.
pub proof fn law_space_ticks_and_unticks(a: AppView, fld: crate::blueprint::FieldView)
    requires
        !a.show_exit_confirm,
        !a.form.editing,
        crate::events::current_field(a) == Some(fld),
        fld.field_type == crate::blueprint::FieldType::Multiselect,
        a.form.list_selected < fld.options.len(),
        a.form.current_key() is Some,
    ensures
        ({
            let opt = fld.options[a.form.list_selected as int].value;
            let items = a.form.current_value().items();
            let space = crate::events::KeyPress { code: crate::events::Key::Char(' '), ctrl: false };
            let b = crate::events::form_key_step(a, space).0;
            let r = b.form.current_value().items();
            let c = crate::events::form_key_step(b, space).0;
            &&& items.contains(opt) ==> !r.contains(opt)
            &&& items.contains(opt) ==> forall|x: Seq<char>| x != opt ==> (#[trigger] r.contains(x) <==> items.contains(x))
            &&& !items.contains(opt) ==> r == items.push(opt)
            &&& !items.contains(opt) ==> c.form.current_value().items() == items
            &&& (a.form.current_value() is Array && !items.contains(opt)) ==> c.form.values == a.form.values
        }),
{
    let opt = fld.options[a.form.list_selected as int].value;
    let items = a.form.current_value().items();
    let space = crate::events::KeyPress { code: crate::events::Key::Char(' '), ctrl: false };
    let b = crate::events::form_key_step(a, space).0;
    let r = b.form.current_value().items();
    let k = a.form.current_key()->0;
    lemma_toggle_in(items, opt);
    assert(b == crate::events::toggle_option(a, fld));
    assert(b.form.current_key() == a.form.current_key());
    assert(r == crate::events::toggle_in(items, opt));
    if !items.contains(opt) {
        assert(crate::events::current_field(b) == Some(fld));
        let c = crate::events::form_key_step(b, space).0;
        assert(c == crate::events::toggle_option(b, fld));
        assert(c.form.current_key() == a.form.current_key());
        assert(c.form.current_value().items() == crate::events::toggle_in(r, opt));
        if a.form.current_value() is Array {
            assert(a.form.values.contains_key(k));
            assert(c.form.values =~= a.form.values);
        }
    }
}

/// Unticking a value that a list holds once leaves the values before it and
/// after it, in their order.
proof fn lemma_untick_keeps_order(pre: Seq<Seq<char>>, v: Seq<char>, post: Seq<Seq<char>>)
    requires
        !pre.contains(v),
        !post.contains(v),
    ensures
        crate::events::toggle_in(pre + seq![v] + post, v) == pre + post,
{
    broadcast use {vstd::seq::Seq::filter_distributes_over_add, vstd::seq::Seq::lemma_filter_push};

    let items = pre + seq![v] + post;
    assert(items.contains(v)) by {
        assert(items[pre.len() as int] == v);
    }
    assert forall|pred: spec_fn(Seq<char>) -> bool|
        (forall|i: int| 0 <= i < pre.len() ==> pred(#[trigger] pre[i])) implies #[trigger] pre.filter(pred) == pre by {
        lemma_filter_keeps_all(pre, pred);
    }
    assert forall|pred: spec_fn(Seq<char>) -> bool|
        (forall|i: int| 0 <= i < post.len() ==> pred(#[trigger] post[i])) implies #[trigger] post.filter(pred) == post by {
        lemma_filter_keeps_all(post, pred);
    }
    assert forall|pred: spec_fn(Seq<char>) -> bool| !pred(v) implies #[trigger] seq![v].filter(pred) == Seq::<Seq<char>>::empty() by {
        let e = Seq::<Seq<char>>::empty();
        assert(e.filter(pred) =~= e) by {
            reveal(Seq::filter);
        }
        assert(e.push(v) =~= seq![v]);
        e.lemma_filter_push(v, pred);
    }
    assert forall|i: int| 0 <= i < pre.len() implies #[trigger] pre[i] != v by {
        if pre[i] == v {
            assert(pre.contains(v));
        }
    }
    assert forall|i: int| 0 <= i < post.len() implies #[trigger] post[i] != v by {
        if post[i] == v {
            assert(post.contains(v));
        }
    }
    assert(crate::events::toggle_in(items, v) =~= pre + post);
}

/// Space on a ticked multiselect option that the field holds once unticks it
/// and keeps the other ticked values in their order.
pub proof fn law_untick_keeps_the_others_in_order(
    a: AppView,
    fld: crate::blueprint::FieldView,
    pre: Seq<Seq<char>>,
    post: Seq<Seq<char>>,
)
    requires
        !a.show_exit_confirm,
        !a.form.editing,
        crate::events::current_field(a) == Some(fld),
        fld.field_type == crate::blueprint::FieldType::Multiselect,
        a.form.list_selected < fld.options.len(),
        a.form.current_key() is Some,
        a.form.current_value() == FieldVal::Array(pre + seq![fld.options[a.form.list_selected as int].value] + post),
        !pre.contains(fld.options[a.form.list_selected as int].value),
        !post.contains(fld.options[a.form.list_selected as int].value),
    ensures
        ({
            let space = crate::events::KeyPress { code: crate::events::Key::Char(' '), ctrl: false };
            crate::events::form_key_step(a, space).0.form.current_value() == FieldVal::Array(pre + post)
        }),
{
    let opt = fld.options[a.form.list_selected as int].value;
    let space = crate::events::KeyPress { code: crate::events::Key::Char(' '), ctrl: false };
    let b = crate::events::form_key_step(a, space).0;
    let k = a.form.current_key()->0;
    lemma_untick_keeps_order(pre, opt, post);
    assert(b == crate::events::toggle_option(a, fld));
    assert(b.form.current_key() == a.form.current_key());
    assert(b.form.values == a.form.values.insert(k, FieldVal::Array(pre + post)));
}

/// A search that fills in the selected field (not a list) and finds package
/// `name` at `version` leaves exactly `"<name> v<version>"` in that field and
/// every other value as it was.
pub proof fn law_found_version_fills_the_field(a: AppView, name: Seq<char>, version: Seq<char>)
    requires
        !a.search_add_to_list,
        a.form.current_key() is Some,
    ensures
        ({
            let r = crate::events::search_finished(a, Ok((name, version)));
            &&& r.form.current_value() == FieldVal::Text(name + " v"@ + version)
            &&& forall|key: Seq<char>| key != a.form.current_key()->0 ==> #[trigger] r.form.value_at(key) == a.form.value_at(key)
            &&& !r.is_loading
            &&& r.error_message == a.error_message
        }),
{
    let label = name + " v"@ + version;
    let b = AppView { is_loading: false, ..a };
    let r = crate::events::search_finished(a, Ok((name, version)));
    let k = a.form.current_key()->0;
    assert(r.form == b.form.set_current_value(FieldVal::Text(label)));
    assert(r.form.values == a.form.values.insert(k, FieldVal::Text(label)));
    assert(r.form.current_key() == a.form.current_key());
    assert(r.form.values.contains_key(k));
}

/// Enter while editing a textarea puts a line break at the cursor: the
/// text's bytes become those before the cursor, a newline byte, then those
/// after it; the cursor moves past the newline, editing goes on, and no
/// other value changes.
pub proof fn law_enter_breaks_the_line_in_a_textarea(a: AppView, fld: crate::blueprint::FieldView)
    requires
        !a.show_exit_confirm,
        a.form.editing,
        crate::events::current_field(a) == Some(fld),
        fld.field_type == crate::blueprint::FieldType::Textarea,
        a.form.current_key() is Some,
        a.form.values.contains_key(a.form.current_key()->0),
        a.form.values[a.form.current_key()->0] is Text,
        a.form.cursor_pos <= crate::text::byte_len(a.form.values[a.form.current_key()->0].text()),
        crate::text::boundary(a.form.values[a.form.current_key()->0].text(), a.form.cursor_pos as int),
        crate::text::byte_len(a.form.values[a.form.current_key()->0].text()) < usize::MAX,
    ensures
        ({
            let enter = crate::events::KeyPress { code: crate::events::Key::Enter, ctrl: false };
            let b = crate::events::form_key_step(a, enter).0;
            let k = a.form.current_key()->0;
            let old_bytes = crate::text::bytes_of(a.form.values[k].text());
            let c = a.form.cursor_pos as int;
            &&& b.form.editing
            &&& b.form.cursor_pos == a.form.cursor_pos + 1
            &&& b.form.value_at(k) is Text
            &&& crate::text::bytes_of(b.form.value_at(k).text()) == old_bytes.subrange(0, c) + seq![10u8]
                + old_bytes.subrange(c, old_bytes.len() as int)
            &&& forall|key: Seq<char>| key != k ==> #[trigger] b.form.value_at(key) == a.form.value_at(key)
        }),
{
    let k = a.form.current_key()->0;
    let t = a.form.values[k].text();
    let enter = crate::events::KeyPress { code: crate::events::Key::Enter, ctrl: false };
    let b = crate::events::form_key_step(a, enter).0;
    crate::text::lemma_insert_then_remove(t, a.form.cursor_pos as int, '\n');
    crate::text::lemma_encode_one('\n');
    assert(('\n' as u32) == 10u32);
    assert((10u32 & 0x7Fu32) as u8 == 10u8) by (bit_vector);
    assert(vstd::utf8::encode_scalar(10u32) == seq![10u8]);
    assert(crate::text::bytes_of(seq!['\n']) == seq![10u8]);
    assert(crate::form::width('\n') == 1);
    let t2 = crate::text::insert_at_byte(t, a.form.cursor_pos as int, '\n');
    assert(b.form == a.form.insert_char('\n'));
    assert(b.form.values == a.form.values.insert(k, FieldVal::Text(t2)));
    assert(b.form.value_at(k) == FieldVal::Text(t2));
}

} // verus!
