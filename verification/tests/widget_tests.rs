use yerkoku::widgets::button::{action_button_caption, Button};
use yerkoku::widgets::checkbox::{check_mark, Checkbox};
use yerkoku::widgets::crate_input::CrateInput;
use yerkoku::widgets::crate_search::CrateSearch;
use yerkoku::widgets::input::{block_title, input_display, numbered_item, InputLook};
use yerkoku::widgets::list_builder::{list_visible_count, ListBuilder};
use yerkoku::widgets::multiselect::MultiSelect;
use yerkoku::widgets::select::Select;
use yerkoku::widgets::text_input::TextInput;

fn pairs(items: &[(&str, &str)]) -> Vec<(String, String)> {
    items.iter().map(|(v, l)| (v.to_string(), l.to_string())).collect()
}

#[test]
fn multiselect_toggles_and_counts() {
    let mut m = MultiSelect::new("Targets", pairs(&[("linux", "Linux"), ("mac", "macOS"), ("win", "Windows")]));
    assert_eq!(m.selected, vec![false, false, false]);
    assert_eq!(m.cursor, 0);
    assert!(!m.focused);
    m.toggle_current();
    m.cursor_down();
    m.cursor_down();
    m.toggle_current();
    assert_eq!(m.selected_count(), 2);
    assert_eq!(m.selected_values(), vec!["linux".to_string(), "win".to_string()]);
    assert_eq!(m.title(), " Targets (2/3) ");
    m.toggle_current();
    m.toggle_current();
    assert_eq!(m.selected_count(), 2);
}

#[test]
fn multiselect_cursor_wraps() {
    let mut m = MultiSelect::new("T", pairs(&[("a", "A"), ("b", "B")]));
    m.cursor_up();
    assert_eq!(m.cursor, 1);
    m.cursor_down();
    assert_eq!(m.cursor, 0);
    m.cursor_down();
    m.cursor_up();
    assert_eq!(m.cursor, 0);
    let mut empty = MultiSelect::new("E", Vec::new());
    empty.cursor_up();
    empty.cursor_down();
    empty.toggle_current();
    assert_eq!(empty.cursor, 0);
    assert_eq!(empty.selected_count(), 0);
    assert_eq!(empty.title(), " E (0/0) ");
}

#[test]
fn select_shows_chosen_label() {
    let mut s = Select::new("Kind", pairs(&[("cli", "Command line"), ("web", "Web")]));
    assert_eq!(s.display(), "◈ Command line");
    s.selected = 1;
    assert_eq!(s.display(), "◈ Web");
    s.selected = 9;
    assert_eq!(s.display(), "◈ Web");
    assert_eq!(Select::new("Empty", Vec::new()).display(), "No options");
}

#[test]
fn inputs_show_placeholder_text_or_cursor() {
    assert_eq!(input_display("", "type here", false, 0), ("type here".to_string(), InputLook::Placeholder));
    assert_eq!(input_display("abc", "p", false, 1), ("abc".to_string(), InputLook::Plain));
    assert_eq!(input_display("abc", "p", true, 1), ("a█bc".to_string(), InputLook::Editing));
    assert_eq!(input_display("abc", "p", true, 99), ("abc█".to_string(), InputLook::Editing));
    assert_eq!(input_display("", "p", true, 0), ("█".to_string(), InputLook::Editing));
    let mut t = TextInput::new("Name", "héllo", "x");
    assert_eq!(t.cursor_pos, 6);
    t.editing = true;
    assert_eq!(t.display().0, "héllo█");
    let c = CrateInput::new("Version", "serde", "1.0", "latest");
    assert_eq!(c.cursor_pos, 3);
    assert_eq!(c.display(), ("1.0".to_string(), InputLook::Plain));
}

#[test]
fn titles_and_numbered_items() {
    assert_eq!(block_title("Name"), " Name ");
    assert_eq!(numbered_item(0, "first", true), "▶ 1. first");
    assert_eq!(numbered_item(9, "tenth", false), "  10. tenth");
}

#[test]
fn buttons_and_checkboxes() {
    let b = Button::new("Generate", "🚀 Go");
    assert_eq!(b.button_text, "🚀 Go");
    assert!(!b.focused);
    assert_eq!(action_button_caption(Some("🚀 Go"), true), "🚀 Go [Space]");
    assert_eq!(action_button_caption(None, false), "Action");
    assert_eq!(check_mark(true), "☑");
    assert_eq!(Checkbox::new("Tests", false).mark_text(), " ☐ ");
    assert_eq!(Checkbox::new("Tests", true).mark_text(), " ☑ ");
}

#[test]
fn crate_widgets_captions() {
    let mut c = CrateInput::new("Version", "serde", "", "latest");
    assert_eq!(c.button_text(), "Get Latest");
    c.loading = true;
    assert_eq!(c.button_text(), "⏳ Loading");
    let mut s = CrateSearch::new("Search", vec!["serde v1".to_string()], "name");
    assert_eq!(s.button_text(), "Search & Add");
    assert_eq!(s.list_title(), " 📦 Added (1) ");
    s.list_focused = true;
    assert_eq!(s.list_title(), " 📦 Added (↑/↓ select, d delete) ");
    s.loading = true;
    assert_eq!(s.button_text(), "⏳ Searching");
    assert_eq!(s.input_display(), ("name".to_string(), InputLook::Placeholder));
}

#[test]
fn list_builder_keeps_selection_in_view() {
    let items: Vec<String> = (0..10).map(|i| format!("item {i}")).collect();
    let mut l = ListBuilder::new("Features", items, "add");
    assert_eq!(l.list_title(), " 📋 Items (10) ");
    l.list_selected = 7;
    l.ensure_selected_visible(3);
    assert_eq!(l.list_scroll_offset, 5);
    l.list_selected = 2;
    l.ensure_selected_visible(3);
    assert_eq!(l.list_scroll_offset, 2);
    l.list_focused = true;
    assert_eq!(l.list_title(), " 📋 Items (10) — ↑/↓ select, d delete, Tab back ");
    assert_eq!(list_visible_count(10), 8);
    assert_eq!(list_visible_count(3), 1);
    assert_eq!(list_visible_count(0), 1);
}
