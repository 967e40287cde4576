use yerkoku::app::{App, PanelFocus, Screen};
use yerkoku::blueprint::{Blueprint, Field, FieldType, FieldValue, Section};
use yerkoku::draft::DraftManager;
use yerkoku::events::{Effect, Event, Key, KeyPress, Mouse};
use yerkoku::registry::PackageInfo;

fn field(key: &str, label: &str, ty: FieldType, default: FieldValue) -> Field {
    Field {
        key: key.to_string(),
        label: label.to_string(),
        field_type: ty,
        description: String::new(),
        required: false,
        placeholder: String::new(),
        default,
        options: Vec::new(),
        min: None,
        max: None,
        rows: None,
        search_crate: None,
        crate_name: None,
        target_list_key: None,
        hidden: false,
        button_text: None,
        action: None,
        registry: "crates.io".to_string(),
    }
}

fn blueprint(name: &str) -> Blueprint {
    let mut search = field("tech.search", "Search & Add", FieldType::CrateSearch, FieldValue::Empty);
    search.target_list_key = Some("tech.crates".to_string());
    Blueprint {
        name: name.to_string(),
        description: String::new(),
        icon: "*".to_string(),
        sections: vec![
            Section {
                title: "Basics".to_string(),
                icon: "#".to_string(),
                description: String::new(),
                fields: vec![
                    field("p.name", "Name", FieldType::Text, FieldValue::Text(String::new())),
                    field("p.tests", "Tests", FieldType::Checkbox, FieldValue::Bool(false)),
                ],
            },
            Section {
                title: "Tech".to_string(),
                icon: "+".to_string(),
                description: String::new(),
                fields: vec![search, field("tech.crates", "Crates", FieldType::ListBuilder, FieldValue::Empty)],
            },
        ],
    }
}

fn key(code: Key) -> Event {
    Event::Key(KeyPress { code, ctrl: false })
}

fn ctrl(c: char) -> Event {
    Event::Key(KeyPress { code: Key::Char(c), ctrl: true })
}

fn app() -> App {
    App::new(
        "blueprints".to_string(),
        vec![blueprint("Backend App"), blueprint("Sample App")],
        DraftManager::new("drafts".to_string()),
        Vec::new(),
        "/home",
    )
}

fn send(a: &mut App, e: Event) -> Effect {
    assert!(a.event_allowed(e));
    a.handle_event(e)
}

fn open_sample(a: &mut App) {
    send(a, key(Key::BackTab));
    send(a, key(Key::Down));
    assert_eq!(send(a, key(Key::Enter)), Effect::Nothing);
    assert_eq!(a.current_screen, Screen::Form);
}

#[test]
fn startup_status_counts_what_was_loaded() {
    let a = app();
    assert_eq!(a.current_screen, Screen::Drafts);
    assert_eq!(a.panel_focus, PanelFocus::Drafts);
    assert_eq!(a.status_message, Some("Loaded 2 blueprint(s), 0 draft(s)".to_string()));
    let empty = App::new("bp".to_string(), Vec::new(), DraftManager::new("d".to_string()), Vec::new(), "/x");
    assert_eq!(empty.status_message, Some("No blueprints found in 'bp' (cwd: '/x')".to_string()));
    assert_eq!(empty.draft_manager.drafts_dir(), "d");
}

#[test]
fn start_screen_keys() {
    let mut a = app();
    assert_eq!(send(&mut a, key(Key::Char('r'))), Effect::Refresh);
    assert_eq!(send(&mut a, key(Key::Char('d'))), Effect::DeleteSelectedDraft);
    send(&mut a, key(Key::Char('n')));
    assert_eq!(a.panel_focus, PanelFocus::Blueprints);
    assert_eq!(send(&mut a, key(Key::Char('d'))), Effect::Nothing);
    send(&mut a, key(Key::Down));
    assert_eq!(a.selected_blueprint, 1);
    send(&mut a, key(Key::Down));
    assert_eq!(a.selected_blueprint, 0);
    send(&mut a, key(Key::Up));
    assert_eq!(a.selected_blueprint, 1);
    send(&mut a, Event::Mouse(Mouse::LeftClick { column: 10, row: 4 }));
    assert_eq!(a.selected_blueprint, 0);
    send(&mut a, key(Key::Tab));
    assert_eq!(a.panel_focus, PanelFocus::Drafts);
    send(&mut a, key(Key::Char('q')));
    assert!(a.should_quit);
}

#[test]
fn choosing_a_blueprint_opens_its_form() {
    let mut a = app();
    open_sample(&mut a);
    assert_eq!(a.status_message, Some("Loaded: Sample App".to_string()));
    assert_eq!(a.current_blueprint.as_ref().map(|b| b.name.clone()), Some("Sample App".to_string()));
    assert_eq!(a.form.total_sections, 2);
    assert_eq!(a.current_field().map(|f| f.key), Some("p.name".to_string()));
}

#[test]
fn typing_into_a_text_field() {
    let mut a = app();
    open_sample(&mut a);
    send(&mut a, key(Key::Enter));
    assert!(a.form.editing);
    for c in "Zed".chars() {
        send(&mut a, key(Key::Char(c)));
    }
    send(&mut a, key(Key::Backspace));
    send(&mut a, key(Key::Enter));
    assert!(!a.form.editing);
    assert_eq!(a.form.value_at(&"p.name".to_string()).as_str(), "Ze");
    send(&mut a, key(Key::Down));
    send(&mut a, key(Key::Char(' ')));
    assert!(a.form.value_at(&"p.tests".to_string()).as_bool());
}

#[test]
fn generate_save_review_and_quit_keys() {
    let mut a = app();
    open_sample(&mut a);
    assert_eq!(send(&mut a, key(Key::Char('s'))), Effect::SaveDraft);
    send(&mut a, key(Key::Char('r')));
    assert_eq!(a.current_screen, Screen::Review);
    send(&mut a, key(Key::Char('e')));
    assert_eq!(a.current_screen, Screen::Form);
    send(&mut a, key(Key::Char('g')));
    assert!(a.generate_prompt && a.should_quit && a.copy_to_clipboard);

    let mut b = app();
    open_sample(&mut b);
    send(&mut b, ctrl('s'));
    assert!(b.generate_prompt && b.should_quit && b.copy_to_clipboard);

    let mut c = app();
    open_sample(&mut c);
    assert_eq!(send(&mut c, ctrl('c')), Effect::SaveDraftQuietly);
    assert!(c.should_quit && !c.generate_prompt);
}

#[test]
fn escape_goes_back_to_the_menu() {
    let mut a = app();
    open_sample(&mut a);
    send(&mut a, key(Key::Enter));
    send(&mut a, key(Key::Char('Z')));
    send(&mut a, key(Key::Enter));
    send(&mut a, key(Key::Esc));
    assert_eq!(a.current_screen, Screen::Menu);
    assert!(!a.show_exit_confirm);
    assert_eq!(a.form.value_at(&"p.name".to_string()).as_str(), "Z");
    assert!(a.current_blueprint.is_some());
    let mut q = app();
    open_sample(&mut q);
    assert_eq!(send(&mut q, key(Key::Char('q'))), Effect::Nothing);
    assert_eq!(q.current_screen, Screen::Menu);
}

#[test]
fn exit_question_choices() {
    let mut a = app();
    open_sample(&mut a);
    a.request_exit();
    assert!(a.show_exit_confirm);
    assert_eq!(a.exit_confirm_selection, 0);
    send(&mut a, key(Key::Down));
    assert_eq!(a.exit_confirm_selection, 1);
    send(&mut a, key(Key::Enter));
    assert!(!a.show_exit_confirm);
    assert_eq!(a.current_screen, Screen::Drafts);
    assert!(a.current_blueprint.is_none());

    let mut b = app();
    open_sample(&mut b);
    b.request_exit();
    assert_eq!(b.confirm_exit_with_save(), Effect::SaveDraft);
    assert_eq!(b.current_screen, Screen::Drafts);
    assert!(b.current_blueprint.is_some());

    let mut c = app();
    open_sample(&mut c);
    c.request_exit();
    c.cancel_exit();
    assert!(!c.show_exit_confirm);
    assert_eq!(c.current_screen, Screen::Form);
}

#[test]
fn searching_adds_the_found_package() {
    let mut a = app();
    open_sample(&mut a);
    send(&mut a, key(Key::Char('n')));
    assert_eq!(a.form.current_section, 1);
    send(&mut a, key(Key::Enter));
    assert!(a.form.editing);
    for c in " serde ".chars() {
        send(&mut a, key(Key::Char(c)));
    }
    send(&mut a, key(Key::Esc));
    send(&mut a, key(Key::Tab));
    assert_eq!(a.form.sub_focus, 1);
    let effect = send(&mut a, key(Key::Enter));
    assert_eq!(
        effect,
        Effect::Search { package: "serde".to_string(), registry: "crates.io".to_string(), add_to_list: true }
    );
    assert!(a.is_loading);
    assert_eq!(a.loading_message, "Searching crates.io for 'serde'...");
    let info = PackageInfo { name: "serde".to_string(), version: "1.0.200".to_string(), description: None, downloads: None };
    a.finish_search(Ok(info));
    assert!(!a.is_loading);
    assert_eq!(a.form.get_target_list("tech.crates"), vec!["serde v1.0.200".to_string()]);
    assert_eq!(a.form.get_list_input_value(), "");
    assert_eq!(a.status_message, Some("✓ Added: 1.0.200".to_string()));
}

#[test]
fn failed_search_shows_an_error_until_dismissed() {
    let mut a = app();
    open_sample(&mut a);
    a.is_loading = true;
    a.finish_search(Err("Crate 'x' not found on crates.io".to_string()));
    assert!(a.has_error());
    assert_eq!(a.error_title, Some("Search Failed".to_string()));
    assert!(!a.is_loading);
    send(&mut a, key(Key::Char('x')));
    assert!(a.has_error());
    send(&mut a, key(Key::Enter));
    assert!(!a.has_error());
    a.search_lost();
    assert_eq!(a.error_message, Some("Search thread terminated unexpectedly".to_string()));
    a.dismiss_error();
    assert!(!a.has_error());
}

#[test]
fn saved_draft_resumes_the_form() {
    let mut a = app();
    open_sample(&mut a);
    send(&mut a, key(Key::Enter));
    send(&mut a, key(Key::Char('Q')));
    send(&mut a, key(Key::Enter));
    send(&mut a, key(Key::Down));
    let (name, draft) = a.draft_to_save().expect("a blueprint is open");
    assert_eq!(name, "sample_app_draft");
    assert_eq!(draft.blueprint_name, "Sample App");
    assert_eq!(draft.selected_field, 1);
    assert_eq!(draft.created_at, draft.updated_at);
    a.draft_saved(name.clone());
    assert_eq!(a.status_message, Some("✓ Draft saved: sample_app_draft".to_string()));

    let mut b = app();
    b.set_drafts(vec![(name, draft)]);
    assert_eq!(b.selected_draft_name(), Some("sample_app_draft".to_string()));
    send(&mut b, key(Key::Enter));
    assert_eq!(b.current_screen, Screen::Form);
    assert_eq!(b.current_draft_name, Some("sample_app_draft".to_string()));
    assert_eq!(b.form.value_at(&"p.name".to_string()).as_str(), "Q");
    assert_eq!(b.form.selected_field, 1);
    assert_eq!(b.status_message, Some("Loaded draft: sample_app_draft".to_string()));
}

#[test]
fn draft_of_a_missing_blueprint_is_not_opened() {
    let mut a = app();
    open_sample(&mut a);
    let (name, mut draft) = a.draft_to_save().unwrap();
    draft.blueprint_name = "Gone".to_string();
    let mut b = app();
    b.set_drafts(vec![(name, draft)]);
    send(&mut b, key(Key::Enter));
    assert_eq!(b.current_screen, Screen::Drafts);
    assert_eq!(b.status_message, Some("⚠ Blueprint 'Gone' not found for draft".to_string()));
}

#[test]
fn success_screen_keys_and_prompt_file() {
    let mut a = app();
    open_sample(&mut a);
    assert_eq!(a.prompt_file_name(), Some("sample_app_prompt.md".to_string()));
    a.prompt_written("/tmp/sample_app_prompt.md".to_string(), Some(Ok(())));
    assert_eq!(a.current_screen, Screen::Success);
    assert_eq!(a.last_copy_result, Some("✓ Copied to clipboard".to_string()));
    assert_eq!(send(&mut a, key(Key::Char('o'))), Effect::OpenPromptsDirectory);
    send(&mut a, key(Key::Char('m')));
    assert_eq!(a.current_screen, Screen::Menu);
    let mut b = app();
    open_sample(&mut b);
    b.prompt_written("p.md".to_string(), Some(Err("no display".to_string())));
    assert_eq!(b.last_copy_result, Some("✗ Clipboard error: no display".to_string()));
    send(&mut b, key(Key::Enter));
    assert_eq!(b.current_screen, Screen::Form);
}

#[test]
fn mouse_scrolls_and_selects_in_the_form() {
    let mut a = app();
    open_sample(&mut a);
    send(&mut a, Event::Mouse(Mouse::LeftClick { column: 5, row: 8 }));
    assert_eq!(a.form.selected_field, 1);
    send(&mut a, Event::Mouse(Mouse::ScrollDown { column: 80, row: 10 }));
    assert_eq!(a.preview_scroll, 3);
    send(&mut a, Event::Mouse(Mouse::ScrollUp { column: 80, row: 10 }));
    assert_eq!(a.preview_scroll, 0);
}

#[test]
fn navbar_scrolls_within_the_sections() {
    let mut a = app();
    open_sample(&mut a);
    a.navbar_scroll_right();
    assert_eq!(a.navbar_scroll_offset, 1);
    a.navbar_scroll_right();
    assert_eq!(a.navbar_scroll_offset, 1);
    a.navbar_scroll_left();
    a.navbar_scroll_left();
    assert_eq!(a.navbar_scroll_offset, 0);
}

#[test]
fn navbar_follows_the_current_section() {
    let mut a = app();
    open_sample(&mut a);
    a.form.go_to_section(1);
    a.ensure_navbar_visible(1);
    assert_eq!(a.navbar_scroll_offset, 1);
    a.form.go_to_section(0);
    a.ensure_navbar_visible(1);
    assert_eq!(a.navbar_scroll_offset, 0);
    a.ensure_navbar_visible(0);
    assert_eq!(a.navbar_scroll_offset, 0);
}

#[test]
fn an_open_error_takes_every_event() {
    let mut a = app();
    a.show_error("Oops", "Something failed");
    let before = a.selected_blueprint;
    assert_eq!(send(&mut a, key(Key::Down)), Effect::Nothing);
    assert_eq!(send(&mut a, key(Key::Char('r'))), Effect::Nothing);
    assert_eq!(a.selected_blueprint, before);
    assert!(a.has_error());
    send(&mut a, Event::Mouse(Mouse::ScrollUp { column: 1, row: 1 }));
    assert!(!a.has_error());
}

#[test]
fn drafts_are_stamped_with_the_given_time() {
    let mut a = app();
    assert!(a.draft_to_save_at("2024-01-01 00:00:00".to_string()).is_none());
    open_sample(&mut a);
    let (name, d) = a.draft_to_save_at("2024-01-01 00:00:00".to_string()).unwrap();
    assert_eq!(name, "sample_app_draft");
    assert_eq!((d.created_at.as_str(), d.updated_at.as_str()), ("2024-01-01 00:00:00", "2024-01-01 00:00:00"));
}

#[test]
fn quitting_saves_only_with_a_blueprint_open() {
    let mut a = app();
    assert!(!a.saves_draft_on_quit());
    send(&mut a, key(Key::Char('q')));
    assert!(!a.saves_draft_on_quit());
    let mut b = app();
    open_sample(&mut b);
    assert!(!b.saves_draft_on_quit());
    send(&mut b, ctrl('c'));
    assert!(b.saves_draft_on_quit());
}

#[test]
fn success_title_and_clock_failure() {
    let mut a = app();
    assert_eq!(a.success_title(), "✓ Success");
    a.last_error = Some("x".to_string());
    assert_eq!(a.success_title(), "✗ Error");
    a.generate_prompt = true;
    a.copy_to_clipboard = true;
    a.prompt_clock_failed();
    assert!(!a.generate_prompt && !a.copy_to_clipboard);
    assert_eq!(a.error_title, Some("Clock Error".to_string()));
    assert_eq!(a.error_message, Some("Failed to read the system clock".to_string()));
}
