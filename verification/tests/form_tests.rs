use yerkoku::blueprint::{Blueprint, Field, FieldType, FieldValue, Section, SelectOption};
use yerkoku::form::Form;

fn field(key: &str, label: &str, ty: FieldType, default: FieldValue) -> Field {
    Field {
        key: key.to_string(),
        label: label.to_string(),
        field_type: ty,
        description: String::new(),
        required: false,
        placeholder: String::new(),
        default,
        options: Vec::new(),
        min: None,
        max: None,
        rows: None,
        search_crate: None,
        crate_name: None,
        target_list_key: None,
        hidden: false,
        button_text: None,
        action: None,
        registry: "crates.io".to_string(),
    }
}

fn option(value: &str) -> SelectOption {
    SelectOption { value: value.to_string(), label: value.to_uppercase(), description: String::new() }
}

fn sample() -> Blueprint {
    let mut hidden = field("p.hidden", "Hidden", FieldType::Text, FieldValue::Empty);
    hidden.hidden = true;
    let mut select = field("p.kind", "Kind", FieldType::Select, FieldValue::Text("cli".to_string()));
    select.options = vec![option("cli"), option("web"), option("lib")];
    Blueprint {
        name: "Sample App".to_string(),
        description: "A sample".to_string(),
        icon: "*".to_string(),
        sections: vec![
            Section {
                title: "Basics".to_string(),
                icon: "#".to_string(),
                description: String::new(),
                fields: vec![
                    field("p.name", "Name", FieldType::Text, FieldValue::Text("demo".to_string())),
                    field("p.break", "", FieldType::SectionBreak, FieldValue::Empty),
                    hidden,
                    field("p.tests", "Tests", FieldType::Checkbox, FieldValue::Bool(false)),
                    select,
                ],
            },
            Section {
                title: "Lists".to_string(),
                icon: "+".to_string(),
                description: String::new(),
                fields: vec![field("p.features", "Features", FieldType::ListBuilder, FieldValue::Array(Vec::new()))],
            },
        ],
    }
}

fn text_of(v: FieldValue) -> String {
    v.as_str().to_string()
}

#[test]
fn new_form_keeps_editable_fields_with_defaults() {
    let f = Form::new(&sample());
    assert_eq!(f.total_sections, 2);
    assert_eq!(f.section_fields[0], vec!["p.name".to_string(), "p.tests".to_string(), "p.kind".to_string()]);
    assert_eq!(f.section_fields[1], vec!["p.features".to_string()]);
    assert_eq!(text_of(f.value_at(&"p.name".to_string())), "demo");
    assert!(f.value_at(&"p.hidden".to_string()).is_empty());
    assert_eq!(f.visible_field_count, 5);
    assert_eq!(f.current_section_field_count(), 3);
}

#[test]
fn field_navigation_wraps_both_ways() {
    let mut f = Form::new(&sample());
    f.next_field();
    assert_eq!(f.selected_field, 1);
    f.next_field();
    f.next_field();
    assert_eq!(f.selected_field, 0);
    f.prev_field();
    assert_eq!(f.selected_field, 2);
    f.next_field();
    assert_eq!(f.selected_field, 0);
}

#[test]
fn section_navigation_wraps_and_resets_selection() {
    let mut f = Form::new(&sample());
    f.next_field();
    f.next_section();
    assert_eq!(f.current_section, 1);
    assert_eq!(f.selected_field, 0);
    f.next_section();
    assert_eq!(f.current_section, 0);
    f.prev_section();
    assert_eq!(f.current_section, 1);
    f.go_to_section(7);
    assert_eq!(f.current_section, 1);
    f.go_to_section(0);
    assert_eq!(f.current_section, 0);
}

#[test]
fn typing_then_backspace_restores_text() {
    let mut f = Form::new(&sample());
    f.start_editing();
    assert!(f.is_editing());
    assert_eq!(f.cursor_pos, 4);
    f.insert_char('é');
    assert_eq!(text_of(f.get_current_value()), "demoé");
    assert_eq!(f.cursor_pos, 6);
    f.backspace();
    assert_eq!(text_of(f.get_current_value()), "demo");
    assert_eq!(f.cursor_pos, 4);
}

#[test]
fn cursor_moves_by_whole_chars_and_delete_removes_one() {
    let mut f = Form::new(&sample());
    f.set_current_value(FieldValue::Text("añb".to_string()));
    f.start_editing();
    assert_eq!(f.cursor_pos, 4);
    f.cursor_left();
    assert_eq!(f.cursor_pos, 3);
    f.cursor_left();
    assert_eq!(f.cursor_pos, 1);
    f.delete();
    assert_eq!(text_of(f.get_current_value()), "ab");
    f.cursor_right();
    assert_eq!(f.cursor_pos, 2);
    f.cursor_start();
    assert_eq!(f.cursor_pos, 0);
    f.cursor_end();
    assert_eq!(f.cursor_pos, 2);
    f.stop_editing();
    assert!(!f.is_editing());
    assert_eq!(f.cursor_pos, 0);
}

#[test]
fn checkbox_toggles_back_and_forth() {
    let mut f = Form::new(&sample());
    f.next_field();
    f.toggle_checkbox();
    assert!(f.get_current_value().as_bool());
    f.toggle_checkbox();
    assert!(!f.get_current_value().as_bool());
}

#[test]
fn select_cycles_through_options() {
    let bp = sample();
    let opts = bp.sections[0].fields[4].options.clone();
    let mut f = Form::new(&bp);
    f.next_field();
    f.next_field();
    f.cycle_select(&opts);
    assert_eq!(text_of(f.get_current_value()), "web");
    f.cycle_select(&opts);
    assert_eq!(text_of(f.get_current_value()), "lib");
    f.cycle_select(&opts);
    assert_eq!(text_of(f.get_current_value()), "cli");
    f.set_current_value(FieldValue::Text("unknown".to_string()));
    f.cycle_select(&opts);
    assert_eq!(text_of(f.get_current_value()), "cli");
}

#[test]
fn list_items_are_added_once_and_removed_by_index() {
    let mut f = Form::new(&sample());
    f.next_section();
    f.add_list_item("auth".to_string());
    f.add_list_item("auth".to_string());
    f.add_list_item(String::new());
    f.add_list_item("api".to_string());
    assert_eq!(f.get_current_value().as_vec(), vec!["auth".to_string(), "api".to_string()]);
    f.remove_list_item(0);
    assert_eq!(f.get_current_value().as_vec(), vec!["api".to_string()]);
    f.remove_list_item(5);
    assert_eq!(f.get_current_value().as_vec(), vec!["api".to_string()]);
}

#[test]
fn list_input_is_kept_under_its_own_key() {
    let mut f = Form::new(&sample());
    f.next_section();
    f.insert_list_input_char('g');
    f.insert_list_input_char('o');
    assert_eq!(f.get_list_input_value(), "go");
    assert_eq!(text_of(f.value_at(&"p.features_input".to_string())), "go");
    f.list_input_backspace();
    assert_eq!(f.get_list_input_value(), "g");
    f.clear_list_input();
    assert_eq!(f.get_list_input_value(), "");
    assert_eq!(f.cursor_pos, 0);
}

#[test]
fn target_lists_are_edited_by_key() {
    let mut f = Form::new(&sample());
    f.add_to_target_list("tech.additional_crates", "serde v1.0".to_string());
    f.add_to_target_list("tech.additional_crates", "tokio v1.0".to_string());
    assert_eq!(f.get_target_list("tech.additional_crates").len(), 2);
    f.remove_from_target_list("tech.additional_crates", 0);
    assert_eq!(f.get_target_list("tech.additional_crates"), vec!["tokio v1.0".to_string()]);
    f.clear_target_list("tech.additional_crates");
    assert!(f.get_target_list("tech.additional_crates").is_empty());
}

#[test]
fn scrolling_stays_within_the_field_list() {
    let mut f = Form::new(&sample());
    f.set_visible_field_count(2);
    assert_eq!(f.visible_field_count, 2);
    f.scroll_down(10);
    assert_eq!(f.scroll_offset, 1);
    f.scroll_up(5);
    assert_eq!(f.scroll_offset, 0);
    f.scroll_text_down(3);
    assert_eq!(f.text_scroll_offset, 3);
    f.scroll_text_up(1);
    assert_eq!(f.text_scroll_offset, 2);
    f.reset_text_scroll();
    assert_eq!(f.text_scroll_offset, 0);
}

#[test]
fn selection_stays_visible_when_moving_down() {
    let mut f = Form::new(&sample());
    f.set_visible_field_count(1);
    f.next_field();
    assert_eq!(f.selected_field, 1);
    assert_eq!(f.scroll_offset, 1);
    f.next_field();
    assert_eq!(f.scroll_offset, 2);
    f.next_field();
    assert_eq!(f.selected_field, 0);
    assert_eq!(f.scroll_offset, 0);
}

#[test]
fn editing_safety_checks_follow_char_boundaries() {
    let mut f = Form::new(&sample());
    f.set_current_value(FieldValue::Text("añ".to_string()));
    f.cursor_pos = 2;
    assert!(!f.may_insert_char());
    assert!(!f.may_backspace());
    assert!(!f.may_delete());
    f.cursor_pos = 1;
    assert!(f.may_insert_char());
    assert!(f.may_backspace());
    assert!(f.may_delete());
}

#[test]
fn multiline_only_for_textareas() {
    let f = Form::new(&sample());
    assert!(!f.is_multiline());
}

#[test]
fn delete_after_moving_back_undoes_typing() {
    let mut f = Form::new(&sample());
    f.set_current_value(FieldValue::Text("ab".to_string()));
    f.start_editing();
    f.cursor_left();
    assert_eq!(f.cursor_pos, 1);
    f.insert_char('€');
    assert_eq!(text_of(f.get_current_value()), "a€b");
    assert_eq!(f.cursor_pos, 4);
    f.cursor_left();
    f.delete();
    assert_eq!(text_of(f.get_current_value()), "ab");
    assert_eq!(f.cursor_pos, 1);
}

#[test]
fn list_input_backspace_undoes_typing() {
    let mut f = Form::new(&sample());
    f.next_section();
    f.set_list_input_value("añ".to_string());
    f.cursor_pos = 1;
    f.insert_list_input_char('x');
    assert_eq!(f.get_list_input_value(), "axñ");
    assert_eq!(f.cursor_pos, 2);
    f.list_input_backspace();
    assert_eq!(f.get_list_input_value(), "añ");
    assert_eq!(f.cursor_pos, 1);
}

#[test]
fn filled_fields_are_counted() {
    let mut f = Form::new(&sample());
    assert_eq!(f.filled_count(), 2);
    f.next_field();
    f.toggle_checkbox();
    assert_eq!(f.filled_count(), 3);
    f.next_section();
    f.add_list_item("x".to_string());
    assert_eq!(f.filled_count(), 4);
}
