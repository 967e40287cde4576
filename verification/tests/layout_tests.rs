use yerkoku::blueprint::{Field, FieldType, FieldValue, Section, SelectOption};
use yerkoku::layout::{
    field_draw_height, field_fit_height, fit_count, form_title, form_window, navbar_title, scroll_indicator,
    section_heights, tab_window, visible_field_count, window_offset,
};

fn field(ty: FieldType) -> Field {
    Field {
        key: "k".to_string(),
        label: "L".to_string(),
        field_type: ty,
        description: String::new(),
        required: false,
        placeholder: String::new(),
        default: FieldValue::Empty,
        options: Vec::new(),
        min: None,
        max: None,
        rows: None,
        search_crate: None,
        crate_name: None,
        target_list_key: None,
        hidden: false,
        button_text: None,
        action: None,
        registry: "crates.io".to_string(),
    }
}

fn section(title: &str, icon: &str, fields: Vec<Field>) -> Section {
    Section { title: title.to_string(), icon: icon.to_string(), description: String::new(), fields }
}

#[test]
fn field_heights_by_type() {
    assert_eq!(field_fit_height(&field(FieldType::Text)), 3);
    assert_eq!(field_fit_height(&field(FieldType::Textarea)), 6);
    assert_eq!(field_fit_height(&field(FieldType::ListBuilder)), 10);
    assert_eq!(field_draw_height(&field(FieldType::ListBuilder)), 12);
    assert_eq!(field_draw_height(&field(FieldType::CrateInput)), 5);
    let mut m = field(FieldType::Multiselect);
    assert_eq!(field_fit_height(&m), 3);
    m.options = (0..4)
        .map(|i| SelectOption { value: i.to_string(), label: i.to_string(), description: String::new() })
        .collect();
    assert_eq!(field_fit_height(&m), 6);
}

#[test]
fn heights_skip_fields_the_form_does_not_edit() {
    let mut hidden = field(FieldType::Text);
    hidden.hidden = true;
    let s = section("S", "#", vec![field(FieldType::Text), field(FieldType::SectionBreak), hidden, field(FieldType::CrateSearch)]);
    assert_eq!(section_heights(&s, false), vec![3, 8]);
    assert_eq!(section_heights(&s, true), vec![3, 12]);
}

#[test]
fn fitting_counts_whole_items() {
    assert_eq!(fit_count(&vec![3, 3, 3], 8, 10), 2);
    assert_eq!(fit_count(&vec![3, 3, 3], 9, 10), 3);
    assert_eq!(fit_count(&vec![3, 3, 3], 9, 1), 1);
    assert_eq!(fit_count(&vec![5], 4, 10), 0);
}

#[test]
fn visible_fields_leave_eight_rows_and_show_at_least_one() {
    let s = section("S", "#", vec![field(FieldType::Text), field(FieldType::Text), field(FieldType::Text)]);
    assert_eq!(visible_field_count(&s, 17), 3);
    assert_eq!(visible_field_count(&s, 16), 2);
    assert_eq!(visible_field_count(&s, 5), 1);
}

#[test]
fn windows_keep_the_selection_in_view() {
    assert_eq!(window_offset(3, 0, 2, 4), 2);
    assert_eq!(window_offset(0, 2, 2, 4), 0);
    assert_eq!(window_offset(9, 0, 2, 4), 2);
    let w = form_window(&vec![3, 3, 3, 3], 7, 3, 0);
    assert_eq!((w.first, w.visible, w.drawn), (2, 2, 2));
}

#[test]
fn titles_count_from_one() {
    assert_eq!(form_title("Basics", 0, 3), "📋 Basics (Section 1/3)");
    assert_eq!(scroll_indicator(2, 2, 4), " 3-4 of 4 ");
    assert_eq!(scroll_indicator(2, 5, 4), " 3-4 of 4 ");
    assert_eq!(navbar_title("App", 2, 0, 5), "📝 App");
    assert_eq!(navbar_title("App", 6, 0, 3), "  📝 App ▶");
    assert_eq!(navbar_title("App", 6, 3, 3), "◀ 📝 App  ");
}

#[test]
fn tabs_fit_in_the_navbar() {
    let sections = vec![section("One", "#", Vec::new()), section("Two", "#", Vec::new()), section("Three", "#", Vec::new())];
    let all = tab_window(&sections, 100, 0, 0);
    assert_eq!((all.first, all.visible), (0, 3));
    let two = tab_window(&sections, 18, 2, 0);
    assert_eq!((two.first, two.visible), (1, 2));
    let one = tab_window(&sections, 1, 1, 0);
    assert_eq!((one.first, one.visible), (1, 1));
}

#[test]
fn the_selected_field_is_always_drawn() {
    let heights = vec![3, 3, 3, 3, 12];
    let w = form_window(&heights, 12, 4, 0);
    assert_eq!(w.visible, 4);
    assert_eq!((w.first, w.drawn), (4, 1));
    assert!(w.first <= 4 && 4 < w.first + w.drawn);
    for selected in 0..5 {
        for scroll in 0..5 {
            let w = form_window(&heights, 12, selected, scroll);
            assert!(w.first <= selected && selected < w.first + w.drawn, "{selected} {scroll}");
        }
    }
}

#[test]
fn modal_boxes_are_centred_inside_a_border() {
    assert_eq!(yerkoku::layout::modal_area(0, 0, 100, 40, 50, 11), (25, 14, 50, 11));
    assert_eq!(yerkoku::layout::modal_area(2, 1, 30, 10, 50, 11), (4, 3, 26, 6));
    assert_eq!(yerkoku::layout::modal_area(0, 0, 3, 3, 50, 11), (1, 1, 0, 0));
}

#[test]
fn list_windows_follow_the_selection() {
    assert_eq!(yerkoku::widgets::list_builder::list_first(0, 3), 0);
    assert_eq!(yerkoku::widgets::list_builder::list_first(2, 3), 0);
    assert_eq!(yerkoku::widgets::list_builder::list_first(7, 3), 5);
    assert_eq!(yerkoku::widgets::list_builder::list_first(7, 0), 0);
}

#[test]
fn error_boxes_grow_with_their_text_up_to_twenty_rows() {
    assert_eq!(yerkoku::layout::error_modal_height(0, 0), 11);
    assert_eq!(yerkoku::layout::error_modal_height(1, 0), 11);
    assert_eq!(yerkoku::layout::error_modal_height(3, 2), 15);
    assert_eq!(yerkoku::layout::error_modal_height(8, 5), 20);
    assert_eq!(yerkoku::layout::error_modal_height(usize::MAX, usize::MAX), 20);
}
