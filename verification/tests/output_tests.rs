use yerkoku::blueprint::{Blueprint, Field, FieldType, FieldValue, Section};
use yerkoku::form::Form;
use yerkoku::preview::{preview_lines, Tone};
use yerkoku::prompt::{generate_prompt, generate_prompt_at};

fn field(key: &str, label: &str, ty: FieldType, default: FieldValue) -> Field {
    Field {
        key: key.to_string(),
        label: label.to_string(),
        field_type: ty,
        description: String::new(),
        required: false,
        placeholder: String::new(),
        default,
        options: Vec::new(),
        min: None,
        max: None,
        rows: None,
        search_crate: None,
        crate_name: None,
        target_list_key: None,
        hidden: false,
        button_text: None,
        action: None,
        registry: "crates.io".to_string(),
    }
}

fn blueprint() -> Blueprint {
    let mut tests = field("p.tests", "Tests", FieldType::Checkbox, FieldValue::Bool(true));
    tests.description = "unit".to_string();
    Blueprint {
        name: "Sample App".to_string(),
        description: "A sample".to_string(),
        icon: "*".to_string(),
        sections: vec![Section {
            title: "Basics".to_string(),
            icon: "#".to_string(),
            description: "Start here".to_string(),
            fields: vec![
                field("p.name", "Name", FieldType::Text, FieldValue::Text("demo".to_string())),
                tests,
                field("p.lint", "Lint", FieldType::Checkbox, FieldValue::Bool(false)),
                field("p.notes", "Notes", FieldType::Textarea, FieldValue::Text("one\ntwo".to_string())),
                field(
                    "p.features",
                    "Features",
                    FieldType::ListBuilder,
                    FieldValue::Array(vec!["auth".to_string(), "api".to_string()]),
                ),
                field("p.empty", "Empty", FieldType::Text, FieldValue::Empty),
                field(
                    "p.go",
                    "Go",
                    FieldType::ActionButton,
                    FieldValue::Empty,
                ),
            ],
        }],
    }
}

const TAIL: &str = "---\n\n## Output Requirements\n\n1. Show the complete project structure\n2. Provide all source files in fenced code blocks\n3. Include configuration files\n4. Add a comprehensive README.md\n5. Include setup and usage instructions\n6. If response is too long, split into parts\n7. Search the web and use the most up-to-date dependencies & technologies\n\nGenerate the complete application now.\n";

#[test]
fn prompt_lists_filled_fields_in_order() {
    let bp = blueprint();
    let mut form = Form::new(&bp);
    form.add_to_target_list("tech.additional_crates", "serde v1.0.200".to_string());
    let prompt = generate_prompt_at(&bp, &form, "2024-01-02 03:04:05");
    let expected = String::new()
        + "# Sample App Development Prompt\n\n"
        + "Generated: 2024-01-02 03:04:05 UTC\n\n"
        + "---\n\n"
        + "A sample\n\n"
        + "You are a senior developer. Create a production-ready application with the following specifications:\n\n"
        + "- **Additional Crates:**\n"
        + "  - serde v1.0.200\n"
        + "## # Basics\n\n"
        + "Start here\n\n"
        + "- **Name:** demo\n"
        + "- Tests (unit)\n"
        + "### Notes\n\n```\none\ntwo\n```\n\n"
        + "### Features\n\n- auth\n- api\n\n"
        + "\n"
        + TAIL;
    assert_eq!(prompt, expected);
}

#[test]
fn prompt_with_current_time_has_the_same_body() {
    let bp = blueprint();
    let form = Form::new(&bp);
    let prompt = generate_prompt(&bp, &form).expect("the clock reads a time after 1970");
    assert!(prompt.starts_with("# Sample App Development Prompt\n\nGenerated: "));
    assert!(prompt.ends_with(TAIL));
    assert!(prompt.contains("- **Name:** demo\n"));
}

#[test]
fn preview_shows_headings_and_filled_fields() {
    let bp = blueprint();
    let form = Form::new(&bp);
    let lines = preview_lines(&bp, &form);
    let rule: String = "─".repeat(50);
    let expected: Vec<Vec<(String, Tone)>> = vec![
        vec![("* Sample App".to_string(), Tone::Accent)],
        vec![],
        vec![("# Basics".to_string(), Tone::Warning)],
        vec![(rule, Tone::Border)],
        vec![("  • ".to_string(), Tone::Accent), ("Name: ".to_string(), Tone::Dim), ("demo".to_string(), Tone::Text)],
        vec![("  ✓ ".to_string(), Tone::Success), ("Tests".to_string(), Tone::Text)],
        vec![("  Notes:".to_string(), Tone::Dim)],
        vec![("    ".to_string(), Tone::Dim), ("one".to_string(), Tone::Text)],
        vec![("    ".to_string(), Tone::Dim), ("two".to_string(), Tone::Text)],
        vec![("  Features:".to_string(), Tone::Dim)],
        vec![("    • ".to_string(), Tone::Accent), ("auth".to_string(), Tone::Text)],
        vec![("    • ".to_string(), Tone::Accent), ("api".to_string(), Tone::Text)],
        vec![],
    ];
    assert_eq!(lines, expected);
}

#[test]
fn prompt_stamp_is_a_utc_time() {
    let bp = blueprint();
    let form = Form::new(&bp);
    let prompt = generate_prompt(&bp, &form).expect("the clock reads a time after 1970");
    let head = "# Sample App Development Prompt\n\nGenerated: ";
    let stamp = &prompt[head.len()..head.len() + 19];
    let b = stamp.as_bytes();
    assert_eq!((b[4], b[7], b[10], b[13], b[16]), (b'-', b'-', b' ', b':', b':'));
    assert!(stamp.chars().filter(|c| c.is_ascii_digit()).count() == 14);
    assert!(prompt[head.len() + 19..].starts_with(" UTC\n\n---\n\n"));
}

#[test]
fn empty_values_add_nothing_to_the_prompt() {
    let bp = blueprint();
    let mut with_blank = Form::new(&bp);
    with_blank.set_current_value(FieldValue::Text("   ".to_string()));
    let mut without = Form::new(&bp);
    without.set_current_value(FieldValue::Empty);
    let a = generate_prompt_at(&bp, &with_blank, "2024-01-02 03:04:05");
    let b = generate_prompt_at(&bp, &without, "2024-01-02 03:04:05");
    assert_eq!(a, b);
    assert!(!a.contains("- **Name:**"));
    assert!(!a.contains("Lint"));
}
