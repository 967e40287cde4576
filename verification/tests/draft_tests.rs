use yerkoku::blueprint::FieldValue;
use yerkoku::draft::{draft_name_for, prepare_saved_draft, prepare_saved_draft_at, Draft, DraftManager};
use yerkoku::keyed::ValueMap;

fn values() -> ValueMap {
    let mut v = ValueMap::new();
    v.insert("p.name".to_string(), FieldValue::Text("demo".to_string()));
    v
}

#[test]
fn new_drafts_are_created_when_updated() {
    let d = Draft::new_at("n".to_string(), "Backend".to_string(), values(), 2, 3, "2024-05-01 10:00:00".to_string());
    assert_eq!(d.created_at, "2024-05-01 10:00:00");
    assert_eq!(d.updated_at, "2024-05-01 10:00:00");
    assert_eq!((d.current_section, d.selected_field), (2, 3));
    let now = Draft::new("n".to_string(), "Backend".to_string(), values(), 0, 0).expect("the clock reads a time after 1970");
    assert_eq!(now.created_at, now.updated_at);
    assert_eq!(now.created_at.len(), "2024-05-01 10:00:00".len());
}

#[test]
fn saving_over_an_existing_draft_keeps_its_creation_time() {
    let old = Draft::new_at("n".to_string(), "Backend".to_string(), values(), 0, 0, "2024-01-01 00:00:00".to_string());
    let fresh = Draft::new_at("n".to_string(), "Backend".to_string(), values(), 1, 1, "2024-06-01 00:00:00".to_string());
    let saved = prepare_saved_draft_at(&fresh, Some(&old), "2024-06-02 12:00:00".to_string());
    assert_eq!(saved.created_at, "2024-01-01 00:00:00");
    assert_eq!(saved.updated_at, "2024-06-02 12:00:00");
    assert_eq!((saved.current_section, saved.selected_field), (1, 1));
    let first = prepare_saved_draft_at(&fresh, None, "2024-06-02 12:00:00".to_string());
    assert_eq!(first.created_at, "2024-06-01 00:00:00");
    let now = prepare_saved_draft(&fresh, Some(&old)).expect("the clock reads a time after 1970");
    assert_eq!(now.created_at, "2024-01-01 00:00:00");
}

#[test]
fn timestamps_and_copies() {
    let mut d = Draft::new_at("n".to_string(), "B".to_string(), values(), 0, 0, "t0".to_string());
    d.update_timestamp_at("t1".to_string());
    assert_eq!((d.created_at.as_str(), d.updated_at.as_str()), ("t0", "t1"));
    let c = d.duplicate();
    assert_eq!(c.name, d.name);
    assert_eq!(c.values.get(&"p.name".to_string()).map(|v| v.as_str().to_string()), Some("demo".to_string()));
}

#[test]
fn draft_names_and_files() {
    assert_eq!(draft_name_for("Backend Application"), "backend_application_draft");
    assert_eq!(draft_name_for("ÉCOLE App"), "école_app_draft");
    assert_eq!(DraftManager::draft_file_name("backend_application_draft"), "backend_application_draft.json");
    let m = DraftManager::new("/data/drafts".to_string());
    assert_eq!(m.drafts_dir(), "/data/drafts");
}

#[test]
fn value_maps_replace_on_insert() {
    let mut v = ValueMap::new();
    v.insert("a".to_string(), FieldValue::Bool(true));
    v.insert("a".to_string(), FieldValue::Bool(false));
    assert_eq!(v.entries().len(), 1);
    assert!(v.contains_key(&"a".to_string()));
    assert!(!v.contains_key(&"b".to_string()));
    assert_eq!(v.get(&"a".to_string()).map(|x| x.as_bool()), Some(false));
}

#[test]
fn updating_a_draft_stamps_the_current_time() {
    let mut d = Draft::new_at("n".to_string(), "B".to_string(), values(), 0, 0, "old".to_string());
    assert!(d.update_timestamp());
    assert_eq!(d.created_at, "old");
    let t = d.updated_at.as_bytes();
    assert_eq!(t.len(), 19);
    assert_eq!((t[4], t[7], t[10], t[13], t[16]), (b'-', b'-', b' ', b':', b':'));
    assert!(d.updated_at.chars().filter(|c| c.is_ascii_digit()).count() == 14);
}
