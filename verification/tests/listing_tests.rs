use yerkoku::blueprint::Blueprint;
use yerkoku::draft::Draft;
use yerkoku::keyed::ValueMap;
use yerkoku::listing::{json_stem, same_text, sort_blueprints, sort_drafts, str_less};

fn bp(name: &str, description: &str) -> Blueprint {
    Blueprint { name: name.to_string(), description: description.to_string(), icon: String::new(), sections: Vec::new() }
}

fn draft(name: &str, updated: &str) -> (String, Draft) {
    let d = Draft::new_at(
        name.to_string(),
        "Backend".to_string(),
        ValueMap::new(),
        0,
        0,
        updated.to_string(),
    );
    (name.to_string(), d)
}

#[test]
fn strings_order_like_std() {
    let pairs = [("a", "b"), ("ab", "a"), ("", "a"), ("a", "a"), ("Z", "a"), ("é", "z"), ("abc", "abd")];
    for (x, y) in pairs {
        assert_eq!(str_less(x, y), x < y, "{x} < {y}");
        assert_eq!(str_less(y, x), y < x, "{y} < {x}");
    }
}

#[test]
fn same_text_compares_contents() {
    assert!(same_text("abc", "abc"));
    assert!(!same_text("abc", "abd"));
    assert!(!same_text("abc", "ab"));
    assert!(same_text("", ""));
}

#[test]
fn blueprints_sorted_by_name_stably() {
    let input = vec![bp("Mobile", "1"), bp("Backend", "2"), bp("Frontend", "3"), bp("Backend", "4")];
    let sorted = sort_blueprints(input);
    let names: Vec<(&str, &str)> = sorted.iter().map(|b| (b.name.as_str(), b.description.as_str())).collect();
    assert_eq!(names, vec![("Backend", "2"), ("Backend", "4"), ("Frontend", "3"), ("Mobile", "1")]);
}

#[test]
fn drafts_sorted_most_recent_first_stably() {
    let input = vec![
        draft("old", "2024-01-01 10:00:00"),
        draft("new", "2024-03-01 09:00:00"),
        draft("mid", "2024-02-01 00:00:00"),
        draft("new_too", "2024-03-01 09:00:00"),
    ];
    let sorted = sort_drafts(input);
    let names: Vec<&str> = sorted.iter().map(|(n, _)| n.as_str()).collect();
    assert_eq!(names, vec!["new", "new_too", "mid", "old"]);
}

#[test]
fn empty_listings_stay_empty() {
    assert!(sort_blueprints(Vec::new()).is_empty());
    assert!(sort_drafts(Vec::new()).is_empty());
}

#[test]
fn json_files_are_recognised_by_extension() {
    assert_eq!(json_stem("backend.json"), Some("backend".to_string()));
    assert_eq!(json_stem("a.b.json"), Some("a.b".to_string()));
    assert_eq!(json_stem("..json"), Some(".".to_string()));
    assert_eq!(json_stem(".json"), None);
    assert_eq!(json_stem("notes.txt"), None);
    assert_eq!(json_stem("backend.JSON"), None);
    assert_eq!(json_stem("json"), None);
    for name in ["x.json", ".json", "y.jso", "z.json.bak"] {
        let p = std::path::Path::new(name);
        let by_std = p.extension().and_then(|e| e.to_str()) == Some("json");
        assert_eq!(json_stem(name).is_some(), by_std, "{name}");
    }
}

#[test]
fn default_blueprints_are_written_when_needed() {
    assert!(yerkoku::listing::needs_init(false, false, true));
    assert!(yerkoku::listing::needs_init(true, true, true));
    assert!(yerkoku::listing::needs_init(true, false, false));
    assert!(!yerkoku::listing::needs_init(true, false, true));
}
