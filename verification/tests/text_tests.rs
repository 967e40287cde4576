use yerkoku::preview::split_lines;
use yerkoku::text::{
    char_utf8_len, decimal_string, is_blank, join_strings, next_char_boundary, owned,
    prev_char_boundary, replace_spaces, trimmed,
};

#[test]
fn concatenation_keeps_order() {
    assert_eq!(owned("abc"), "abc");
    assert_eq!(yerkoku::text::concat("ab", "cd"), "abcd");
    assert_eq!(yerkoku::text::concat3("a", "-", "b"), "a-b");
}

#[test]
fn utf8_widths_of_chars() {
    assert_eq!(char_utf8_len('a'), 1);
    assert_eq!(char_utf8_len('ñ'), 2);
    assert_eq!(char_utf8_len('€'), 3);
    assert_eq!(char_utf8_len('🦀'), 4);
}

#[test]
fn char_boundaries_skip_multibyte_chars() {
    let s = "a€b";
    assert_eq!(prev_char_boundary(s, 4), 1);
    assert_eq!(prev_char_boundary(s, 1), 0);
    assert_eq!(prev_char_boundary(s, 0), 0);
    assert_eq!(next_char_boundary(s, 1), 4);
    assert_eq!(next_char_boundary(s, 4), 5);
    assert_eq!(next_char_boundary(s, 5), 5);
}

#[test]
fn blank_and_trimmed_use_unicode_whitespace() {
    assert!(is_blank(""));
    assert!(is_blank(" \t\n\u{3000}"));
    assert!(!is_blank(" x "));
    assert_eq!(trimmed("  hello world \n"), "hello world");
    assert_eq!(trimmed("\u{2003}x\u{2003}"), "x");
    assert_eq!(trimmed("   "), "");
}

#[test]
fn spaces_become_underscores() {
    assert_eq!(replace_spaces("my new app"), "my_new_app");
    assert_eq!(replace_spaces("none"), "none");
}

#[test]
fn joining_puts_separator_between_items() {
    let items = vec!["a".to_string(), "b".to_string(), "c".to_string()];
    assert_eq!(join_strings(&items, ", "), "a, b, c");
    assert_eq!(join_strings(&Vec::new(), ", "), "");
    assert_eq!(join_strings(&vec!["only".to_string()], ", "), "only");
}

#[test]
fn decimal_strings() {
    assert_eq!(decimal_string(0), "0");
    assert_eq!(decimal_string(7), "7");
    assert_eq!(decimal_string(1024), "1024");
    assert_eq!(decimal_string(usize::MAX), usize::MAX.to_string());
}

#[test]
fn lines_split_like_str_lines() {
    assert_eq!(split_lines("a\nb\r\nc"), vec!["a".to_string(), "b".to_string(), "c".to_string()]);
    assert_eq!(split_lines("a\n"), vec!["a".to_string()]);
    assert_eq!(split_lines("a\n\nb"), vec!["a".to_string(), String::new(), "b".to_string()]);
    assert!(split_lines("").is_empty());
    let text = "x\r\n\ny\n";
    let expected: Vec<String> = text.lines().map(|l| l.to_string()).collect();
    assert_eq!(split_lines(text), expected);
}

#[test]
fn whitespace_agrees_with_std_on_every_char() {
    for u in 0u32..=0x10FFFF {
        if let Some(c) = char::from_u32(u) {
            let mut s = String::new();
            s.push(c);
            assert_eq!(is_blank(&s), c.is_whitespace(), "U+{u:04X}");
        }
    }
}
