use deskmon::textutil::{replace_char_text, text_contains, text_equals};

#[test]
fn substring_search_over_text() {
    assert!(text_contains("hello world", "world"));
    assert!(text_contains("hello world", "hello"));
    assert!(text_contains("hello world", "o w"));
    assert!(text_contains("abc", ""));
    assert!(text_contains("", ""));
    assert!(!text_contains("", "a"));
    assert!(!text_contains("abc", "abcd"));
    assert!(!text_contains("hello world", "worlds"));
}

#[test]
fn single_character_replacement() {
    assert_eq!(replace_char_text("a'b'c", '\'', "''"), "a''b''c");
    assert_eq!(replace_char_text("no change", 'x', "y"), "no change");
    assert_eq!(replace_char_text("", 'x', "y"), "");
    assert_eq!(replace_char_text("xxx", 'x', ""), "");
}

#[test]
fn text_equality_by_content() {
    assert!(text_equals("abc", "abc"));
    assert!(!text_equals("abc", "abd"));
    assert!(!text_equals("abc", "abcd"));
}
