use psh_front::text::{contains_str, is_white_char, list_contains, str_equal, trim};

#[test]
fn trims_unicode_whitespace() {
    assert_eq!(trim("  work \t"), "work");
    assert_eq!(trim("\u{3000}a b\u{a0}"), "a b");
    assert_eq!(trim("   "), "");
    assert_eq!(trim(""), "");
    assert_eq!(trim("x"), "x");
}

#[test]
fn whitespace_class_matches_std() {
    for c in ['\t', '\n', ' ', '\u{85}', '\u{a0}', '\u{2003}', '\u{3000}', 'a', '_', '\u{200b}'] {
        assert_eq!(is_white_char(c), c.is_whitespace());
    }
}

#[test]
fn substring_search() {
    assert!(contains_str("network", "work"));
    assert!(contains_str("work", ""));
    assert!(contains_str("", ""));
    assert!(!contains_str("wo", "work"));
    assert!(!contains_str("Work", "work"));
    assert!(contains_str("héllo", "él"));
}

#[test]
fn string_equality_and_membership() {
    assert!(str_equal("abc", "abc"));
    assert!(!str_equal("abc", "abd"));
    assert!(!str_equal("abc", "ab"));
    let v = vec!["a".to_string(), "bc".to_string()];
    assert!(list_contains(&v, "bc"));
    assert!(!list_contains(&v, "b"));
}
