use scrollsplit::text::{join_strings, same_text, to_ascii_lowercase, trimmed};

#[test]
fn lowercase_touches_only_ascii_letters() {
    assert_eq!(to_ascii_lowercase("AbC-Äß1"), "abc-Äß1");
    assert_eq!(to_ascii_lowercase(&to_ascii_lowercase("MiXeD")), to_ascii_lowercase("MiXeD"));
}

#[test]
fn trim_matches_std() {
    for s in ["  x  ", "\t\nline\r\n", "", "   ", "\u{a0}a b\u{3000}", "no-space"] {
        assert_eq!(trimmed(s), s.trim());
    }
}

#[test]
fn same_text_compares_characters() {
    assert!(same_text("abc", "abc"));
    assert!(!same_text("abc", "abd"));
    assert!(!same_text("abc", "ab"));
}

#[test]
fn join_puts_separator_between() {
    let items = vec!["a".to_string(), "b".to_string(), "c".to_string()];
    assert_eq!(join_strings(&items, ", "), "a, b, c");
    assert_eq!(join_strings(&Vec::new(), ", "), "");
    assert_eq!(join_strings(&vec!["only".to_string()], " "), "only");
}
