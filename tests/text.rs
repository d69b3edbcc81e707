use keyshow::text::{contains_text, same_text};

#[test]
fn same_text_compares_by_characters() {
    assert!(same_text("backspace", "backspace"));
    assert!(same_text("", ""));
    assert!(!same_text("backspace", "backspac"));
    assert!(!same_text("↑", "↓"));
}

#[test]
fn contains_text_finds_substrings() {
    assert!(contains_text("hello", "ell"));
    assert!(contains_text("hello", ""));
    assert!(contains_text("", ""));
    assert!(!contains_text("", "a"));
    assert!(!contains_text("hel", "hello"));
    assert!(contains_text("a↑b", "↑b"));
}
