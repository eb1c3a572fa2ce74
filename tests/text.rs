use sherdog::error::{ErrorKind, SherdogError};
use sherdog::text::{contains, count_from_text, cut_method, parse_u8, strip_delimiters, trim_text};

#[test]
fn trim_removes_unicode_space() {
    assert_eq!(trim_text("  a b \n"), "a b");
    assert_eq!(trim_text("\u{A0}x\u{3000}"), "x");
    assert_eq!(trim_text(" \t "), "");
}

#[test]
fn parse_u8_follows_from_str() {
    assert_eq!(parse_u8("0"), Some(0));
    assert_eq!(parse_u8("+7"), Some(7));
    assert_eq!(parse_u8("255"), Some(255));
    assert_eq!(parse_u8("007"), Some(7));
    assert_eq!(parse_u8("256"), None);
    assert_eq!(parse_u8("99999999999"), None);
    assert_eq!(parse_u8(""), None);
    assert_eq!(parse_u8("+"), None);
    assert_eq!(parse_u8("-1"), None);
    assert_eq!(parse_u8("1a"), None);
    assert_eq!(parse_u8(" 1"), None);
}

#[test]
fn counts_are_fail_soft() {
    assert_eq!(count_from_text(" 12 "), 12);
    assert_eq!(count_from_text("12 wins"), 0);
    assert_eq!(count_from_text(""), 0);
}

#[test]
fn strip_delimiters_edge_cases() {
    assert_eq!(strip_delimiters("(The Eagle)"), "The Eagle");
    assert_eq!(strip_delimiters("\"Bones\""), "Bones");
    assert_eq!(strip_delimiters("()"), "");
    assert_eq!(strip_delimiters("("), "(");
    assert_eq!(strip_delimiters(""), "");
    assert_eq!(strip_delimiters("«é»"), "é");
}

#[test]
fn cut_method_keeps_text_without_parenthesis() {
    assert_eq!(cut_method("Submission (Rear-Naked Choke) Marc Goddard"), "Submission (Rear-Naked Choke)");
    assert_eq!(cut_method("Decision"), "Decision");
    assert_eq!(cut_method(")rest"), ")");
    assert_eq!(cut_method(""), "");
}

#[test]
fn contains_finds_substrings() {
    assert!(contains("/url?q=https://www.sherdog.com/fighter/A", "/fighter/"));
    assert!(!contains("/url?q=https://www.sherdog.com/fighters", "/fighter/"));
    assert!(contains("abc", ""));
    assert!(!contains("ab", "abc"));
}

#[test]
fn errors_carry_kind_and_message() {
    let e = SherdogError::new("No sherdog link found");
    assert_eq!(e.kind(), ErrorKind::NotFound);
    assert_eq!(e.message(), "No sherdog link found");
    let e = SherdogError::with_kind(ErrorKind::Transport, "connection refused");
    assert_eq!(e.kind(), ErrorKind::Transport);
    assert_eq!(e.message(), "connection refused");
}
