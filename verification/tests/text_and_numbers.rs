//! Text helpers and decimal numbers.

use stump_sync::clock::{epoch_secs, now_epoch_secs};
use stump_sync::decimal::{format_i64, parse_i64};
use stump_sync::text::{
    base_name, chars_of, concat2, concat3, contains_text, join_texts, same_text,
    string_of, text_precedes, trimmed_end_slashes, trimmed_start_slashes,
};

#[test]
fn slices_and_joins() {
    let chars = chars_of("héllo");
    assert_eq!(chars.len(), 5);
    assert_eq!(string_of(&chars, 1, 3), "él");
    assert_eq!(string_of(&chars, 2, 2), "");
    assert!(same_text("abc", "abc"));
    assert!(!same_text("abc", "abd"));
    assert_eq!(concat2("a", "b"), "ab");
    assert_eq!(concat3("a", "", "c"), "ac");
    assert_eq!(join_texts(&vec![], "; "), "");
    assert_eq!(join_texts(&vec!["a".into()], "; "), "a");
    assert_eq!(join_texts(&vec!["a".into(), "b".into(), "c".into()], "; "), "a; b; c");
}

#[test]
fn slashes_and_components() {
    assert_eq!(trimmed_end_slashes("/a//"), "/a");
    assert_eq!(trimmed_end_slashes("///"), "");
    assert_eq!(trimmed_start_slashes("//a/"), "a/");
    assert_eq!(base_name("a/b/c.cbz"), "c.cbz");
    assert_eq!(base_name("c.cbz"), "c.cbz");
    assert_eq!(base_name("a/"), "");
    assert_eq!(base_name(""), "");
}

#[test]
fn searching_and_ordering() {
    assert!(contains_text("abcabd", "abd"));
    assert!(!contains_text("abcab", "abd"));
    assert!(contains_text("abc", ""));
    assert!(!contains_text("", "a"));
    for (a, b) in [("a", "b"), ("a", "ab"), ("", "a"), ("Z", "a"), ("é", "日"), ("ab", "b")] {
        assert_eq!(text_precedes(a, b), a < b);
        assert_eq!(text_precedes(b, a), b < a);
        assert!(text_precedes(a, b));
        assert!(!text_precedes(a, a));
    }
}

#[test]
fn numbers_read_back() {
    for n in [0, 1, -1, 9, 10, -10, 1700000000, i64::MAX, i64::MIN] {
        assert_eq!(format_i64(n), n.to_string());
        assert_eq!(parse_i64(&format_i64(n)), Some(n));
    }
}

#[test]
fn numbers_parse_like_the_standard_library() {
    for s in [
        "", "+", "-", "+5", "-0", "007", "12a", " 1", "1 ", "9223372036854775807",
        "9223372036854775808", "-9223372036854775808", "-9223372036854775809",
        "99999999999999999999999", "٣", "2026-05-20T10:00:00Z",
    ] {
        assert_eq!(parse_i64(s), s.parse::<i64>().ok(), "{s}");
    }
}

#[test]
fn clock_counts_from_the_epoch() {
    assert_eq!(epoch_secs(Some(1700000000)), 1700000000);
    assert_eq!(epoch_secs(None), 0);
    assert!(now_epoch_secs() > 1700000000);
}
