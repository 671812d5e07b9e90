use orion_ai::text::{contains, join, parse_u32, split_lines, split_words, trim, unsigned_text};

#[test]
fn words_are_split_at_white_space() {
    assert_eq!(split_words("  ps  aux\t-e \n"), vec!["ps", "aux", "-e"]);
    assert!(split_words("   ").is_empty());
}

#[test]
fn lines_drop_their_endings() {
    assert_eq!(split_lines("a\r\nb\n\nc"), vec!["a", "b", "", "c"]);
    assert_eq!(split_lines("a\n"), vec!["a"]);
    assert!(split_lines("").is_empty());
    assert_eq!(split_lines("a\r"), vec!["a\r"]);
}

#[test]
fn numbers_round_trip() {
    assert_eq!(parse_u32("1234"), Some(1234));
    assert_eq!(parse_u32("+7"), Some(7));
    assert_eq!(parse_u32("4294967295"), Some(4294967295));
    assert_eq!(parse_u32("4294967296"), None);
    assert_eq!(parse_u32(""), None);
    assert_eq!(parse_u32("12a"), None);
    assert_eq!(unsigned_text(0), "0");
    assert_eq!(unsigned_text(18446744073709551615), "18446744073709551615");
}

#[test]
fn trim_join_contains() {
    assert_eq!(trim("  a b \n"), "a b");
    assert_eq!(join(&vec!["a".to_string(), "b".to_string()], ", "), "a, b");
    assert!(contains("hello world", "lo w"));
    assert!(!contains("hello", "world"));
    assert!(contains("hello", ""));
}
