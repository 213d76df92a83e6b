use superfuse::text::{can_truncate, contains_text, pad_right, parse_u64, signed_decimal_string, truncate};

#[test]
fn parse_u64_reads_plain_digits() {
    assert_eq!(parse_u64("42"), Some(42));
    assert_eq!(parse_u64("0"), Some(0));
    assert_eq!(parse_u64("007"), Some(7));
}

#[test]
fn parse_u64_accepts_a_leading_plus() {
    assert_eq!(parse_u64("+7"), Some(7));
    assert_eq!(parse_u64("+"), None);
}

#[test]
fn parse_u64_refuses_what_from_str_refuses() {
    assert_eq!(parse_u64(""), None);
    assert_eq!(parse_u64("-1"), None);
    assert_eq!(parse_u64(" 1"), None);
    assert_eq!(parse_u64("1 "), None);
    assert_eq!(parse_u64("12a"), None);
    assert_eq!(parse_u64("++1"), None);
}

#[test]
fn parse_u64_stops_at_the_largest_u64() {
    assert_eq!(parse_u64("18446744073709551615"), Some(u64::MAX));
    assert_eq!(parse_u64("18446744073709551616"), None);
    assert_eq!(parse_u64("99999999999999999999x"), None);
}

#[test]
fn parse_u64_agrees_with_std() {
    for s in ["1", "+0", "300", "4294967296", "-0", "", "x", "18446744073709551615", "18446744073709551620"] {
        assert_eq!(parse_u64(s), s.parse::<u64>().ok(), "input {s:?}");
    }
}

#[test]
fn signed_decimal_matches_display() {
    for n in [0i64, 7, 10, 99, 12345, -1, -12, i64::MAX, i64::MIN] {
        assert_eq!(signed_decimal_string(n), n.to_string());
    }
}

#[test]
fn contains_text_finds_substrings() {
    assert!(contains_text("UNIQUE constraint failed: mappings.virtual_path", "UNIQUE constraint"));
    assert!(contains_text("abc", ""));
    assert!(contains_text("abc", "abc"));
    assert!(!contains_text("ab", "abc"));
    assert!(!contains_text("unique constraint", "UNIQUE constraint"));
}

#[test]
fn pad_right_fills_to_width() {
    assert_eq!(pad_right("ID", 6), "ID    ");
    assert_eq!(pad_right("abcdefg", 6), "abcdefg");
    assert_eq!(pad_right("é", 3), "é  ");
    assert_eq!(pad_right("x", 4), format!("{:<4}", "x"));
}

#[test]
fn truncate_keeps_short_text() {
    assert_eq!(truncate("short", 40), "short");
    assert_eq!(truncate(&"a".repeat(40), 40), "a".repeat(40));
}

#[test]
fn truncate_cuts_long_text_with_a_mark() {
    let long = "x".repeat(50);
    let cut = truncate(&long, 40);
    assert_eq!(cut, format!("{}...", "x".repeat(37)));
    assert_eq!(cut.len(), 40);
    assert_eq!(truncate("abcdef", 2), "...");
}

#[test]
fn truncate_checks_character_boundaries() {
    let text = format!("{}é{}", "a".repeat(36), "b".repeat(10));
    // byte 37 falls inside the two bytes of 'é'
    assert!(!can_truncate(&text, 40));
    assert!(can_truncate(&"é".repeat(30), 41));
    assert!(can_truncate("short", 40));
    assert_eq!(truncate(&"é".repeat(30), 41), format!("{}...", "é".repeat(19)));
}
