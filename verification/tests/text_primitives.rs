use poe2_drpc::text::{
    contains_text, parse_u16, parse_u64, split_lines, strip_prefix, text_eq, u64_to_decimal,
};

#[test]
fn parse_reads_plain_numerals() {
    assert_eq!(parse_u64("0"), Some(0));
    assert_eq!(parse_u64("7"), Some(7));
    assert_eq!(parse_u64("80"), Some(80));
    assert_eq!(parse_u64("1234567890"), Some(1234567890));
    assert_eq!(parse_u16("80"), Some(80));
}

#[test]
fn parse_accepts_leading_zeros_and_one_plus() {
    assert_eq!(parse_u64("007"), Some(7));
    assert_eq!(parse_u64("+5"), Some(5));
    assert_eq!(parse_u16("+065535"), Some(65535));
    assert_eq!(parse_u64("00000000000000000000000000001"), Some(1));
}

#[test]
fn parse_rejects_what_is_no_numeral() {
    assert_eq!(parse_u64(""), None);
    assert_eq!(parse_u64("+"), None);
    assert_eq!(parse_u64("++5"), None);
    assert_eq!(parse_u64("-5"), None);
    assert_eq!(parse_u64("5+"), None);
    assert_eq!(parse_u64("12a"), None);
    assert_eq!(parse_u64("a12"), None);
    assert_eq!(parse_u64(" 12"), None);
    assert_eq!(parse_u64("1_000"), None);
    assert_eq!(parse_u64("\u{0663}"), None);
    assert_eq!(parse_u16("x"), None);
}

#[test]
fn parse_stops_at_the_limit() {
    assert_eq!(parse_u16("65535"), Some(u16::MAX));
    assert_eq!(parse_u16("65536"), None);
    assert_eq!(parse_u16("99999"), None);
    assert_eq!(parse_u64("18446744073709551615"), Some(u64::MAX));
    assert_eq!(parse_u64("18446744073709551616"), None);
    assert_eq!(parse_u64("99999999999999999999999999"), None);
    assert_eq!(parse_u64("18446744073709551616x"), None);
}

#[test]
fn parse_agrees_with_std() {
    let samples = [
        "", "+", "-", "0", "+0", "-0", "1", "42", "+42", "65535", "65536", "0065535", "abc",
        "4 2", "18446744073709551615", "18446744073709551616", "٤٢", "4２",
    ];
    for s in samples {
        assert_eq!(parse_u16(s), s.parse::<u16>().ok());
        assert_eq!(parse_u64(s), s.parse::<u64>().ok());
    }
}

#[test]
fn decimal_writes_numerals() {
    assert_eq!(u64_to_decimal(0), "0");
    assert_eq!(u64_to_decimal(9), "9");
    assert_eq!(u64_to_decimal(10), "10");
    assert_eq!(u64_to_decimal(80), "80");
    assert_eq!(u64_to_decimal(1203), "1203");
    assert_eq!(u64_to_decimal(u64::MAX), "18446744073709551615");
}

#[test]
fn decimal_round_trips() {
    for n in [0u64, 1, 9, 10, 99, 100, 65535, 65536, 4294967296, u64::MAX] {
        assert_eq!(parse_u64(&u64_to_decimal(n)), Some(n));
    }
}

#[test]
fn lines_end_at_line_feeds() {
    assert_eq!(split_lines("a\nb\n"), vec!["a", "b"]);
    assert_eq!(split_lines("a\nb"), vec!["a", "b"]);
    assert_eq!(split_lines("one line"), vec!["one line"]);
}

#[test]
fn lines_of_nothing() {
    assert_eq!(split_lines(""), Vec::<String>::new());
}

#[test]
fn empty_lines_count_unless_last() {
    assert_eq!(split_lines("\n"), vec![""]);
    assert_eq!(split_lines("\n\n"), vec!["", ""]);
    assert_eq!(split_lines("a\n\nb"), vec!["a", "", "b"]);
    assert_eq!(split_lines("\na"), vec!["", "a"]);
}

#[test]
fn lines_keep_carriage_returns_and_unicode() {
    assert_eq!(split_lines("a\r\nb\r\n"), vec!["a\r", "b\r"]);
    assert_eq!(split_lines("héllo\nwörld"), vec!["héllo", "wörld"]);
}

#[test]
fn text_equality() {
    assert!(text_eq("", ""));
    assert!(text_eq("abc", "abc"));
    assert!(text_eq("héllo", "héllo"));
    assert!(!text_eq("abc", "abd"));
    assert!(!text_eq("abc", "ab"));
    assert!(!text_eq("ab", "abc"));
    assert!(!text_eq("", "a"));
    assert!(!text_eq("Abc", "abc"));
}

#[test]
fn prefix_is_stripped_once() {
    assert_eq!(strip_prefix("C_G1_town", "C_"), Some("G1_town".to_string()));
    assert_eq!(strip_prefix("C_C_x", "C_"), Some("C_x".to_string()));
    assert_eq!(strip_prefix("C_", "C_"), Some(String::new()));
    assert_eq!(strip_prefix("abc", ""), Some("abc".to_string()));
    assert_eq!(strip_prefix("", ""), Some(String::new()));
}

#[test]
fn prefix_must_be_there() {
    assert_eq!(strip_prefix("G1_town", "C_"), None);
    assert_eq!(strip_prefix("C", "C_"), None);
    assert_eq!(strip_prefix("", "C_"), None);
    assert_eq!(strip_prefix("c_G1", "C_"), None);
    assert_eq!(strip_prefix("xC_G1", "C_"), None);
}

#[test]
fn list_membership() {
    let list = vec!["Bob".to_string(), "Carol".to_string()];
    assert!(contains_text(&list, "Bob"));
    assert!(contains_text(&list, "Carol"));
    assert!(!contains_text(&list, "Alice"));
    assert!(!contains_text(&list, "bob"));
    assert!(!contains_text(&[], "Bob"));
}
