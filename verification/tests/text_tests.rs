use election_bot::text::{char_is_whitespace, decimal_string, parse_digits, split_whitespace, starts_with, trim_start_matches};

#[test]
fn split_whitespace_drops_runs_of_white_space() {
    let words = split_whitespace("  !nominate \t <@123>\n x  y ");
    assert_eq!(words, vec!["!nominate", "<@123>", "x", "y"]);
}

#[test]
fn split_whitespace_uses_unicode_white_space() {
    let words = split_whitespace("a\u{3000}b\u{00A0}c\u{2028}d");
    assert_eq!(words, vec!["a", "b", "c", "d"]);
}

#[test]
fn split_whitespace_of_blank_text_is_empty() {
    assert!(split_whitespace("").is_empty());
    assert!(split_whitespace(" \t\n ").is_empty());
}

#[test]
fn split_whitespace_agrees_with_std() {
    for s in ["", "one", " lead", "trail ", "a  b\tc", "ünï cödé  ✓", "\u{85}x\u{85}"] {
        let expected: Vec<String> = s.split_whitespace().map(|w| w.to_string()).collect();
        assert_eq!(split_whitespace(s), expected);
    }
}

#[test]
fn starts_with_checks_the_prefix() {
    assert!(starts_with("!ping", "!"));
    assert!(starts_with("!ping", ""));
    assert!(!starts_with("ping", "!"));
    assert!(!starts_with("!", "!!"));
}

#[test]
fn trim_start_matches_removes_every_leading_copy() {
    assert_eq!(trim_start_matches("!!!ping", "!"), "ping");
    assert_eq!(trim_start_matches("abab-x", "ab"), "-x");
    assert_eq!(trim_start_matches("ping", "!"), "ping");
    assert_eq!(trim_start_matches("ping", ""), "ping");
    assert_eq!(trim_start_matches("!!", "!"), "");
}

#[test]
fn decimal_string_writes_like_display() {
    for n in [0u64, 7, 10, 1234567890, u64::MAX] {
        assert_eq!(decimal_string(n), n.to_string());
    }
}

#[test]
fn parse_digits_reads_digit_strings() {
    assert_eq!(parse_digits("0"), Some(0));
    assert_eq!(parse_digits("007"), Some(7));
    assert_eq!(parse_digits("18446744073709551615"), Some(u64::MAX));
}

#[test]
fn parse_digits_refuses_other_strings() {
    assert_eq!(parse_digits(""), None);
    assert_eq!(parse_digits("12a"), None);
    assert_eq!(parse_digits("18446744073709551616"), None);
    assert_eq!(parse_digits("99999999999999999999999"), None);
}

#[test]
fn decimal_roundtrip_on_values() {
    for n in [0u64, 1, 9, 10, 99, 100, 4242424242, u64::MAX] {
        assert_eq!(parse_digits(&decimal_string(n)), Some(n));
    }
}

#[test]
fn trim_start_matches_agrees_with_std() {
    for (s, p) in [("!!!ping", "!"), ("ping", ""), ("", ""), ("", "!"), ("abab-x", "ab"), ("aaa", "aa"), ("ünï", "ü")] {
        assert_eq!(trim_start_matches(s, p), s.trim_start_matches(p), "{:?} {:?}", s, p);
    }
}

#[test]
fn starts_with_agrees_with_std() {
    for (s, p) in [("!ping", "!"), ("", ""), ("", "!"), ("ünï", "ü"), ("ab", "abc")] {
        assert_eq!(starts_with(s, p), s.starts_with(p), "{:?} {:?}", s, p);
    }
}

#[test]
fn parse_digits_agrees_with_std_on_digit_strings() {
    for s in ["0", "1", "000123", "4294967296", "18446744073709551615", "18446744073709551616", "123456789012345678901234567890"] {
        assert_eq!(parse_digits(s), s.parse::<u64>().ok(), "{:?}", s);
    }
}

#[test]
fn white_space_agrees_with_std_on_every_char() {
    for u in 0u32..=0x10FFFF {
        if let Some(c) = char::from_u32(u) {
            assert_eq!(char_is_whitespace(c), c.is_whitespace(), "U+{:04X}", u);
        }
    }
}
