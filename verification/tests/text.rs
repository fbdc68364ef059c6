use rustscan_rs::text::{contains_char, is_blank, str_eq, trim, u64_to_decimal};

#[test]
fn decimal_text() {
    assert_eq!(u64_to_decimal(0), "0");
    assert_eq!(u64_to_decimal(7), "7");
    assert_eq!(u64_to_decimal(65536), "65536");
    assert_eq!(u64_to_decimal(u64::MAX), u64::MAX.to_string());
}

#[test]
fn trimming_matches_str_trim() {
    for s in ["", "  ", " a ", "\u{3000}x y\u{85}", "\tz\n", "ab", " \u{a0}é \u{2009}"] {
        assert_eq!(trim(s), s.trim(), "{s:?}");
        assert_eq!(is_blank(s), s.trim().is_empty(), "{s:?}");
    }
}

#[test]
fn character_search_and_equality() {
    assert!(contains_char("10.0.0.0/8", '/'));
    assert!(!contains_char("host.example", '/'));
    assert!(str_eq("Unknown", "Unknown"));
    assert!(!str_eq("Unknown", "Unknowns"));
    assert!(!str_eq("abc", "abd"));
}
