use nos_autoclicker::text::{decimal_string, is_blank, parse_u32, trim};

#[test]
fn test_decimal_string_values() {
    assert_eq!(decimal_string(0), "0");
    assert_eq!(decimal_string(7), "7");
    assert_eq!(decimal_string(1000), "1000");
    assert_eq!(decimal_string(u64::MAX), u64::MAX.to_string());
}

#[test]
fn test_trim_unicode_whitespace() {
    assert_eq!(trim("  a b \t\n"), "a b");
    assert_eq!(trim("\u{3000}x\u{00A0}"), "x");
    assert_eq!(trim("   "), "");
    assert_eq!(trim(""), "");
}

#[test]
fn test_is_blank() {
    assert!(is_blank(""));
    assert!(is_blank(" \u{2028}\t"));
    assert!(!is_blank(" a "));
}

#[test]
fn test_parse_u32_like_std() {
    for s in ["0", "10", "+7", "4294967295", "4294967296", "", "+", "-1", " 5", "5 ", "1a", "007"] {
        assert_eq!(parse_u32(s), s.parse::<u32>().ok(), "input {s:?}");
    }
}
