use bearer_auth::config::Configuration;
use bearer_auth::text::{
    decimal_string, parse_i64, signed_decimal_string, starts_with, text_eq, without_first,
};

#[test]
fn decimal_string_writes_plain_numerals() {
    assert_eq!(decimal_string(0), "0");
    assert_eq!(decimal_string(7), "7");
    assert_eq!(decimal_string(10), "10");
    assert_eq!(decimal_string(42), "42");
    assert_eq!(decimal_string(1000), "1000");
    assert_eq!(decimal_string(1234567890), "1234567890");
    assert_eq!(decimal_string(u32::MAX), "4294967295");
}

#[test]
fn decimal_string_agrees_with_the_standard_library() {
    for n in (0..200_000u32).step_by(37) {
        assert_eq!(decimal_string(n), n.to_string());
    }
}

#[test]
fn parse_i64_reads_signed_numerals() {
    assert_eq!(parse_i64("0"), Some(0));
    assert_eq!(parse_i64("3600"), Some(3600));
    assert_eq!(parse_i64("+3600"), Some(3600));
    assert_eq!(parse_i64("-3600"), Some(-3600));
    assert_eq!(parse_i64("-0"), Some(0));
    assert_eq!(parse_i64("007"), Some(7));
    assert_eq!(parse_i64("9223372036854775807"), Some(i64::MAX));
    assert_eq!(parse_i64("+9223372036854775807"), Some(i64::MAX));
    assert_eq!(parse_i64("-9223372036854775808"), Some(i64::MIN));
    assert_eq!(parse_i64("-9223372036854775807"), Some(i64::MIN + 1));
    assert_eq!(parse_i64("00000000000000000000000000000000000000012"), Some(12));
}

#[test]
fn parse_i64_refuses_what_does_not_fit() {
    assert_eq!(parse_i64("9223372036854775808"), None);
    assert_eq!(parse_i64("-9223372036854775809"), None);
    assert_eq!(parse_i64("18446744073709551616"), None);
    assert_eq!(parse_i64("99999999999999999999999999999999999999999"), None);
    assert_eq!(parse_i64("-99999999999999999999999999999999999999999"), None);
}

#[test]
fn parse_i64_refuses_what_is_no_numeral() {
    for text in ["", "+", "-", "--1", "+-1", "1-", " 1", "1 ", "1_000", "1.0", "1e3", "0x10", "abc", "\u{ff11}\u{ff12}", "12\u{e9}"] {
        assert_eq!(parse_i64(text), None);
    }
}

#[test]
fn parse_i64_agrees_with_the_standard_library() {
    for text in ["5", "+5", "-5", "", "-", "+", "05", "9223372036854775807", "9223372036854775808", "-9223372036854775808", "-9223372036854775809", "1a", "a1", " 7"] {
        assert_eq!(parse_i64(text), text.parse::<i64>().ok());
    }
}

#[test]
fn starts_with_compares_character_by_character() {
    assert!(starts_with("Bearer abc", "Bearer "));
    assert!(starts_with("Bearer ", "Bearer "));
    assert!(starts_with("anything", ""));
    assert!(starts_with("", ""));
    assert!(!starts_with("Bearer", "Bearer "));
    assert!(!starts_with("bearer abc", "Bearer "));
    assert!(!starts_with("", "B"));
    assert!(starts_with("\u{e9}t\u{e9}", "\u{e9}t"));
    assert!(!starts_with("\u{e9}t\u{e9}", "et"));
}

#[test]
fn without_first_drops_characters_not_bytes() {
    assert_eq!(without_first("Bearer abc", 7), "abc");
    assert_eq!(without_first("Bearer ", 7), "");
    assert_eq!(without_first("abc", 0), "abc");
    assert_eq!(without_first("\u{e9}t\u{e9}", 1), "t\u{e9}");
    assert_eq!(without_first("\u{e9}t\u{e9}", 3), "");
    assert_eq!(without_first("abc", 4), "");
    assert_eq!(without_first("", usize::MAX), "");
}

#[test]
fn text_eq_is_equality_of_texts() {
    assert!(text_eq("/hey", "/hey"));
    assert!(text_eq("", ""));
    assert!(!text_eq("/hey", "/heyworld"));
    assert!(!text_eq("/hey", "/Hey"));
    assert!(!text_eq("/hey", ""));
}

#[test]
fn configuration_from_values_reads_both_texts() {
    let config = Configuration::from_values(Some("secret"), Some("3600"));
    assert!(config == Configuration::new(b"secret".to_vec(), 3600));
    let config = Configuration::from_values(Some("cl\u{e9}"), Some("-1"));
    assert!(config == Configuration::new(vec![b'c', b'l', 0xc3, 0xa9], -1));
}

#[test]
fn configuration_from_values_keeps_what_is_absent_absent() {
    let config = Configuration::from_values(None, None);
    assert!(config.secret_key.is_none());
    assert!(config.token_lifetime_seconds.is_none());
    let config = Configuration::from_values(Some(""), Some("an hour"));
    assert_eq!(config.secret_key, Some(Vec::new()));
    assert_eq!(config.token_lifetime_seconds, None);
    let config = Configuration::from_values(None, Some("60"));
    assert!(config.secret_key.is_none());
    assert_eq!(config.token_lifetime_seconds, Some(60));
}

#[test]
fn configuration_duplicate_is_equal() {
    let config = Configuration::new(b"secret".to_vec(), 3600);
    assert!(config.duplicate() == config);
    let empty = Configuration { secret_key: None, token_lifetime_seconds: None };
    assert!(empty.duplicate() == empty);
}

#[test]
fn signed_decimal_string_writes_the_sign_of_a_negative_number() {
    assert_eq!(signed_decimal_string(0), "0");
    assert_eq!(signed_decimal_string(17), "17");
    assert_eq!(signed_decimal_string(-1), "-1");
    assert_eq!(signed_decimal_string(-17), "-17");
    assert_eq!(signed_decimal_string(i32::MAX), "2147483647");
    assert_eq!(signed_decimal_string(i32::MIN), "-2147483648");
}

#[test]
fn signed_decimal_string_agrees_with_the_standard_library() {
    for n in (-100_000..100_000i32).step_by(41) {
        assert_eq!(signed_decimal_string(n), n.to_string());
    }
}

#[test]
fn signed_numeral_reads_back_as_its_number() {
    for n in [i32::MIN, -2147483647, -10, -1, 0, 1, 9, 10, 4600, i32::MAX] {
        assert_eq!(parse_i64(&signed_decimal_string(n)), Some(n as i64));
    }
}

#[test]
fn different_numbers_have_different_numerals() {
    assert_ne!(signed_decimal_string(-1), decimal_string(u32::MAX));
    assert_ne!(signed_decimal_string(-1), signed_decimal_string(1));
    assert_ne!(signed_decimal_string(i32::MIN), decimal_string(2147483648));
}
