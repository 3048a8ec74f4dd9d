use mycelink::text::{
    bool_string, decimal_string, line_is_blank, parse_bool_str, parse_unsigned_str, replace_str,
    signed_decimal_string, split_once_char, split_once_str, starts_with_str, IntErrorKind,
};

#[test]
fn unsigned_parsing_follows_str_parse() {
    assert_eq!(parse_unsigned_str("0", 10), Ok(0));
    assert_eq!(parse_unsigned_str("+42", 100), Ok(42));
    assert_eq!(parse_unsigned_str("4294967295", u32::MAX as u64), Ok(4294967295));
    assert_eq!(parse_unsigned_str("4294967296", u32::MAX as u64), Err(IntErrorKind::PosOverflow));
    assert_eq!(parse_unsigned_str("", 10), Err(IntErrorKind::Empty));
    assert_eq!(parse_unsigned_str("+", 10), Err(IntErrorKind::InvalidDigit));
    assert_eq!(parse_unsigned_str("1 2", 100), Err(IntErrorKind::InvalidDigit));
    assert_eq!(parse_unsigned_str("-1", 100), Err(IntErrorKind::InvalidDigit));
    for text in ["7", "+7", "x", "", "18446744073709551615", "18446744073709551616"] {
        let expected = text.parse::<u64>().ok();
        assert_eq!(parse_unsigned_str(text, u64::MAX).ok(), expected, "{text}");
    }
}

#[test]
fn booleans() {
    assert_eq!(parse_bool_str("true"), Some(true));
    assert_eq!(parse_bool_str("false"), Some(false));
    assert_eq!(parse_bool_str("True"), None);
    assert_eq!(bool_string(true), "true");
    assert_eq!(bool_string(false), "false");
}

#[test]
fn decimals() {
    assert_eq!(decimal_string(0), "0");
    assert_eq!(decimal_string(1234567890), "1234567890");
    assert_eq!(decimal_string(u64::MAX), u64::MAX.to_string());
    assert_eq!(signed_decimal_string(-1), "-1");
    assert_eq!(signed_decimal_string(i32::MIN), i32::MIN.to_string());
    assert_eq!(signed_decimal_string(17), "17");
}

#[test]
fn splitting_and_prefixes() {
    assert_eq!(split_once_char("a=b=c", '='), Some(("a".into(), "b=c".into())));
    assert_eq!(split_once_char("abc", '='), None);
    assert_eq!(split_once_str("x - y - z", " - "), Some(("x".into(), "y - z".into())));
    assert_eq!(split_once_str("x-y", " - "), None);
    assert!(starts_with_str("[Mycelink] a", "[Mycelink] "));
    assert!(!starts_with_str("[Myce", "[Mycelink] "));
}

#[test]
fn replacing() {
    assert_eq!(replace_str("SSK@abc/SSK@", "SSK@", "USK@"), "USK@abc/USK@");
    assert_eq!(replace_str("aaa", "aa", "b"), "aaa".replace("aa", "b"));
    assert_eq!(replace_str("none here", "SSK@", "USK@"), "none here");
}

#[test]
fn blank_lines() {
    assert!(line_is_blank(""));
    assert!(line_is_blank(" \t"));
    assert!(!line_is_blank(" x "));
}

#[test]
fn decimal_text_reads_back() {
    for n in [0u64, 9, 10, 99, 100, 4096, u32::MAX as u64, u64::MAX] {
        assert_eq!(parse_unsigned_str(&decimal_string(n), u64::MAX), Ok(n));
    }
    assert_eq!(
        parse_unsigned_str(&decimal_string(u32::MAX as u64 + 1), u32::MAX as u64),
        Err(IntErrorKind::PosOverflow)
    );
}
