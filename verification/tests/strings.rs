use dmc::strings::{decimal_string, parse_unsigned, push_decimal, starts_with_at, str_equals};

#[test]
fn str_equals_compares_characters() {
    assert!(str_equals("abc", "abc"));
    assert!(!str_equals("abc", "abd"));
    assert!(!str_equals("abc", "ab"));
    assert!(str_equals("", ""));
}

#[test]
fn starts_with_at_checks_a_prefix_from_an_offset() {
    assert!(starts_with_at("/dev/input/event3", 10, "/event"));
    assert!(!starts_with_at("/dev/input/event3", 0, "/event"));
    assert!(starts_with_at("abc", 3, ""));
    assert!(!starts_with_at("ab", 1, "bcd"));
}

#[test]
fn decimal_string_writes_without_leading_zeros() {
    assert_eq!(decimal_string(0), "0");
    assert_eq!(decimal_string(7), "7");
    assert_eq!(decimal_string(1234), "1234");
    assert_eq!(decimal_string(u64::MAX), "18446744073709551615");
    let mut s = String::from("v");
    push_decimal(&mut s, 42);
    assert_eq!(s, "v42");
}

#[test]
fn parse_unsigned_accepts_what_std_accepts() {
    assert_eq!(parse_unsigned("123", 10, u64::MAX), Some(123));
    assert_eq!(parse_unsigned("+7", 10, u64::MAX), Some(7));
    assert_eq!(parse_unsigned("ff", 16, 0xffff), Some(255));
    assert_eq!(parse_unsigned("FFFF", 16, 0xffff), Some(0xffff));
    assert_eq!(parse_unsigned("18446744073709551615", 10, u64::MAX), Some(u64::MAX));
}

#[test]
fn parse_unsigned_rejects_what_std_rejects() {
    assert_eq!(parse_unsigned("", 10, u64::MAX), None);
    assert_eq!(parse_unsigned("+", 10, u64::MAX), None);
    assert_eq!(parse_unsigned("-1", 10, u64::MAX), None);
    assert_eq!(parse_unsigned("1a", 10, u64::MAX), None);
    assert_eq!(parse_unsigned("10000", 16, 0xffff), None);
    assert_eq!(parse_unsigned("18446744073709551616", 10, u64::MAX), None);
    assert_eq!(parse_unsigned(" 1", 10, u64::MAX), None);
}

#[test]
fn parse_unsigned_reads_back_decimal_string() {
    for n in [0u64, 1, 9, 10, 99, 65535, 123456789, u64::MAX] {
        assert_eq!(parse_unsigned(&decimal_string(n), 10, u64::MAX), Some(n));
    }
}
