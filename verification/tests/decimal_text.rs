use azure_dashboard_server::decimal::{parse_i64, u64_to_string};
use azure_dashboard_server::text::str_eq;

#[test]
fn parses_plain_numerals() {
    assert_eq!(parse_i64("0"), Some(0));
    assert_eq!(parse_i64("3600"), Some(3600));
    assert_eq!(parse_i64("007"), Some(7));
}

#[test]
fn parses_signed_numerals() {
    assert_eq!(parse_i64("-42"), Some(-42));
    assert_eq!(parse_i64("+7"), Some(7));
    assert_eq!(parse_i64("-0"), Some(0));
}

#[test]
fn rejects_malformed_numerals() {
    assert_eq!(parse_i64(""), None);
    assert_eq!(parse_i64("-"), None);
    assert_eq!(parse_i64("+"), None);
    assert_eq!(parse_i64("12a"), None);
    assert_eq!(parse_i64(" 12"), None);
    assert_eq!(parse_i64("1.5"), None);
    assert_eq!(parse_i64("--3"), None);
}

#[test]
fn parses_exactly_the_i64_range() {
    assert_eq!(parse_i64("9223372036854775807"), Some(i64::MAX));
    assert_eq!(parse_i64("9223372036854775808"), None);
    assert_eq!(parse_i64("-9223372036854775808"), Some(i64::MIN));
    assert_eq!(parse_i64("-9223372036854775809"), None);
    assert_eq!(parse_i64("99999999999999999999999999"), None);
}

#[test]
fn renders_decimals() {
    assert_eq!(u64_to_string(0), "0");
    assert_eq!(u64_to_string(7), "7");
    assert_eq!(u64_to_string(200), "200");
    assert_eq!(u64_to_string(1030), "1030");
    assert_eq!(u64_to_string(u64::MAX), "18446744073709551615");
}

#[test]
fn round_trips_rendered_numbers() {
    for n in [0u64, 1, 9, 10, 99, 100, 4096, 1_000_000_007] {
        assert_eq!(parse_i64(&u64_to_string(n)), Some(n as i64));
    }
}

#[test]
fn compares_strings_by_contents() {
    assert!(str_eq("database_size", "database_size"));
    assert!(!str_eq("database_size", "database_allocated_size"));
    assert!(!str_eq("abc", "abd"));
    assert!(!str_eq("abc", "ab"));
    assert!(str_eq("", ""));
}
