use wwise_id_search::is_valid_guid;
use wwise_id_search::text::{contains, decimal_string, is_numeric, str_eq};

#[test]
fn guid_bare_is_valid() {
    assert!(is_valid_guid("11112222-3333-4444-5555-666677778888"));
}

#[test]
fn guid_braced_is_valid() {
    assert!(is_valid_guid("{11112222-3333-4444-5555-666677778888}"));
}

#[test]
fn guid_mixed_case_hex_is_valid() {
    assert!(is_valid_guid("ABCDEF01-abcd-EF01-2345-6789abcdefAB"));
}

#[test]
fn guid_single_leading_brace_is_stripped() {
    assert!(is_valid_guid("{11112222-3333-4444-5555-666677778888"));
    assert!(is_valid_guid("11112222-3333-4444-5555-666677778888}"));
}

#[test]
fn guid_two_braces_each_side_rejected() {
    assert!(!is_valid_guid("{{11112222-3333-4444-5555-666677778888}}"));
}

#[test]
fn guid_wrong_group_lengths_rejected() {
    assert!(!is_valid_guid("1111222-33333-4444-5555-666677778888"));
    assert!(!is_valid_guid("11112222-3333-4444-55556-66677778888"));
}

#[test]
fn guid_non_hex_rejected() {
    assert!(!is_valid_guid("1111222g-3333-4444-5555-666677778888"));
}

#[test]
fn guid_empty_and_short_rejected() {
    assert!(!is_valid_guid(""));
    assert!(!is_valid_guid("{}"));
    assert!(!is_valid_guid("11112222-3333-4444-5555-66667777888"));
}

#[test]
fn guid_too_long_rejected() {
    assert!(!is_valid_guid("11112222-3333-4444-5555-6666777788889"));
}

#[test]
fn guid_without_hyphens_rejected() {
    assert!(!is_valid_guid("111122223333444455556666777788889999"));
}

#[test]
fn numeric_detection() {
    assert!(is_numeric("0123456789"));
    assert!(is_numeric(""));
    assert!(!is_numeric("12a"));
    assert!(!is_numeric("-1"));
}

#[test]
fn substring_search() {
    assert!(contains("abcdef", "cde"));
    assert!(contains("abcdef", ""));
    assert!(contains("abc", "abc"));
    assert!(!contains("abc", "abcd"));
    assert!(!contains("abcdef", "ce"));
}

#[test]
fn string_equality() {
    assert!(str_eq("Busses", "Busses"));
    assert!(!str_eq("Busses", "Bus"));
    assert!(!str_eq("Bus", "Bux"));
}

#[test]
fn decimal_formatting() {
    assert_eq!(decimal_string(0), "0");
    assert_eq!(decimal_string(7), "7");
    assert_eq!(decimal_string(10), "10");
    assert_eq!(decimal_string(1234567890), "1234567890");
    assert_eq!(decimal_string(u64::MAX), "18446744073709551615");
}
