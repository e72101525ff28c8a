use haaslib::strutil::i64_to_string;
use haaslib::strutil::str_contains;
use haaslib::strutil::str_eq;
use haaslib::strutil::u64_to_string;

#[test]
fn decimal_renderings() {
    assert_eq!(u64_to_string(0), "0");
    assert_eq!(u64_to_string(7), "7");
    assert_eq!(u64_to_string(86400), "86400");
    assert_eq!(u64_to_string(u64::MAX), "18446744073709551615");
    assert_eq!(i64_to_string(0), "0");
    assert_eq!(i64_to_string(-1), "-1");
    assert_eq!(i64_to_string(i64::MIN), "-9223372036854775808");
    assert_eq!(i64_to_string(i64::MAX), "9223372036854775807");
}

#[test]
fn substring_search() {
    assert!(str_contains("fastlength", "fast"));
    assert!(str_contains("fastlength", "length"));
    assert!(str_contains("fastlength", "stle"));
    assert!(str_contains("anything", ""));
    assert!(!str_contains("", "x"));
    assert!(!str_contains("fastlength", "slow"));
    assert!(!str_contains("abc", "abcd"));
}

#[test]
fn character_wise_equality() {
    assert!(str_eq("", ""));
    assert!(str_eq("abc", "abc"));
    assert!(!str_eq("abc", "abd"));
    assert!(!str_eq("abc", "ab"));
}
