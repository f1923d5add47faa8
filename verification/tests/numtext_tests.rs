use defuscrypt::numtext::{i32_to_string, str_matches_ci, u64_to_string};

#[test]
fn decimal_rendering_is_exact() {
    assert_eq!(u64_to_string(0).as_str(), "0");
    assert_eq!(u64_to_string(7).as_str(), "7");
    assert_eq!(u64_to_string(42).as_str(), "42");
    assert_eq!(u64_to_string(66666).as_str(), "66666");
    assert_eq!(u64_to_string(u64::MAX).as_str(), "18446744073709551615");
}

#[test]
fn signed_rendering_handles_both_signs() {
    assert_eq!(i32_to_string(0).as_str(), "0");
    assert_eq!(i32_to_string(666).as_str(), "666");
    assert_eq!(i32_to_string(-666).as_str(), "-666");
    assert_eq!(i32_to_string(i32::MIN).as_str(), "-2147483648");
}

#[test]
fn case_insensitive_match_folds_ascii_only() {
    assert!(str_matches_ci("Basic", "basic"));
    assert!(str_matches_ci("BASIC", "basic"));
    assert!(str_matches_ci("basic", "basic"));
    assert!(!str_matches_ci("basics", "basic"));
    assert!(!str_matches_ci("basik", "basic"));
    assert!(!str_matches_ci("", "basic"));
}
