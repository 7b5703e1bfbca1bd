use disint::auth::parse_timestamp;
use disint::freshness::is_fresh;
use disint::freshness::TOLERANCE_SECONDS;

#[test]
fn fresh_at_exact_time() {
    assert!(is_fresh(100, 100, TOLERANCE_SECONDS));
}

#[test]
fn stale_at_upper_bound() {
    assert!(!is_fresh(105, 100, TOLERANCE_SECONDS));
}

#[test]
fn stale_at_lower_bound() {
    assert!(!is_fresh(95, 100, TOLERANCE_SECONDS));
}

#[test]
fn fresh_just_inside_upper_bound() {
    assert!(is_fresh(104, 100, TOLERANCE_SECONDS));
}

#[test]
fn fresh_just_inside_lower_bound() {
    assert!(is_fresh(96, 100, TOLERANCE_SECONDS));
}

#[test]
fn freshness_near_zero_is_asymmetric() {
    // The lower bound saturates at zero, and zero itself is excluded.
    assert!(!is_fresh(0, 3, 5));
    assert!(is_fresh(1, 3, 5));
    assert!(is_fresh(7, 3, 5));
    assert!(!is_fresh(8, 3, 5));
}

#[test]
fn timestamp_parses_decimal_digits() {
    assert_eq!(parse_timestamp("0"), Some(0));
    assert_eq!(parse_timestamp("1700000000"), Some(1_700_000_000));
    assert_eq!(parse_timestamp("007"), Some(7));
}

#[test]
fn timestamp_parses_largest_value() {
    assert_eq!(parse_timestamp("18446744073709551615"), Some(u64::MAX));
}

#[test]
fn timestamp_rejects_value_past_largest() {
    assert_eq!(parse_timestamp("18446744073709551616"), None);
    assert_eq!(parse_timestamp("99999999999999999999999"), None);
}

#[test]
fn timestamp_rejects_empty_and_non_digits() {
    assert_eq!(parse_timestamp(""), None);
    assert_eq!(parse_timestamp("12a"), None);
    assert_eq!(parse_timestamp("-5"), None);
    assert_eq!(parse_timestamp(" 5"), None);
}
