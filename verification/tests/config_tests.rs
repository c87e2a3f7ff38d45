//! Tests for configuration module
//!
//! These tests verify configuration behavior, not constants.

use mangayomi_server::config::{db, env_or_default, env_or_default_usize, parse_u64, parse_usize};

/// Test that timeout clamping works correctly at boundaries
///
/// Business logic: Timeout values outside the allowed range should be
/// clamped to the nearest valid value.
#[test]
fn test_get_timeout_clamps_values() {
    // The function should always return a value within bounds,
    // whatever raw value the environment variable holds
    for raw in [None, Some("0"), Some("45"), Some("100000"), Some("abc")] {
        let timeout = db::get_timeout(raw);

        assert!(
            timeout >= db::MIN_TIMEOUT_SECS,
            "Timeout {} must be >= minimum {}",
            timeout,
            db::MIN_TIMEOUT_SECS
        );
        assert!(
            timeout <= db::MAX_TIMEOUT_SECS,
            "Timeout {} must be <= maximum {}",
            timeout,
            db::MAX_TIMEOUT_SECS
        );
    }
}

#[test]
fn test_get_timeout_resolution() {
    assert_eq!(db::get_timeout(None), 30);
    assert_eq!(db::get_timeout(Some("45")), 45);
    assert_eq!(db::get_timeout(Some("0")), 1);
    assert_eq!(db::get_timeout(Some("100000")), 300);
    assert_eq!(db::get_timeout(Some(" 45")), 30);
    assert_eq!(db::get_timeout(Some("")), 30);
}

#[test]
fn test_parse_matches_std() {
    let cases = [
        "", "+", "-", "0", "007", "+12", "++1", "-1", "12a", " 1", "1 ",
        "18446744073709551615", "18446744073709551616", "99999999999999999999999", "٣",
    ];
    for c in cases {
        assert_eq!(parse_u64(c), c.parse::<u64>().ok(), "u64 {:?}", c);
        assert_eq!(parse_usize(c), c.parse::<usize>().ok(), "usize {:?}", c);
    }
}

#[test]
fn test_env_or_default_clamps() {
    assert_eq!(env_or_default(Some("5"), 10, 1, 9), 5);
    assert_eq!(env_or_default(Some("50"), 10, 1, 9), 9);
    assert_eq!(env_or_default(Some("0"), 10, 1, 9), 1);
    assert_eq!(env_or_default(None, 10, 1, 9), 10);
    assert_eq!(env_or_default_usize(Some("x"), 3, 1, 9), 3);
}
