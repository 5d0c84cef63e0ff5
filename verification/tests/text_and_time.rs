use mininq::sqltime::{now_plus_sql, now_sql, seconds_decimal};
use mininq::text::{concat3, contains, i64_decimal, padded_decimal, starts_with, str_eq, u64_decimal};
use mininq::worker::cleanup::retention_modifier;

#[test]
fn decimal_rendering_matches_display() {
    for n in [0u64, 7, 10, 42, 1000, 123456789, u64::MAX] {
        assert_eq!(u64_decimal(n), n.to_string());
    }
    for n in [0i64, -1, 5, -1234, i64::MIN, i64::MAX] {
        assert_eq!(i64_decimal(n), n.to_string());
    }
}

#[test]
fn string_predicates() {
    assert!(str_eq("abc", "abc"));
    assert!(!str_eq("abc", "abd"));
    assert!(!str_eq("abc", "ab"));
    assert!(starts_with("https://x", "https://"));
    assert!(!starts_with("http", "https://"));
    assert!(starts_with("anything", ""));
    assert!(contains("UNIQUE constraint failed: queues.name", "UNIQUE"));
    assert!(!contains("constraint failed", "UNIQUE"));
    assert!(contains("abc", ""));
    assert_eq!(concat3("a", "bc", "d"), "abcd");
}

#[test]
fn seconds_are_rendered_like_float_display() {
    for ms in [0u64, 1, 10, 100, 999, 1000, 1500, 1250, 60000, 123456, 300000] {
        assert_eq!(seconds_decimal(ms), format!("{}", ms as f64 / 1000.0), "ms = {ms}");
    }
}

#[test]
fn sql_time_expressions() {
    assert_eq!(now_sql(), "strftime('%Y-%m-%dT%H:%M:%f', 'now')");
    assert_eq!(now_plus_sql(1500), "strftime('%Y-%m-%dT%H:%M:%f', 'now', '+1.5 seconds')");
    assert_eq!(now_plus_sql(60000), "strftime('%Y-%m-%dT%H:%M:%f', 'now', '+60 seconds')");
}

#[test]
fn retention_modifier_goes_back_days() {
    assert_eq!(retention_modifier(30), "-30 days");
    assert_eq!(retention_modifier(0), "-0 days");
}

#[test]
fn padded_decimals_keep_their_width() {
    assert_eq!(padded_decimal(7, 2), "07");
    assert_eq!(padded_decimal(2024, 4), "2024");
    assert_eq!(padded_decimal(5, 3), "005");
    assert_eq!(padded_decimal(12345, 3), "345");
    assert_eq!(padded_decimal(9, 0), "");
}
