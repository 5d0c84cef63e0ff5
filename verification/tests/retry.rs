use mininq::worker::retry::{compute_delay_ms, delay_for_jitter, raw_delay_ms};

#[test]
fn raw_delays_follow_the_documented_formulas() {
    assert_eq!(raw_delay_ms(1, "exponential", 1000), 1000);
    assert_eq!(raw_delay_ms(2, "exponential", 1000), 2000);
    assert_eq!(raw_delay_ms(4, "exponential", 1000), 8000);
    assert_eq!(raw_delay_ms(0, "exponential", 1000), 1000);
    assert_eq!(raw_delay_ms(3, "linear", 1000), 3000);
    assert_eq!(raw_delay_ms(3, "fixed", 1000), 1000);
    // Unknown names back off exponentially.
    assert_eq!(raw_delay_ms(3, "weird", 500), 2000);
    // Saturation.
    assert_eq!(raw_delay_ms(100, "exponential", 1000), i64::MAX);
    assert_eq!(raw_delay_ms(100, "exponential", -1000), i64::MIN);
    assert_eq!(raw_delay_ms(64, "exponential", 1), i64::MAX);
}

#[test]
fn jitter_scales_and_truncates() {
    assert_eq!(delay_for_jitter(2, "exponential", 1000, 300000, 0), 2000);
    assert_eq!(delay_for_jitter(2, "exponential", 1000, 300000, 250_000), 2500);
    assert_eq!(delay_for_jitter(2, "exponential", 1000, 300000, -300_000), 1400);
    assert_eq!(delay_for_jitter(1, "fixed", 7, 300000, 299_999), 9);
}

#[test]
fn delays_are_capped_and_never_negative() {
    assert_eq!(delay_for_jitter(20, "exponential", 1000, 300000, 0), 300000);
    assert_eq!(delay_for_jitter(3, "linear", -1000, 300000, 0), 0);
    assert_eq!(delay_for_jitter(3, "linear", 1000, -5, 0), 0);
}

#[test]
fn random_delay_stays_within_thirty_percent() {
    for _ in 0..200 {
        let d = compute_delay_ms(3, "exponential", 1000, 300000);
        assert!((2800..=5200).contains(&d), "delay {d}");
        let f = compute_delay_ms(1, "fixed", 1000, 1100);
        assert!((700..=1100).contains(&f), "delay {f}");
    }
}
