use mininq::worker::rate_limiter::RateLimiter;

const SEC: u128 = 1_000_000_000;

#[test]
fn unlimited_queues_always_pass() {
    let mut rl = RateLimiter::new();
    for _ in 0..100 {
        assert!(rl.check_queue_at("q", None, 0));
        assert!(rl.check_queue_at("q", Some(0), 0));
    }
}

#[test]
fn fresh_bucket_allows_a_burst_of_its_rate() {
    let mut rl = RateLimiter::new();
    // 3 requests per second.
    for _ in 0..3 {
        assert!(rl.check_queue_at("q", Some(3_000_000), 0));
    }
    assert!(!rl.check_queue_at("q", Some(3_000_000), 0));
}

#[test]
fn slow_rates_still_allow_one_request() {
    let mut rl = RateLimiter::new();
    // 0.5 requests per second: capacity is one token.
    assert!(rl.check_queue_at("q", Some(500_000), 0));
    assert!(!rl.check_queue_at("q", Some(500_000), SEC));
    assert!(rl.check_queue_at("q", Some(500_000), 2 * SEC));
}

#[test]
fn tokens_refill_with_time() {
    let mut rl = RateLimiter::new();
    assert!(rl.check_queue_at("q", Some(1_000_000), 0));
    assert!(!rl.check_queue_at("q", Some(1_000_000), SEC / 2));
    assert!(rl.check_queue_at("q", Some(1_000_000), SEC));
    // Time going backwards adds nothing.
    assert!(!rl.check_queue_at("q", Some(1_000_000), 0));
}

#[test]
fn queues_have_separate_buckets() {
    let mut rl = RateLimiter::new();
    assert!(rl.check_queue_at("a", Some(1_000_000), 0));
    assert!(!rl.check_queue_at("a", Some(1_000_000), 0));
    assert!(rl.check_queue_at("b", Some(1_000_000), 0));
}

#[test]
fn rate_changes_take_effect_immediately() {
    let mut rl = RateLimiter::new();
    assert!(rl.check_queue_at("q", Some(1_000_000), 0));
    assert!(!rl.check_queue_at("q", Some(1_000_000), 0));
    // Ten per second: after 0.2 s two tokens have been earned.
    assert!(rl.check_queue_at("q", Some(10_000_000), SEC / 5));
    assert!(rl.check_queue_at("q", Some(10_000_000), SEC / 5));
    assert!(!rl.check_queue_at("q", Some(10_000_000), SEC / 5));
}

#[test]
fn clock_based_check_passes_a_fresh_queue() {
    let mut rl = RateLimiter::new();
    assert!(rl.check_queue("q", Some(1_000_000)));
    assert!(rl.check_queue("other", None));
}

#[test]
fn passes_over_an_interval_stay_within_burst_plus_refill() {
    // 2 requests per second, checked every 100 ms for 3 seconds: at most
    // 2 (burst) + 2 * 3 (refill) = 8 passes.
    let mut rl = RateLimiter::new();
    let mut passes = 0;
    for k in 0..=30u128 {
        if rl.check_queue_at("q", Some(2_000_000), k * SEC / 10) {
            passes += 1;
        }
    }
    assert_eq!(passes, 8);
}
