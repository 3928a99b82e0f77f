//! The token-bucket limiter.

use wyrtloom_dashboard::limiter::{IDLE_NANOS, MAX_BUCKETS};
use wyrtloom_dashboard::state::{RateLimiter, RATE_CAPACITY, RATE_REFILL_PER_SEC};

const SECOND: u64 = 1_000_000_000;

#[test]
fn burst_then_one_per_second() {
    let mut limiter = RateLimiter::new(RATE_CAPACITY, RATE_REFILL_PER_SEC);
    for _ in 0..5 {
        assert!(limiter.check("1.2.3.4", 0));
    }
    assert!(!limiter.check("1.2.3.4", 0));
    assert!(!limiter.check("1.2.3.4", SECOND - 1));
    assert!(limiter.check("1.2.3.4", SECOND));
    assert!(!limiter.check("1.2.3.4", SECOND));
    assert!(limiter.check("1.2.3.4", 2 * SECOND));
}

#[test]
fn refill_stops_at_the_capacity() {
    let mut limiter = RateLimiter::new(RATE_CAPACITY, RATE_REFILL_PER_SEC);
    assert!(limiter.check("a", 0));
    for _ in 0..5 {
        assert!(limiter.check("a", 1000 * SECOND));
    }
    assert!(!limiter.check("a", 1000 * SECOND));
}

#[test]
fn refused_requests_cost_nothing() {
    let mut limiter = RateLimiter::new(SECOND, SECOND);
    assert!(limiter.check("a", 0));
    for at in 1..10 {
        assert!(!limiter.check("a", at * SECOND / 10));
    }
    assert!(limiter.check("a", SECOND));
}

#[test]
fn keys_have_buckets_of_their_own() {
    let mut limiter = RateLimiter::new(SECOND, SECOND);
    assert!(limiter.check("a", 0));
    assert!(limiter.check("b", 0));
    assert!(!limiter.check("a", 0));
    assert!(!limiter.check("b", 0));
}

#[test]
fn clock_that_steps_back_refills_nothing() {
    let mut limiter = RateLimiter::new(SECOND, SECOND);
    assert!(limiter.check("a", 10 * SECOND));
    assert!(!limiter.check("a", 5 * SECOND));
}

#[test]
fn nothing_is_allowed_below_one_token() {
    let mut limiter = RateLimiter::new(SECOND - 1, SECOND);
    assert!(!limiter.check("a", 0));
    assert!(!limiter.check("a", 3600 * SECOND));
}

#[test]
fn idle_buckets_are_evicted_above_the_limit() {
    // Without a refill, only eviction can give a key its burst back.
    let mut limiter = RateLimiter::new(SECOND, 0);
    for i in 0..MAX_BUCKETS {
        assert!(limiter.check(&format!("k{i}"), 0));
    }
    assert!(!limiter.check("k0", IDLE_NANOS));
    assert!(limiter.check("fresh", IDLE_NANOS));
    assert!(!limiter.check("k0", IDLE_NANOS));
    assert!(limiter.check("k1", IDLE_NANOS));
    assert!(!limiter.check("k1", IDLE_NANOS));
    assert!(!limiter.check("fresh", IDLE_NANOS));
}

#[test]
fn few_keys_are_never_evicted() {
    // Below the limit a drained bucket stays drained, however long it idles.
    let mut limiter = RateLimiter::new(SECOND, 0);
    for key in ["a", "b", "c"] {
        assert!(limiter.check(key, 0));
    }
    for hours in 1..50 {
        for key in ["a", "b", "c"] {
            assert!(!limiter.check(key, hours * IDLE_NANOS));
        }
    }
}
