use rate_limiter::bucket::MICROS_PER_TOKEN;
use rate_limiter::bucket::NANOS_PER_SECOND;
use rate_limiter::bucket::NEVER;
use rate_limiter::limiter::Decision;
use rate_limiter::limiter::InProcLimiter;
use rate_limiter::limiter::RateLimiter;

const TOKEN: u64 = MICROS_PER_TOKEN;
const SECOND: u64 = NANOS_PER_SECOND;

fn decision(allowed: bool, limit: u64, remaining: u64, reset_seconds: u64) -> Decision {
    Decision { allowed, limit, remaining, reset_seconds }
}

#[test]
fn three_requests_against_capacity_two() {
    let mut limiter = InProcLimiter::new(2 * TOKEN, 0);
    assert_eq!(limiter.is_allowed_at("A", 0), decision(true, 2, 1, NEVER));
    assert_eq!(limiter.is_allowed_at("A", 0), decision(true, 2, 0, NEVER));
    assert_eq!(limiter.is_allowed_at("A", 0), decision(false, 2, 0, NEVER));
}

#[test]
fn one_token_per_second() {
    let mut limiter = InProcLimiter::new(TOKEN, TOKEN);
    assert_eq!(limiter.is_allowed_at("A", 0), decision(true, 1, 0, 1));
    assert_eq!(limiter.is_allowed_at("A", SECOND / 2), decision(false, 1, 0, 1));
    assert_eq!(limiter.is_allowed_at("A", SECOND + SECOND / 10), decision(true, 1, 0, 1));
}

#[test]
fn clients_do_not_share_tokens() {
    let mut limiter = InProcLimiter::new(2 * TOKEN, 0);
    assert_eq!(limiter.is_allowed_at("A", 0), decision(true, 2, 1, NEVER));
    assert_eq!(limiter.is_allowed_at("B", 0), decision(true, 2, 1, NEVER));
    assert_eq!(limiter.is_allowed_at("A", 0), decision(true, 2, 0, NEVER));
    assert_eq!(limiter.is_allowed_at("A", 0), decision(false, 2, 0, NEVER));
    assert_eq!(limiter.is_allowed_at("B", 0), decision(true, 2, 0, NEVER));
    assert_eq!(limiter.is_allowed_at("B", 0), decision(false, 2, 0, NEVER));
    assert_eq!(limiter.is_allowed_at("", 0), decision(true, 2, 1, NEVER));
}

#[test]
fn interleaving_gives_the_same_answers() {
    let mut apart = InProcLimiter::new(3 * TOKEN, TOKEN);
    let mut mixed = InProcLimiter::new(3 * TOKEN, TOKEN);
    let times = [0, SECOND / 4, SECOND / 2, SECOND, 3 * SECOND];
    let mut of_a = Vec::new();
    let mut of_b = Vec::new();
    for t in times {
        of_a.push(apart.is_allowed_at("a", t));
    }
    for t in times {
        of_b.push(apart.is_allowed_at("b", t + 7));
    }
    for (i, t) in times.into_iter().enumerate() {
        assert_eq!(mixed.is_allowed_at("b", t + 7), of_b[i]);
        assert_eq!(mixed.is_allowed_at("a", t), of_a[i]);
    }
}

#[test]
fn new_client_starts_full_when_first_seen() {
    let mut limiter = InProcLimiter::new(2 * TOKEN, TOKEN);
    assert_eq!(limiter.is_allowed_at("early", 0), decision(true, 2, 1, 1));
    assert_eq!(limiter.is_allowed_at("early", 0), decision(true, 2, 0, 2));
    // first seen after 100 seconds: full then, not refilled beyond capacity
    assert_eq!(limiter.is_allowed_at("late", 100 * SECOND), decision(true, 2, 1, 1));
    assert_eq!(limiter.is_allowed_at("late", 100 * SECOND), decision(true, 2, 0, 2));
    assert_eq!(limiter.is_allowed_at("late", 100 * SECOND), decision(false, 2, 0, 2));
}

#[test]
fn remaining_never_exceeds_limit() {
    let mut limiter = InProcLimiter::new(3 * TOKEN + 1, 5 * TOKEN);
    for step in 0..50u64 {
        let d = limiter.is_allowed_at("c", step * SECOND / 3);
        assert!(d.remaining <= d.limit);
        assert_eq!(d.limit, 3);
    }
}

#[test]
fn clock_driven_checks_admit_exactly_capacity_without_refill() {
    let mut limiter = InProcLimiter::new(4 * TOKEN, 0);
    let mut admitted = 0;
    let mut rejected = 0;
    for _ in 0..10 {
        let d = limiter.is_allowed("same");
        assert_eq!(d.limit, 4);
        if d.allowed {
            admitted += 1;
        } else {
            assert_eq!(d.remaining, 0);
            assert_eq!(d.reset_seconds, NEVER);
            rejected += 1;
        }
    }
    assert_eq!(admitted, 4);
    assert_eq!(rejected, 6);
}
