use rate_limiter::bucket::TokenBucket;
use rate_limiter::bucket::MICROS_PER_TOKEN;
use rate_limiter::bucket::NANOS_PER_SECOND;
use rate_limiter::bucket::NEVER;

const TOKEN: u64 = MICROS_PER_TOKEN;
const SECOND: u64 = NANOS_PER_SECOND;

#[test]
fn new_bucket_is_full() {
    let mut bucket = TokenBucket::new(3 * TOKEN, TOKEN, 0);
    assert_eq!(bucket.limit(), 3);
    assert_eq!(bucket.try_consume(0), (true, 2, 1));
}

#[test]
fn limit_truncates_fractional_capacity() {
    let bucket = TokenBucket::new(2 * TOKEN + TOKEN / 2, TOKEN, 0);
    assert_eq!(bucket.limit(), 2);
    let empty = TokenBucket::new(TOKEN - 1, TOKEN, 0);
    assert_eq!(empty.limit(), 0);
}

#[test]
fn burst_admits_capacity_then_rejects() {
    let mut bucket = TokenBucket::new(3 * TOKEN, TOKEN, 10);
    assert_eq!(bucket.try_consume(10), (true, 2, 1));
    assert_eq!(bucket.try_consume(10), (true, 1, 2));
    assert_eq!(bucket.try_consume(10), (true, 0, 3));
    assert_eq!(bucket.try_consume(10), (false, 0, 3));
    assert_eq!(bucket.try_consume(10), (false, 0, 3));
}

#[test]
fn zero_rate_never_refills() {
    let mut bucket = TokenBucket::new(2 * TOKEN, 0, 0);
    assert_eq!(bucket.try_consume(0), (true, 1, NEVER));
    assert_eq!(bucket.try_consume(5 * SECOND), (true, 0, NEVER));
    assert_eq!(bucket.try_consume(1_000 * SECOND), (false, 0, NEVER));
    assert_eq!(bucket.try_consume(u64::MAX), (false, 0, NEVER));
}

#[test]
fn zero_rate_admits_exactly_capacity() {
    let mut bucket = TokenBucket::new(5 * TOKEN, 0, 0);
    let mut admitted = 0;
    let mut rejected = 0;
    for i in 0..20u64 {
        let (allowed, _, _) = bucket.try_consume(i * SECOND);
        if allowed {
            admitted += 1;
        } else {
            rejected += 1;
        }
    }
    assert_eq!(admitted, 5);
    assert_eq!(rejected, 15);
}

#[test]
fn refill_is_lazy_and_exact() {
    let mut bucket = TokenBucket::new(TOKEN, TOKEN, 0);
    assert_eq!(bucket.try_consume(0), (true, 0, 1));
    assert_eq!(bucket.try_consume(SECOND / 2), (false, 0, 1));
    assert_eq!(bucket.try_consume(SECOND + SECOND / 10), (true, 0, 1));
}

#[test]
fn refill_is_clamped_at_capacity() {
    let mut bucket = TokenBucket::new(2 * TOKEN, TOKEN, 0);
    assert_eq!(bucket.try_consume(0), (true, 1, 1));
    assert_eq!(bucket.try_consume(0), (true, 0, 2));
    assert_eq!(bucket.try_consume(1_000 * SECOND), (true, 1, 1));
    assert_eq!(bucket.try_consume(1_000 * SECOND), (true, 0, 2));
    assert_eq!(bucket.try_consume(1_000 * SECOND), (false, 0, 2));
}

#[test]
fn no_double_refill_at_same_time() {
    let mut once = TokenBucket::new(4 * TOKEN, TOKEN, 0);
    let mut twice = TokenBucket::new(4 * TOKEN, TOKEN, 0);
    for _ in 0..4 {
        once.try_consume(0);
        twice.try_consume(0);
    }
    assert_eq!(once.try_consume(2 * SECOND), (true, 1, 3));
    assert_eq!(twice.try_consume(2 * SECOND), (true, 1, 3));
    assert_eq!(twice.try_consume(2 * SECOND), (true, 0, 4));
    assert_eq!(twice.try_consume(2 * SECOND), (false, 0, 4));
}

#[test]
fn earlier_time_counts_as_no_time() {
    let mut bucket = TokenBucket::new(TOKEN, TOKEN, 10 * SECOND);
    assert_eq!(bucket.try_consume(10 * SECOND), (true, 0, 1));
    assert_eq!(bucket.try_consume(3 * SECOND), (false, 0, 1));
    assert_eq!(bucket.try_consume(10 * SECOND + SECOND / 2), (false, 0, 1));
    assert_eq!(bucket.try_consume(11 * SECOND), (true, 0, 1));
}

#[test]
fn remaining_is_rounded_down() {
    let mut bucket = TokenBucket::new(3 * TOKEN, TOKEN / 2, 0);
    assert_eq!(bucket.try_consume(0), (true, 2, 2));
    assert_eq!(bucket.try_consume(0), (true, 1, 4));
    assert_eq!(bucket.try_consume(0), (true, 0, 6));
    // 1.9 seconds at half a token per second: 0.95 tokens
    assert_eq!(bucket.try_consume(SECOND + 9 * SECOND / 10), (false, 0, 5));
    // 2 seconds: one whole token, taken at once
    assert_eq!(bucket.try_consume(2 * SECOND), (true, 0, 6));
    // 5 seconds: 1.5 tokens, one taken, half a token left
    assert_eq!(bucket.try_consume(5 * SECOND), (true, 0, 5));
}

#[test]
fn reset_is_rounded_up() {
    let mut bucket = TokenBucket::new(10 * TOKEN, 3 * TOKEN, 0);
    // 9 tokens left, 1 missing at 3 per second: a third of a second
    assert_eq!(bucket.try_consume(0), (true, 9, 1));
    assert_eq!(bucket.try_consume(0), (true, 8, 1));
    assert_eq!(bucket.try_consume(0), (true, 7, 1));
    // 4 missing at 3 per second
    assert_eq!(bucket.try_consume(0), (true, 6, 2));
    // one nanosecond later: 3 femto-seconds' worth refilled, still 2 seconds
    assert_eq!(bucket.try_consume(1), (true, 5, 2));
}

#[test]
fn reset_is_zero_only_when_full() {
    // capacity below one token: never admits, always full
    let mut bucket = TokenBucket::new(TOKEN / 2, TOKEN, 0);
    assert_eq!(bucket.try_consume(0), (false, 0, 0));
    assert_eq!(bucket.try_consume(SECOND), (false, 0, 0));
    let mut none = TokenBucket::new(0, 0, 0);
    assert_eq!(none.try_consume(0), (false, 0, 0));
    let mut one = TokenBucket::new(TOKEN, 1, 0);
    assert_eq!(one.try_consume(0), (true, 0, 1_000_000));
}

#[test]
fn extreme_values_do_not_overflow() {
    let mut bucket = TokenBucket::new(u64::MAX, u64::MAX, 0);
    assert_eq!(bucket.limit(), u64::MAX / TOKEN);
    assert_eq!(bucket.try_consume(0), (true, u64::MAX / TOKEN - 1, 1));
    assert_eq!(bucket.try_consume(u64::MAX), (true, u64::MAX / TOKEN - 1, 1));
    let mut slow = TokenBucket::new(u64::MAX, 1, 0);
    assert_eq!(slow.try_consume(u64::MAX), (true, u64::MAX / TOKEN - 1, 1_000_000));
}

#[test]
fn long_window_admits_at_configured_rate() {
    // capacity 2, two tokens per second, asked every 100 ms for 10 seconds
    let mut bucket = TokenBucket::new(2 * TOKEN, 2 * TOKEN, 0);
    let mut admitted = 0u64;
    for step in 0..=100u64 {
        if bucket.try_consume(step * SECOND / 10).0 {
            admitted += 1;
        }
    }
    assert_eq!(admitted, 2 + 10 * 2);
}
