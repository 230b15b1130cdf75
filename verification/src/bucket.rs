//! The token bucket of a single client: a pure state machine over integers.
//!
//! Capacities and refill rates are given in millionths of a token
//! (micro-tokens). Time is a monotonic reading in nanoseconds. The level of a
//! bucket is kept in femto-tokens, the product of the two units, so that
//! `elapsed * rate` is added without any rounding.

use vstd::prelude::*;

verus! {

/// Micro-tokens in one token: the unit of capacities and refill rates.
pub const MICROS_PER_TOKEN: u64 = 1_000_000;

/// Nanoseconds in one second: the unit of timestamps.
pub const NANOS_PER_SECOND: u64 = 1_000_000_000;

/// Femto-tokens in one micro-token. A rate of one micro-token per second adds
/// one femto-token per nanosecond, so this is also the number of femto-tokens
/// that such a rate adds in a second.
pub const FEMTOS_PER_MICRO: u128 = 1_000_000_000;

/// Femto-tokens in one token: the unit of a bucket's level.
pub const FEMTOS_PER_TOKEN: u128 = 1_000_000_000_000_000;

/// The reset time reported by a bucket that is not full and never refills.
pub const NEVER: u64 = 0xffff_ffff_ffff_ffff;

/// The quotient `a / b` rounded up.
pub open spec fn ceil_div(a: nat, b: nat) -> nat
    recommends
        b > 0,
{
    if a % b == 0 {
        a / b
    } else {
        a / b + 1
    }
}

/// An amount of micro-tokens in femto-tokens.
pub open spec fn femtos(micros: nat) -> nat {
    micros * (FEMTOS_PER_MICRO as nat)
}

/// The mathematical state of a bucket.
pub struct BucketState {
    /// Most the bucket can hold, in micro-tokens.
    pub capacity: nat,
    /// Refill rate, in micro-tokens per second.
    pub rate: nat,
    /// Tokens available now, in femto-tokens.
    pub level: nat,
    /// Timestamp of the last refill, in nanoseconds.
    pub last_refill: nat,
}

impl BucketState {
    /// A bucket created full at time `now`.
    pub open spec fn full(capacity: nat, rate: nat, now: nat) -> BucketState {
        BucketState { capacity, rate, level: femtos(capacity), last_refill: now }
    }

    /// The capacity in femto-tokens.
    pub open spec fn brim(self) -> nat {
        femtos(self.capacity)
    }

    /// The level never exceeds the capacity.
    pub open spec fn wf(self) -> bool {
        self.level <= self.brim()
    }

    /// The state after the lazy refill performed by an access at time `now`:
    /// when time has passed, `elapsed * rate` is added, clamped at the
    /// capacity, and the refill time moves to `now`; otherwise nothing changes.
    pub open spec fn refill(self, now: nat) -> BucketState {
        if now > self.last_refill {
            let gained = self.level + (now - self.last_refill) * self.rate;
            BucketState {
                level: if gained <= self.brim() { gained as nat } else { self.brim() },
                last_refill: now,
                ..self
            }
        } else {
            self
        }
    }

    /// Whether one whole token is available.
    pub open spec fn admits(self) -> bool {
        self.level >= FEMTOS_PER_TOKEN as nat
    }

    /// The state with one token taken, if one is available.
    pub open spec fn take(self) -> BucketState {
        if self.admits() {
            BucketState { level: (self.level - FEMTOS_PER_TOKEN as nat) as nat, ..self }
        } else {
            self
        }
    }

    /// The state after one admission check at time `now`.
    pub open spec fn consume(self, now: nat) -> BucketState {
        self.refill(now).take()
    }

    /// Whole tokens available: the level rounded down.
    pub open spec fn remaining(self) -> nat {
        self.level / (FEMTOS_PER_TOKEN as nat)
    }

    /// The advertised request limit: the capacity rounded down to whole tokens.
    pub open spec fn limit(self) -> nat {
        self.capacity / (MICROS_PER_TOKEN as nat)
    }

    /// Seconds until the bucket is full again, rounded up: zero when it is
    /// full, `NEVER` when it is not and the rate is zero.
    pub open spec fn reset_seconds(self) -> nat {
        if self.level >= self.brim() {
            0
        } else if self.rate == 0 {
            NEVER as nat
        } else {
            ceil_div((self.brim() - self.level) as nat, femtos(self.rate))
        }
    }
}

/// An admission check keeps the capacity and the rate, keeps the level
/// within the capacity, and never moves the refill time back.
pub proof fn lemma_consume_keeps_policy(state: BucketState, now: nat)
    requires
        state.wf(),
    ensures
        state.consume(now).wf(),
        state.consume(now).capacity == state.capacity,
        state.consume(now).rate == state.rate,
        state.consume(now).last_refill >= state.last_refill,
        state.consume(now).last_refill >= now,
{
}

/// The whole tokens reported never exceed the limit, and the reset time is
/// zero exactly when the bucket is full.
pub proof fn law_report_bounds(state: BucketState)
    requires
        state.wf(),
    ensures
        state.remaining() <= state.limit(),
        state.reset_seconds() == 0 <==> state.level >= state.brim(),
{
    if state.level < state.brim() && state.rate > 0 {
        let missing = (state.brim() - state.level) as nat;
        let per_second = femtos(state.rate);
        assert(per_second > 0);
        if missing % per_second == 0 {
            assert(missing / per_second >= 1) by (nonlinear_arith)
                requires
                    missing > 0,
                    per_second > 0,
                    missing % per_second == 0,
            ;
        }
    }
}

/// No double refill: once a bucket has been checked at some time, a refill
/// at that time or at an earlier one adds no tokens and leaves the refill
/// time where it is. A second check at once is the first one's state with
/// one more token taken, if there is one.
pub proof fn law_idle_refill_is_idempotent(state: BucketState, now: nat, again: nat)
    requires
        again <= now,
    ensures
        state.refill(now).refill(again) == state.refill(now),
        state.consume(now).refill(again) == state.consume(now),
        state.consume(now).consume(again) == state.consume(now).take(),
{
}

/// A quotient rounded up stays within `c` when the dividend is at most `c`
/// times a positive number that the divisor is no smaller than.
proof fn lemma_ceil_div_bound(a: nat, b: nat, c: nat, n: nat)
    requires
        0 < n <= b,
        a <= c * n,
    ensures
        ceil_div(a, b) <= c,
{
    let q = a / b;
    let r = a % b;
    assert(a == q * b + r && 0 <= r < b) by (nonlinear_arith)
        requires
            b > 0,
            q == a / b,
            r == a % b,
    ;
    assert(c * n <= c * b) by (nonlinear_arith)
        requires
            n <= b,
    ;
    if r == 0 {
        assert(q <= c) by (nonlinear_arith)
            requires
                q * b <= c * b,
                b > 0,
        ;
    } else {
        assert(q < c) by (nonlinear_arith)
            requires
                q * b < c * b,
                b > 0,
        ;
    }
}

/// An amount of micro-tokens in femto-tokens.
fn femtos_of(micros: u64) -> (amount: u128)
    ensures
        amount == femtos(micros as nat),
{
    micros as u128 * FEMTOS_PER_MICRO
}

/// The femto-tokens gained over `elapsed` nanoseconds at `rate` micro-tokens
/// per second.
fn gain_of(elapsed: u64, rate: u64) -> (gain: u128)
    ensures
        gain == elapsed as nat * rate as nat,
{
    assert(elapsed as nat * rate as nat <= 0xffff_ffff_ffff_ffff * 0xffff_ffff_ffff_ffff)
        by (nonlinear_arith)
        requires
            elapsed <= 0xffff_ffff_ffff_ffff,
            rate <= 0xffff_ffff_ffff_ffff,
    ;
    elapsed as u128 * rate as u128
}

/// A token bucket in fixed-point arithmetic.
#[derive(Clone, Copy, Debug)]
pub struct TokenBucket {
    capacity: u64,
    tokens: u128,
    tokens_per_second: u64,
    last_refill: u64,
}

impl View for TokenBucket {
    type V = BucketState;

    closed spec fn view(&self) -> BucketState {
        BucketState {
            capacity: self.capacity as nat,
            rate: self.tokens_per_second as nat,
            level: self.tokens as nat,
            last_refill: self.last_refill as nat,
        }
    }
}

impl TokenBucket {
    #[verifier::type_invariant]
    spec fn inv(&self) -> bool {
        self@.wf()
    }

    /// A full bucket of `capacity` micro-tokens that refills by
    /// `tokens_per_second` micro-tokens each second, first seen at `now`.
    pub fn new(capacity: u64, tokens_per_second: u64, now: u64) -> (bucket: Self)
        ensures
            bucket@ == BucketState::full(capacity as nat, tokens_per_second as nat, now as nat),
            bucket@.wf(),
    {
        TokenBucket {
            capacity,
            tokens: femtos_of(capacity),
            tokens_per_second,
            last_refill: now,
        }
    }

    /// The advertised request limit: the capacity in whole tokens.
    pub fn limit(&self) -> (limit: u64)
        ensures
            limit == self@.limit(),
            self@.wf(),
    {
        proof {
            use_type_invariant(self);
        }
        self.capacity / MICROS_PER_TOKEN
    }

    /// Adds what has accrued since the last refill, if any time has passed.
    fn refill(&mut self, now: u64)
        ensures
            final(self)@ == old(self)@.refill(now as nat),
    {
        proof {
            use_type_invariant(&*self);
        }
        if now > self.last_refill {
            let brim: u128 = femtos_of(self.capacity);
            let room: u128 = brim - self.tokens;
            let gain: u128 = gain_of(now - self.last_refill, self.tokens_per_second);
            if gain >= room {
                self.tokens = brim;
            } else {
                self.tokens = self.tokens + gain;
            }
            self.last_refill = now;
        }
    }

    /// Whole tokens available.
    fn whole_tokens(&self) -> (count: u64)
        ensures
            count == self@.remaining(),
            count <= self@.limit(),
    {
        proof {
            use_type_invariant(self);
        }
        (self.tokens / FEMTOS_PER_TOKEN) as u64
    }

    /// Seconds until the bucket is full again, rounded up.
    fn seconds_until_full(&self) -> (seconds: u64)
        ensures
            seconds == self@.reset_seconds(),
    {
        proof {
            use_type_invariant(self);
        }
        let brim: u128 = femtos_of(self.capacity);
        if self.tokens >= brim {
            0
        } else if self.tokens_per_second == 0 {
            NEVER
        } else {
            let missing: u128 = brim - self.tokens;
            let per_second: u128 = femtos_of(self.tokens_per_second);
            proof {
                lemma_ceil_div_bound(
                    missing as nat,
                    per_second as nat,
                    self.capacity as nat,
                    FEMTOS_PER_MICRO as nat,
                );
            }
            if missing % per_second == 0 {
                (missing / per_second) as u64
            } else {
                (missing / per_second + 1) as u64
            }
        }
    }

    /// One admission check at time `now`, in nanoseconds.
    ///
    /// The bucket is first refilled for the time that has passed since the
    /// last refill. If it then holds a whole token, the token is taken and
    /// the request is allowed. The result is whether the request is allowed,
    /// the whole tokens left, and the seconds until the bucket is full again.
    pub fn try_consume(&mut self, now: u64) -> (outcome: (bool, u64, u64))
        ensures
            final(self)@ == old(self)@.consume(now as nat),
            outcome.0 == old(self)@.refill(now as nat).admits(),
            outcome.1 == final(self)@.remaining(),
            outcome.2 == final(self)@.reset_seconds(),
            outcome.1 <= final(self)@.limit(),
            outcome.2 == 0 <==> final(self)@.level >= final(self)@.brim(),
            !outcome.0 ==> outcome.1 == 0,
            final(self)@.wf(),
    {
        self.refill(now);
        proof {
            use_type_invariant(&*self);
        }
        let allowed = self.tokens >= FEMTOS_PER_TOKEN;
        if allowed {
            self.tokens = self.tokens - FEMTOS_PER_TOKEN;
        }
        proof {
            law_report_bounds(self@);
        }
        (allowed, self.whole_tokens(), self.seconds_until_full())
    }
}

} // verus!
