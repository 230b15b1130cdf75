//! A monotonic clock that counts nanoseconds from the moment it was made.

use std::time::Duration;
use std::time::Instant;
use vstd::prelude::*;

verus! {

#[verifier::external_type_specification]
#[verifier::external_body]
pub struct ExInstant(Instant);

/// `Instant::now` reads the system's monotonic clock. Nothing is claimed of
/// the reading.
pub assume_specification[ Instant::now ]() -> (now: Instant);

/// `Instant::elapsed` is the time that has passed since the instant was
/// taken. Nothing is claimed of its length.
pub assume_specification[ Instant::elapsed ](instant: &Instant) -> (passed: Duration);

/// `Duration::as_nanos` is the duration in whole nanoseconds. Nothing is
/// claimed of the number.
pub assume_specification[ Duration::as_nanos ](duration: &Duration) -> (nanos: u128);

/// A monotonic clock. Its readings start near zero when it is made.
pub struct Clock {
    origin: Instant,
}

impl Clock {
    /// A clock that starts now.
    pub fn new() -> Clock {
        Clock { origin: Instant::now() }
    }

    /// Nanoseconds since the clock was made. A reading that does not fit
    /// is reported as the largest one that does: see `reading_of`.
    pub fn now(&self) -> u64 {
        reading_of(self.origin.elapsed().as_nanos())
    }
}

/// The largest reading that a clock reports.
pub const LAST_READING: u64 = 0xffff_ffff_ffff_ffff;

/// A count of nanoseconds as a clock reports it: the count itself, or the
/// largest reading if the count is beyond it.
pub open spec fn reading(nanos: nat) -> nat {
    if nanos > LAST_READING as nat {
        LAST_READING as nat
    } else {
        nanos
    }
}

/// The reading that a clock reports when `nanos` nanoseconds have passed
/// since it was made.
pub fn reading_of(nanos: u128) -> (shown: u64)
    ensures
        shown == reading(nanos as nat),
{
    if nanos > LAST_READING as u128 {
        LAST_READING
    } else {
        nanos as u64
    }
}

} // verus!
