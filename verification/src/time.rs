//! Waiting times and the clock that retries are measured against.
use std::time::Instant;

use vstd::prelude::*;

verus! {

/// The longest span that the clock can report, in nanoseconds: as many whole
/// seconds as a `u64` holds and the last nanosecond before the next one.
pub const MAX_CLOCK_NANOS: u128 = 18_446_744_073_709_551_615_999_999_999;

/// A waiting time, in whole seconds and the nanoseconds on top of them.
#[derive(Clone, Copy, Debug, PartialEq, Eq, Structural)]
pub struct Backoff {
    pub secs: u64,
    pub subsec_nanos: u32,
}

impl Backoff {
    /// The waiting time in nanoseconds.
    pub open spec fn nanos(self) -> nat {
        (self.secs * 1_000_000_000 + self.subsec_nanos) as nat
    }

    /// The waiting time in whole milliseconds.
    pub open spec fn millis(self) -> nat {
        (self.secs * 1_000 + self.subsec_nanos as int / 1_000_000) as nat
    }

    /// A waiting time of whole seconds.
    pub fn from_secs(secs: u64) -> (backoff: Backoff)
        ensures
            backoff.secs == secs,
            backoff.subsec_nanos == 0,
    {
        Backoff { secs, subsec_nanos: 0 }
    }

    /// The waiting time in whole milliseconds.
    pub fn as_millis(self) -> (millis: u128)
        ensures
            millis == self.millis(),
    {
        self.secs as u128 * 1_000 + (self.subsec_nanos / 1_000_000) as u128
    }

    /// The waiting time in nanoseconds.
    pub fn as_nanos(self) -> (nanos: u128)
        ensures
            nanos == self.nanos(),
    {
        self.secs as u128 * 1_000_000_000 + self.subsec_nanos as u128
    }
}

/// A reading of the machine's monotonic clock.
#[verifier::external_type_specification]
#[verifier::external_body]
pub struct ExInstant(std::time::Instant);

/// Reads the monotonic clock with `Instant::now`.
///
/// Nothing is claimed of the reading: it is whatever the machine's clock shows.
#[verifier::external_body]
pub(crate) fn clock_start() -> (start: Instant) {
    Instant::now()
}

/// How long ago `start` was read, in nanoseconds, by `Instant::elapsed`.
///
/// The span that comes back is a `Duration`, so it is claimed to be no longer
/// than the longest one. How long it is depends on the machine's clock.
#[verifier::external_body]
pub(crate) fn nanos_since(start: &Instant) -> (nanos: u128)
    ensures
        nanos <= MAX_CLOCK_NANOS,
{
    start.elapsed().as_nanos()
}

/// A second has a thousand million nanoseconds, and the milliseconds of a
/// waiting time are as many as are over when it is.
pub proof fn waiting_time_in_its_units(backoff: Backoff)
    ensures
        backoff.nanos() - backoff.subsec_nanos == backoff.secs * 1_000_000_000,
        backoff.millis() * 1_000_000 <= backoff.nanos(),
        backoff.nanos() < (backoff.millis() + 1) * 1_000_000,
{
}

} // verus!
