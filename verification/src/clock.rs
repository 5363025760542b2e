//! A monotonic clock whose readings are plain numbers: nanoseconds elapsed
//! since the clock was started.

use std::time::{Duration, Instant};
use vstd::prelude::*;

verus! {

#[verifier::external_type_specification]
#[verifier::external_body]
pub struct ExInstant(Instant);

/// Nanoseconds in one second.
pub const NANOS_PER_SEC: u128 = 1_000_000_000;

/// The longest span a `Duration` can hold (`u64::MAX` seconds plus
/// 999 999 999 nanoseconds), in nanoseconds.
pub const MAX_DURATION_NANOS: u128 = 18_446_744_073_709_551_615_999_999_999;

/// `Instant::now`: a reading of the operating system's monotonic clock.
/// Nothing is stated of the reading.
#[verifier::external_body]
fn instant_now() -> Instant {
    Instant::now()
}

/// `Instant::elapsed`: the time that has passed since `origin` (zero if the
/// clock reads earlier than `origin`). Nothing is stated of the span, which
/// depends on when the call is made.
#[verifier::external_body]
fn instant_elapsed(origin: &Instant) -> Duration {
    origin.elapsed()
}

/// `Duration::as_nanos`: the whole span in nanoseconds. The contract claims
/// only the bound that every `Duration` obeys.
#[verifier::external_body]
fn duration_as_nanos(d: &Duration) -> (n: u128)
    ensures
        n <= MAX_DURATION_NANOS,
{
    d.as_nanos()
}

/// A monotonic clock, read as the nanoseconds elapsed since it was started.
/// It remembers its latest recorded reading, so that readings taken from it
/// never go back in time.
#[derive(Debug)]
pub struct MonotonicClock {
    origin: Instant,
    last: u128,
}

impl MonotonicClock {
    /// Readings stay within what a `Duration` can span.
    #[verifier::type_invariant]
    pub closed spec fn well_formed(self) -> bool {
        self.last <= MAX_DURATION_NANOS
    }

    /// The latest reading recorded on the clock (0 when none was).
    pub closed spec fn last_reading(self) -> u128 {
        self.last
    }

    /// The clock once reading `t` has been recorded on it.
    pub closed spec fn advanced_to(self, t: u128) -> MonotonicClock {
        MonotonicClock { last: t, ..self }
    }

    /// Recording a reading makes it the latest one, in place of any recorded
    /// before; recording the latest reading again changes nothing.
    pub proof fn lemma_advanced_to(self, t: u128, u: u128)
        ensures
            self.advanced_to(t).last_reading() == t,
            self.advanced_to(self.last_reading()) == self,
            self.advanced_to(t).advanced_to(u) == self.advanced_to(u),
    {
    }

    /// A well-formed clock's latest reading is within a `Duration`'s span.
    pub proof fn lemma_reading_in_range(self)
        requires
            self.well_formed(),
        ensures
            self.last_reading() <= MAX_DURATION_NANOS,
    {
    }

    /// Starts a clock at the current instant.
    pub fn start() -> (c: MonotonicClock)
        ensures
            c.last_reading() == 0,
    {
        MonotonicClock { origin: instant_now(), last: 0 }
    }

    /// Nanoseconds elapsed since the clock was started, never less than the
    /// latest recorded reading.
    pub fn now_nanos(&self) -> (t: u128)
        ensures
            self.last_reading() <= t,
            t <= MAX_DURATION_NANOS,
    {
        proof { use_type_invariant(self); }
        let d = instant_elapsed(&self.origin);
        let elapsed = duration_as_nanos(&d);
        if elapsed < self.last {
            self.last
        } else {
            elapsed
        }
    }

    /// Takes a reading, as `now_nanos` does, and records it as the latest.
    pub fn tick(&mut self) -> (t: u128)
        ensures
            old(self).last_reading() <= t,
            t <= MAX_DURATION_NANOS,
            *final(self) == old(self).advanced_to(t),
    {
        let t = self.now_nanos();
        self.last = t;
        t
    }
}

} // verus!
