//! Measuring how long something takes.

use vstd::prelude::*;
use std::time::{Duration, Instant};

verus! {

/// `std::time::Instant`: a reading of the monotonic clock. Nothing inside it
/// is visible to the verifier; it is only carried from one clock call to the
/// next.
#[verifier::external_type_specification]
#[verifier::external_body]
pub struct ExInstant(std::time::Instant);

/// `Instant::now` of std: the reading of the monotonic clock at the call.
/// Nothing is promised of it: two calls may give any two readings.
#[verifier::external_body]
fn clock_now() -> Instant {
    Instant::now()
}

/// What `Instant::saturating_duration_since` of std returns: the time that
/// passed from `earlier` to `later`, or no time at all where `earlier` is the
/// later of the two. It depends on the two instants and on nothing else, so
/// that it can be named; which instant the clock gives at a call cannot be.
pub uninterp spec fn time_elapsed(earlier: Instant, later: Instant) -> Duration;

/// A running measurement: the instant it was started at.
pub struct DurationMeasurement {
    start: Instant,
}

impl DurationMeasurement {
    /// Starts a measurement at the present instant.
    pub fn starting_now() -> DurationMeasurement {
        DurationMeasurement { start: clock_now() }
    }

    /// The time that has passed since the measurement was started.
    pub fn duration_since_start(&self) -> (elapsed: Duration)
        ensures
            exists|now: Instant| elapsed == time_elapsed(self.started_at(), now),
    {
        let now = clock_now();
        self.duration_until(&now)
    }

    /// The instant the measurement was started at.
    pub closed spec fn started_at(&self) -> Instant {
        self.start
    }

    /// Starts a measurement at the given instant.
    pub fn starting_at(start: Instant) -> (m: DurationMeasurement)
        ensures
            m.started_at() == start,
    {
        DurationMeasurement { start }
    }

    /// The time from the start of the measurement to `now`.
    pub fn duration_until(&self, now: &Instant) -> (elapsed: Duration)
        ensures
            elapsed == time_elapsed(self.started_at(), *now),
    {
        time_between(now, &self.start)
    }
}

/// `Instant::saturating_duration_since` of std, called on `later` with
/// `earlier`: the time from `earlier` to `later`, or no time at all where
/// `earlier` is the later of the two. It is documented never to panic.
#[verifier::external_body]
fn time_between(later: &Instant, earlier: &Instant) -> (elapsed: Duration)
    ensures
        elapsed == time_elapsed(*earlier, *later),
{
    later.saturating_duration_since(*earlier)
}

/// Runs `f` and returns what it returned, together with the time it took:
/// the time from a reading of the clock before the call to one after it.
pub fn measure<T, F: FnOnce() -> T>(f: F) -> (timed: (T, Duration))
    requires
        f.requires(()),
    ensures
        f.ensures((), timed.0),
        exists|before: Instant, after: Instant| timed.1 == time_elapsed(before, after),
{
    let m = DurationMeasurement::starting_now();
    let t = f();
    (t, m.duration_since_start())
}

} // verus!
