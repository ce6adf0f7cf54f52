//! Time as the clock and the scheduler count it: whole nanoseconds on a time
//! line whose origin is fixed when the line begins.

use std::time::Instant;
use vstd::prelude::*;

verus! {

/// Nanoseconds in one millisecond.
pub const NANOS_PER_MILLI: u64 = 1_000_000;

/// A length of time, in whole nanoseconds.
#[derive(Clone, Copy, Debug, PartialEq, Eq, Structural)]
pub struct Span {
    pub nanos: u128,
}

impl Span {
    /// The span of `millis` milliseconds.
    pub fn from_millis(millis: u64) -> (span: Span)
        ensures
            span.nanos == millis * NANOS_PER_MILLI,
    {
        assert(millis * NANOS_PER_MILLI <= u64::MAX * 1_000_000) by (nonlinear_arith)
            requires
                NANOS_PER_MILLI == 1_000_000,
        ;
        Span { nanos: millis as u128 * NANOS_PER_MILLI as u128 }
    }

    /// The whole milliseconds in the span; what is left over is dropped.
    pub fn as_millis(&self) -> (millis: u128)
        ensures
            millis == self.nanos / NANOS_PER_MILLI as u128,
    {
        self.nanos / NANOS_PER_MILLI as u128
    }
}

/// A point on a time line: nanoseconds counted from the line's origin,
/// negative for points before it.
#[derive(Clone, Copy, Debug, PartialEq, Eq, Structural)]
pub struct Moment {
    pub nanos: i64,
}

/// The time from `earlier` to `later`, zero where `later` is not after
/// `earlier`.
pub open spec fn elapsed_between(earlier: int, later: int) -> nat {
    if later > earlier {
        (later - earlier) as nat
    } else {
        0
    }
}

/// The moment that lies `elapsed` nanoseconds after the origin, or the last
/// moment of the line where that is out of its reach.
pub open spec fn moment_after_origin(elapsed: nat) -> int {
    if elapsed <= i64::MAX {
        elapsed as int
    } else {
        i64::MAX as int
    }
}

impl Moment {
    /// The moment `elapsed` nanoseconds after the origin. A time line ends at
    /// `i64::MAX` nanoseconds: a longer time gives that last moment.
    pub fn from_elapsed(elapsed: u128) -> (moment: Moment)
        ensures
            moment.nanos == moment_after_origin(elapsed as nat),
    {
        if elapsed <= i64::MAX as u128 {
            Moment { nanos: elapsed as i64 }
        } else {
            Moment { nanos: i64::MAX }
        }
    }

    /// How long it takes from `self` until `later`: their distance, and zero
    /// where `later` has already passed.
    pub fn span_until(&self, later: Moment) -> (span: Span)
        ensures
            span.nanos == elapsed_between(self.nanos as int, later.nanos as int),
            span.nanos <= u64::MAX,
    {
        if later.nanos > self.nanos {
            Span { nanos: (later.nanos as i128 - self.nanos as i128) as u128 }
        } else {
            Span { nanos: 0 }
        }
    }
}

/// `std::time::Instant`: a reading of the monotonic clock. Nothing is known
/// of what is inside one.
#[verifier::external_type_specification]
#[verifier::external_body]
pub struct ExInstant(Instant);

/// `Instant::now`: some reading of the monotonic clock. Nothing is claimed of
/// the reading.
#[verifier::external_body]
fn read_instant() -> (instant: Instant) {
    Instant::now()
}

/// `Instant::elapsed`, as whole nanoseconds: the time that has passed since
/// `origin`. It differs from call to call, so nothing is claimed of it.
#[verifier::external_body]
fn nanos_since(origin: &Instant) -> (elapsed: u128) {
    origin.elapsed().as_nanos()
}

/// A time line: the moments counted from one fixed instant of the monotonic
/// clock. Copies of a time line share its origin, so their moments compare.
#[derive(Clone, Copy, Debug)]
pub struct Timeline {
    origin: Instant,
}

impl Timeline {
    /// A time line whose origin is the instant of the call.
    pub fn begin() -> (timeline: Timeline) {
        Timeline { origin: read_instant() }
    }

    /// The current moment on this line. It is never before the origin.
    pub fn now(&self) -> (moment: Moment)
        ensures
            0 <= moment.nanos,
    {
        let elapsed: u128 = nanos_since(&self.origin);
        Moment::from_elapsed(elapsed)
    }
}

} // verus!
