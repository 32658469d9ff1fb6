//! Wall-clock readings and the elapsed-time arithmetic between them.
//!
//! A reading is held as plain values (whole seconds plus a nanosecond
//! remainder), so that everything computed from a pair of readings is
//! ordinary verified arithmetic.  Only taking a reading itself goes to
//! the `time` crate.

use vstd::prelude::*;

verus! {

/// Nanoseconds in one second.
pub const NANOS_PER_SEC: i128 = 1_000_000_000;

/// One wall-clock reading: whole seconds since an epoch, plus the
/// nanosecond remainder within that second.
#[derive(Clone, Copy, Debug, PartialEq, Eq, Structural)]
pub struct Timestamp {
    /// Whole seconds since the epoch.
    pub sec: i64,
    /// Nanoseconds within the current second.
    pub nsec: i32,
}

/// A signed span of wall-clock time, counted in nanoseconds.
#[derive(Clone, Copy, Debug, PartialEq, Eq, Structural)]
pub struct Duration {
    /// The span in nanoseconds.  Negative when the later reading was
    /// taken from a clock that had stepped backwards.
    pub nanos: i128,
}

impl Timestamp {
    /// The reading as a single nanosecond count.
    pub open spec fn as_nanos(self) -> int {
        self.sec * (NANOS_PER_SEC as int) + self.nsec
    }

    /// A reading as the clock hands it out: the nanosecond remainder
    /// lies within one second.
    pub open spec fn well_formed(self) -> bool {
        0 <= self.nsec < NANOS_PER_SEC
    }
}

impl Duration {
    /// The span as a mathematical integer.
    pub open spec fn value(self) -> int {
        self.nanos as int
    }
}

/// The signed span from `start` to `end`, in nanoseconds.
pub open spec fn span(start: Timestamp, end: Timestamp) -> int {
    end.as_nanos() - start.as_nanos()
}

/// Relies on `time::now` and `time::Tm::to_timespec` of the `time`
/// crate for the current wall-clock moment; the nanosecond remainder
/// of such a reading lies within one second.
#[verifier::external_body]
pub(crate) fn clock_now() -> (t: Timestamp)
    ensures
        t.well_formed(),
{
    let ts = time::now().to_timespec();
    Timestamp { sec: ts.sec, nsec: ts.nsec }
}

/// The elapsed time from `start` to `end`: exactly the difference of
/// the two readings, nanosecond for nanosecond.
pub fn elapsed_between(start: &Timestamp, end: &Timestamp) -> (d: Duration)
    ensures
        d.value() == span(*start, *end),
{
    let sec_diff: i128 = (end.sec as i128) - (start.sec as i128);
    let nsec_diff: i128 = (end.nsec as i128) - (start.nsec as i128);
    Duration { nanos: sec_diff * NANOS_PER_SEC + nsec_diff }
}

/// Law: an elapsed span measured between a start reading and a terminal
/// reading that is not earlier than it is never negative.
pub proof fn lemma_span_nonnegative(start: Timestamp, end: Timestamp)
    requires
        start.as_nanos() <= end.as_nanos(),
    ensures
        span(start, end) >= 0,
{
}

} // verus!
