//! Wall-clock measurement of elapsed time, through the `time` crate.

use vstd::prelude::*;

verus! {

/// The largest magnitude, in nanoseconds, of a `time::Duration`: `i64`
/// seconds together with fewer than a billion nanoseconds of the same sign.
pub const DURATION_NS_BOUND: i128 = 9_223_372_036_854_775_808_999_999_999;

#[verifier::external_type_specification]
#[verifier::external_body]
pub struct ExOffsetDateTime(time::OffsetDateTime);

#[verifier::external_type_specification]
#[verifier::external_body]
pub struct ExSignedDuration(time::SignedDuration);

/// Relies on time::OffsetDateTime::now_utc to read the system clock; nothing
/// is known of the instant it returns.
pub assume_specification[ time::OffsetDateTime::now_utc ]() -> time::OffsetDateTime;

/// Relies on time::SignedDuration::whole_nanoseconds: whole seconds (an
/// `i64`) times a billion plus the nanoseconds within the second, which are
/// below a billion in magnitude.
pub assume_specification[ time::SignedDuration::whole_nanoseconds ](
    d: time::SignedDuration,
) -> (r: i128)
    ensures
        -DURATION_NS_BOUND <= r <= DURATION_NS_BOUND,
;

/// Relies on `time::OffsetDateTime - time::OffsetDateTime` for the signed
/// time from `start` to `end`; between two instants of the clock it cannot
/// overflow.
#[verifier::external_body]
fn time_between(start: time::OffsetDateTime, end: time::OffsetDateTime) -> time::SignedDuration {
    end - start
}

/// A running measurement of wall-clock time.
pub struct Stopwatch {
    start: time::OffsetDateTime,
}

impl Stopwatch {
    /// Starts measuring now.
    pub fn start() -> Stopwatch {
        Stopwatch { start: time::OffsetDateTime::now_utc() }
    }

    /// The nanoseconds from the start to now. The clock is the wall clock,
    /// so the value may be negative; it is always within a duration's range.
    pub fn elapsed_ns(&self) -> (r: i128)
        ensures
            -DURATION_NS_BOUND <= r <= DURATION_NS_BOUND,
    {
        let now = time::OffsetDateTime::now_utc();
        time_between(self.start, now).whole_nanoseconds()
    }
}

} // verus!
