//! Signed spans of time, counted in whole seconds.
//!
//! A timeclock log records punches to the second, so every span the library
//! handles is a whole number of seconds. A span may be negative: a deficit, or
//! time already worked beyond a target.

use vstd::prelude::*;

verus! {

/// Seconds in one minute.
pub const SECONDS_PER_MINUTE: i64 = 60;

/// Seconds in one hour.
pub const SECONDS_PER_HOUR: i64 = 3600;

/// Seconds in one day.
pub const SECONDS_PER_DAY: i64 = 86400;

/// The quotient of `a` by a positive `b`, rounded toward zero.
pub open spec fn quotient_toward_zero(a: int, b: int) -> int
    recommends
        b > 0,
{
    if a >= 0 {
        a / b
    } else {
        -((-a) / b)
    }
}

/// A signed span of time in whole seconds.
#[derive(Clone, Copy, Debug, PartialEq, Eq, Hash, Structural)]
pub struct Duration {
    /// The length of the span in seconds; negative for a span that runs backwards.
    pub seconds: i64,
}

impl View for Duration {
    type V = int;

    /// The length of the span in seconds.
    open spec fn view(&self) -> int {
        self.seconds as int
    }
}

impl Duration {
    /// Whether a number of seconds can be held by a `Duration`.
    pub open spec fn fits(seconds: int) -> bool {
        i64::MIN <= seconds <= i64::MAX
    }

    /// The empty span.
    pub fn zero() -> (span: Duration)
        ensures
            span@ == 0,
    {
        Duration { seconds: 0 }
    }

    /// A span of `seconds` seconds.
    pub fn seconds(seconds: i64) -> (span: Duration)
        ensures
            span@ == seconds,
    {
        Duration { seconds }
    }

    /// A span of `hours` hours.
    pub fn hours(hours: i64) -> (span: Duration)
        requires
            Self::fits(hours * SECONDS_PER_HOUR),
        ensures
            span@ == hours * SECONDS_PER_HOUR,
    {
        Duration { seconds: hours * SECONDS_PER_HOUR }
    }

    /// The number of seconds in the span.
    pub fn whole_seconds(self) -> (n: i64)
        ensures
            n == self@,
    {
        self.seconds
    }

    /// The number of full minutes in the span, rounded toward zero.
    pub fn whole_minutes(self) -> (n: i64)
        ensures
            n == quotient_toward_zero(self@, SECONDS_PER_MINUTE as int),
    {
        self.seconds / SECONDS_PER_MINUTE
    }

    /// The number of full hours in the span, rounded toward zero.
    pub fn whole_hours(self) -> (n: i64)
        ensures
            n == quotient_toward_zero(self@, SECONDS_PER_HOUR as int),
    {
        self.seconds / SECONDS_PER_HOUR
    }

    /// Whether the span runs backwards.
    pub fn is_negative(self) -> (negative: bool)
        ensures
            negative == (self@ < 0),
    {
        self.seconds < 0
    }

    /// The sum of two spans, or `None` when it cannot be held.
    pub fn checked_add(self, other: Duration) -> (sum: Option<Duration>)
        ensures
            sum is Some <==> Self::fits(self@ + other@),
            sum matches Some(d) ==> d@ == self@ + other@,
    {
        match self.seconds.checked_add(other.seconds) {
            Some(seconds) => Some(Duration { seconds }),
            None => None,
        }
    }
}

/// Tells whether a number of seconds can be held by a `Duration`.
pub(crate) fn within_range(seconds: i128) -> (within: bool)
    ensures
        within == Duration::fits(seconds as int),
{
    -0x8000_0000_0000_0000 <= seconds && seconds <= 0x7fff_ffff_ffff_ffff
}

} // verus!
