//! Wall-clock instants to the second, and the calendar days they fall on.
//!
//! An instant is held as the number of seconds that separate it from the start
//! of Julian day 0, so that ordering, differences and shifts are plain integer
//! arithmetic. No time zone is attached: instants are local wall-clock readings.

use crate::duration::{Duration, SECONDS_PER_DAY, SECONDS_PER_HOUR, SECONDS_PER_MINUTE};
use vstd::prelude::*;

verus! {

/// A calendar day, named by its Julian day number.
#[derive(Clone, Copy, Debug, PartialEq, Eq, PartialOrd, Ord, Hash, Structural)]
pub struct Date {
    /// The Julian day number of the day.
    pub julian_day: i64,
}

/// A wall-clock instant with a resolution of one second.
#[derive(Clone, Copy, Debug, PartialEq, Eq, PartialOrd, Ord, Hash, Structural)]
pub struct Timestamp {
    /// Seconds elapsed since 00:00:00 on Julian day 0; negative before it.
    pub seconds: i64,
}

impl View for Timestamp {
    type V = int;

    /// Seconds elapsed since 00:00:00 on Julian day 0.
    open spec fn view(&self) -> int {
        self.seconds as int
    }
}

impl Timestamp {
    /// Whether a count of seconds since Julian day 0 can be held by a `Timestamp`.
    pub open spec fn fits(seconds: int) -> bool {
        i64::MIN <= seconds <= i64::MAX
    }

    /// The count of seconds at which a clock reading on a Julian day stands.
    pub open spec fn seconds_at(julian_day: int, hour: int, minute: int, second: int) -> int {
        julian_day * SECONDS_PER_DAY + hour * SECONDS_PER_HOUR + minute * SECONDS_PER_MINUTE
            + second
    }

    /// The Julian day number of the day the instant falls on.
    pub open spec fn spec_julian_day(self) -> int {
        self@ / (SECONDS_PER_DAY as int)
    }

    /// The seconds elapsed since midnight of the instant's day.
    pub open spec fn spec_second_of_day(self) -> int {
        self@ % (SECONDS_PER_DAY as int)
    }

    /// The calendar day the instant falls on.
    pub open spec fn spec_date(self) -> Date {
        Date { julian_day: self.spec_julian_day() as i64 }
    }

    /// The clock reading of the instant: the hour of its day, the minute of
    /// that hour and the second of that minute.
    pub open spec fn spec_as_hms(self) -> (u8, u8, u8) {
        (
            (self.spec_second_of_day() / (SECONDS_PER_HOUR as int)) as u8,
            (self.spec_second_of_day() / (SECONDS_PER_MINUTE as int) % 60) as u8,
            (self.spec_second_of_day() % (SECONDS_PER_MINUTE as int)) as u8,
        )
    }

    /// The instant at `hour:minute:second` on the day numbered `julian_day`, or
    /// `None` when the clock reading is not one of a 24-hour clock.
    pub fn new(julian_day: i32, hour: u8, minute: u8, second: u8) -> (instant: Option<Timestamp>)
        ensures
            instant is Some <==> hour < 24 && minute < 60 && second < 60,
            instant matches Some(t) ==> {
                &&& t@ == Self::seconds_at(julian_day as int, hour as int, minute as int, second as int)
                &&& t.spec_julian_day() == julian_day
                &&& t.spec_second_of_day() == hour * SECONDS_PER_HOUR + minute * SECONDS_PER_MINUTE
                    + second
            },
    {
        if hour < 24 && minute < 60 && second < 60 {
            let of_day: i64 = (hour as i64) * SECONDS_PER_HOUR + (minute as i64)
                * SECONDS_PER_MINUTE + (second as i64);
            Some(Timestamp { seconds: (julian_day as i64) * SECONDS_PER_DAY + of_day })
        } else {
            None
        }
    }

    /// The Julian day number of the day the instant falls on.
    pub fn julian_day(self) -> (day: i64)
        ensures
            day == self.spec_julian_day(),
    {
        let quotient: i64 = self.seconds / SECONDS_PER_DAY;
        if self.seconds % SECONDS_PER_DAY < 0 {
            quotient - 1
        } else {
            quotient
        }
    }

    /// The seconds elapsed since midnight of the instant's day.
    pub fn second_of_day(self) -> (of_day: u32)
        ensures
            of_day == self.spec_second_of_day(),
            of_day < SECONDS_PER_DAY,
    {
        let remainder: i64 = self.seconds % SECONDS_PER_DAY;
        if remainder < 0 {
            (remainder + SECONDS_PER_DAY) as u32
        } else {
            remainder as u32
        }
    }

    /// The calendar day the instant falls on.
    pub fn date(self) -> (day: Date)
        ensures
            day == self.spec_date(),
    {
        Date { julian_day: self.julian_day() }
    }

    /// The clock reading of the instant: hour, minute and second.
    pub fn as_hms(self) -> (reading: (u8, u8, u8))
        ensures
            reading == self.spec_as_hms(),
            reading.0 < 24 && reading.1 < 60 && reading.2 < 60,
            self.spec_second_of_day() == reading.0 * SECONDS_PER_HOUR + reading.1
                * SECONDS_PER_MINUTE + reading.2,
    {
        let of_day: u32 = self.second_of_day();
        ((of_day / 3600) as u8, (of_day / 60 % 60) as u8, (of_day % 60) as u8)
    }

    /// Whether the instant lies strictly before `other`.
    pub fn is_before(self, other: Timestamp) -> (before: bool)
        ensures
            before == (self@ < other@),
    {
        self.seconds < other.seconds
    }

    /// The span from `earlier` to this instant, or `None` when it cannot be held.
    pub fn checked_since(self, earlier: Timestamp) -> (span: Option<Duration>)
        ensures
            span is Some <==> Duration::fits(self@ - earlier@),
            span matches Some(d) ==> d@ == self@ - earlier@,
    {
        match self.seconds.checked_sub(earlier.seconds) {
            Some(seconds) => Some(Duration { seconds }),
            None => None,
        }
    }

    /// The instant shifted by `span`, or `None` when it cannot be held.
    pub fn checked_add(self, span: Duration) -> (shifted: Option<Timestamp>)
        ensures
            shifted is Some <==> Self::fits(self@ + span@),
            shifted matches Some(t) ==> t@ == self@ + span@,
    {
        match self.seconds.checked_add(span.seconds) {
            Some(seconds) => Some(Timestamp { seconds }),
            None => None,
        }
    }
}

} // verus!
