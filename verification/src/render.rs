//! Spans of time as text, in hours and minutes, and instants as the time of
//! day.

use crate::calendar::{clock_written, write_clock};
use crate::duration::{quotient_toward_zero, Duration, SECONDS_PER_HOUR, SECONDS_PER_MINUTE};
use crate::timestamp::Timestamp;
use vstd::prelude::*;
use vstd::string::StringExecFns;

verus! {

/// The character that stands for a digit.
pub open spec fn digit(d: int) -> char {
    if d == 0 {
        '0'
    } else if d == 1 {
        '1'
    } else if d == 2 {
        '2'
    } else if d == 3 {
        '3'
    } else if d == 4 {
        '4'
    } else if d == 5 {
        '5'
    } else if d == 6 {
        '6'
    } else if d == 7 {
        '7'
    } else if d == 8 {
        '8'
    } else {
        '9'
    }
}

/// A number in decimal digits, without leading zeros.
pub open spec fn decimal(n: nat) -> Seq<char>
    decreases n,
{
    if n < 10 {
        seq![digit(n as int)]
    } else {
        decimal(n / 10).push(digit((n % 10) as int))
    }
}

/// The size of a number.
pub open spec fn magnitude(n: int) -> nat {
    if n < 0 {
        (-n) as nat
    } else {
        n as nat
    }
}

/// The full hours in a span of `seconds` seconds, rounded toward zero.
pub open spec fn hours_in(seconds: int) -> int {
    quotient_toward_zero(seconds, SECONDS_PER_HOUR as int)
}

/// The full minutes in what a span of `seconds` seconds holds beyond its full
/// hours, rounded toward zero.
pub open spec fn minutes_past_hour(seconds: int) -> int {
    quotient_toward_zero(seconds - hours_in(seconds) * SECONDS_PER_HOUR, SECONDS_PER_MINUTE as int)
}

/// A span of `seconds` seconds in words: `3 hours, 25 minutes`. A span that
/// runs backwards starts with a minus sign; the numbers themselves carry none.
pub open spec fn spec_hours_mins(seconds: int) -> Seq<char> {
    (if seconds < 0 {
        seq!['-']
    } else {
        Seq::empty()
    }) + decimal(magnitude(hours_in(seconds))) + " hours, "@ + decimal(
        magnitude(minutes_past_hour(seconds)),
    ) + " minutes"@
}

/// The text of one digit.
fn digit_text(d: u64) -> (text: &'static str)
    requires
        d < 10,
    ensures
        text@ == seq![digit(d as int)],
{
    proof {
        reveal_strlit("0");
        reveal_strlit("1");
        reveal_strlit("2");
        reveal_strlit("3");
        reveal_strlit("4");
        reveal_strlit("5");
        reveal_strlit("6");
        reveal_strlit("7");
        reveal_strlit("8");
        reveal_strlit("9");
    }
    let text = if d == 0 {
        "0"
    } else if d == 1 {
        "1"
    } else if d == 2 {
        "2"
    } else if d == 3 {
        "3"
    } else if d == 4 {
        "4"
    } else if d == 5 {
        "5"
    } else if d == 6 {
        "6"
    } else if d == 7 {
        "7"
    } else if d == 8 {
        "8"
    } else {
        "9"
    };
    assert(text@ =~= seq![digit(d as int)]);
    text
}

/// Writes `n` in decimal digits at the end of `out`.
fn append_decimal(out: &mut String, n: u64)
    ensures
        final(out)@ == old(out)@ + decimal(n as nat),
    decreases n,
{
    if n >= 10 {
        append_decimal(out, n / 10);
    }
    out.append(digit_text(n % 10));
    assert(out@ =~= old(out)@ + decimal(n as nat));
}

/// The size of a number.
fn size(n: i64) -> (m: u64)
    requires
        n > i64::MIN,
    ensures
        m == magnitude(n as int),
{
    if n < 0 {
        (-n) as u64
    } else {
        n as u64
    }
}

/// Writes a span in hours and minutes, as in `3 hours, 25 minutes`; a span
/// that runs backwards gets a minus sign in front.
pub fn hours_mins(duration: Duration) -> (text: String)
    ensures
        text@ == spec_hours_mins(duration@),
{
    let hours: i64 = duration.whole_hours();
    let past_hour = Duration::seconds(duration.whole_seconds() - hours * SECONDS_PER_HOUR);
    let minutes: i64 = past_hour.whole_minutes();
    let mut text = String::new();
    if duration.is_negative() {
        proof {
            reveal_strlit("-");
        }
        text.append("-");
    }
    append_decimal(&mut text, size(hours));
    text.append(" hours, ");
    append_decimal(&mut text, size(minutes));
    text.append(" minutes");
    assert(text@ =~= spec_hours_mins(duration@));
    text
}

/// The format of a time of day, as a format description of the `time` crate:
/// `HH:MM` on a 24-hour clock.
pub const HOUR_MINUTE_FORMAT: &'static str = "[hour]:[minute]";

/// The time of day could not be written.
#[derive(Debug)]
pub struct FormatError {
    /// The diagnostic of the `time` crate, when it gave one.
    pub diagnostic: Option<time::error::Format>,
}

/// The time of day of `date_time` as written under [`HOUR_MINUTE_FORMAT`].
pub open spec fn spec_format_time(date_time: Timestamp) -> Option<Seq<char>> {
    clock_written(
        date_time.spec_as_hms().0,
        date_time.spec_as_hms().1,
        date_time.spec_as_hms().2,
        HOUR_MINUTE_FORMAT@,
    )
}

/// The text that `time` wrote, or the error that stands for its failure.
pub fn written(outcome: Result<String, Option<time::error::Format>>) -> (text: Result<
    String,
    FormatError,
>)
    ensures
        match outcome {
            Ok(written) => text == Ok::<String, FormatError>(written),
            Err(diagnostic) => text == Err::<String, FormatError>(FormatError { diagnostic }),
        },
{
    match outcome {
        Ok(written) => Ok(written),
        Err(diagnostic) => Err(FormatError { diagnostic }),
    }
}

/// Writes the time of day of an instant as `HH:MM`.
pub fn format_time(date_time: Timestamp) -> (text: Result<String, FormatError>)
    ensures
        match text {
            Ok(written) => spec_format_time(date_time) == Some(written@),
            Err(_) => spec_format_time(date_time) is None,
        },
{
    let (hour, minute, second) = date_time.as_hms();
    written(write_clock(hour, minute, second, HOUR_MINUTE_FORMAT))
}

} // verus!
