//! Date-times read out of text and clock readings written as text, both done
//! by the `time` crate.
//!
//! What `time` makes of a text under a format description, and what it writes
//! under one, is not restated here. Each is given a name, [`date_time_parsed`]
//! and [`clock_written`], and the one function that makes the call is trusted
//! to return what the name stands for.

use vstd::prelude::*;

verus! {

/// The diagnostic with which `time` rejects a text.
#[verifier::external_type_specification]
#[verifier::external_body]
pub struct ExParse(time::error::Parse);

/// What `time::PrimitiveDateTime::parse` makes of `text` under the format
/// description written as `description`: the Julian day number, hour, minute
/// and second of the date-time read. There is none where `time` rejects the
/// text, and where `description` is not a format description.
pub uninterp spec fn date_time_parsed(text: Seq<char>, description: Seq<char>) -> Option<
    (i32, u8, u8, u8),
>;

/// Calls `time::PrimitiveDateTime::parse` on `text`, with the format that
/// `time::format_description::parse_borrowed` (version 1) builds from
/// `description`, and hands back the Julian day number and the clock reading
/// of the result, or the diagnostic of `parse`; there is no diagnostic when
/// it did not come to that call.
///
/// Trusted: that whether a date-time is read, and which, depends on the two
/// texts alone.
#[verifier::external_body]
pub(crate) fn read_date_time(text: &str, description: &str) -> (outcome: Result<
    (i32, u8, u8, u8),
    Option<time::error::Parse>,
>)
    ensures
        match outcome {
            Ok(read) => date_time_parsed(text@, description@) == Some(read),
            Err(_) => date_time_parsed(text@, description@) is None,
        },
{
    let Ok(format) = time::format_description::parse_borrowed::<1>(description) else {
        return Err(None);
    };
    match time::PrimitiveDateTime::parse(text, &format) {
        Ok(read) => Ok((read.to_julian_day(), read.hour(), read.minute(), read.second())),
        Err(diagnostic) => Err(Some(diagnostic)),
    }
}

/// The diagnostic with which `time` fails to write a value.
#[verifier::external_type_specification]
#[verifier::external_body]
pub struct ExFormat(time::error::Format);

/// What `time::Time::format` writes for the clock reading
/// `hour:minute:second` under the format description written as
/// `description`. There is no text where the reading is not one of a 24-hour
/// clock, where `description` is not a format description, and where `time`
/// cannot write the reading under it.
pub uninterp spec fn clock_written(hour: u8, minute: u8, second: u8, description: Seq<char>) -> Option<
    Seq<char>,
>;

/// Calls `time::Time::format` on the clock reading that `time::Time::from_hms`
/// makes of `hour`, `minute` and `second`, with the format that
/// `time::format_description::parse_borrowed` (version 1) builds from
/// `description`. The diagnostic is that of `format`; there is none when it
/// did not come to that call.
///
/// Trusted: that the text written depends on the reading and the description
/// alone.
#[verifier::external_body]
pub(crate) fn write_clock(hour: u8, minute: u8, second: u8, description: &str) -> (outcome: Result<
    String,
    Option<time::error::Format>,
>)
    ensures
        match outcome {
            Ok(text) => clock_written(hour, minute, second, description@) == Some(text@),
            Err(_) => clock_written(hour, minute, second, description@) is None,
        },
{
    let Ok(format) = time::format_description::parse_borrowed::<1>(description) else {
        return Err(None);
    };
    let Ok(reading) = time::Time::from_hms(hour, minute, second) else {
        return Err(None);
    };
    match reading.format(&format) {
        Ok(text) => Ok(text),
        Err(diagnostic) => Err(Some(diagnostic)),
    }
}

} // verus!
