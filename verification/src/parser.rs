//! The line grammar of a timeclock log.
//!
//! A punch line holds the direction of the punch in its first column, one
//! separator, and a timestamp in the nineteen bytes that follow; whatever
//! comes after the timestamp is not read:
//!
//! ```text
//! i 2022/04/22 21:33:23 e:fc:fred
//! o 2022/04/22 22:10:00
//! ```

use crate::calendar::{date_time_parsed, read_date_time};
use crate::timestamp::Timestamp;
use vstd::prelude::*;
use vstd::string::StrSliceExecFns;
use vstd::string::StringSliceAdditionalSpecFns;
use vstd::utf8::{decode_utf8, encode_utf8, is_char_boundary};

verus! {

/// The format of a timestamp, as a format description of the `time` crate:
/// `YYYY/MM/DD HH:MM:SS` on a 24-hour clock, every field zero-padded.
pub const TIMESTAMP_FORMAT: &'static str = "[year]/[month]/[day] [hour repr:24]:[minute]:[second]";

/// The byte offset at which the timestamp of a punch line starts.
pub const TIMESTAMP_START: usize = 2;

/// The byte offset at which the timestamp of a punch line ends.
pub const TIMESTAMP_END: usize = 21;

/// The direction of a punch.
#[derive(Clone, Copy, Debug, PartialEq, Eq, Hash, Structural)]
pub enum ClockType {
    /// A clock-in: work starts.
    In,
    /// A clock-out: work stops.
    Out,
}

/// Why a line is not a punch line.
#[derive(Clone, Copy, Debug, PartialEq, Eq)]
pub enum ParseError {
    /// The line is empty, so it has no direction column.
    EmptyClockType,
    /// The direction column holds this character, which names no direction.
    UnknownClockType(char),
    /// The timestamp cannot be read. The diagnostic of the `time` crate is
    /// attached when `time` was asked and gave one; a line without a
    /// timestamp field never gets that far.
    UnparseableDate(Option<time::error::Parse>),
}

impl ParseError {
    /// The error without the diagnostic of the `time` crate.
    pub open spec fn undiagnosed(self) -> ParseError {
        match self {
            ParseError::UnparseableDate(_) => ParseError::UnparseableDate(None),
            other => other,
        }
    }
}

/// An outcome without the diagnostic of the `time` crate, if it is an error
/// that carries one.
pub open spec fn undiagnosed<T>(outcome: Result<T, ParseError>) -> Result<T, ParseError> {
    match outcome {
        Ok(value) => Ok(value),
        Err(error) => Err(error.undiagnosed()),
    }
}

impl ClockType {
    /// The direction that the first character of `s` names.
    pub open spec fn spec_from_str(s: Seq<char>) -> Result<ClockType, ParseError> {
        if s.len() == 0 {
            Err(ParseError::EmptyClockType)
        } else if s[0] == 'i' || s[0] == 'I' {
            Ok(ClockType::In)
        } else if s[0] == 'o' || s[0] == 'O' {
            Ok(ClockType::Out)
        } else {
            Err(ParseError::UnknownClockType(s[0]))
        }
    }

    /// Reads the direction of a punch from the first character of `s`:
    /// `i` or `I` clocks in, `o` or `O` clocks out.
    pub fn from_str(s: &str) -> (direction: Result<ClockType, ParseError>)
        ensures
            direction == Self::spec_from_str(s@),
    {
        if s.is_empty() {
            return Err(ParseError::EmptyClockType);
        }
        let marker: char = s.get_char(0);
        if marker == 'i' || marker == 'I' {
            Ok(ClockType::In)
        } else if marker == 'o' || marker == 'O' {
            Ok(ClockType::Out)
        } else {
            Err(ParseError::UnknownClockType(marker))
        }
    }
}

/// The instant that a date-time read by `time`, or its rejection, stands for.
/// A clock reading outside the 24-hour clock is no instant.
pub open spec fn spec_timestamp_of(
    outcome: Result<(i32, u8, u8, u8), Option<time::error::Parse>>,
) -> Result<Timestamp, ParseError> {
    match outcome {
        Ok((julian_day, hour, minute, second)) => if hour < 24 && minute < 60 && second < 60 {
            Ok(
                Timestamp {
                    seconds: Timestamp::seconds_at(
                        julian_day as int,
                        hour as int,
                        minute as int,
                        second as int,
                    ) as i64,
                },
            )
        } else {
            Err(ParseError::UnparseableDate(None))
        },
        Err(diagnostic) => Err(ParseError::UnparseableDate(diagnostic)),
    }
}

/// Turns what `time` read, as the Julian day number and the clock reading, into
/// an instant, and its rejection into [`ParseError::UnparseableDate`].
pub fn timestamp_of(outcome: Result<(i32, u8, u8, u8), Option<time::error::Parse>>) -> (instant:
    Result<Timestamp, ParseError>)
    ensures
        instant == spec_timestamp_of(outcome),
{
    match outcome {
        Ok((julian_day, hour, minute, second)) => match Timestamp::new(
            julian_day,
            hour,
            minute,
            second,
        ) {
            Some(instant) => Ok(instant),
            None => Err(ParseError::UnparseableDate(None)),
        },
        Err(diagnostic) => Err(ParseError::UnparseableDate(diagnostic)),
    }
}

/// The instant written in `text` under [`TIMESTAMP_FORMAT`].
pub open spec fn spec_parse_timestamp(text: Seq<char>) -> Result<Timestamp, ParseError> {
    match date_time_parsed(text, TIMESTAMP_FORMAT@) {
        Some(read) => spec_timestamp_of(Ok(read)),
        None => Err(ParseError::UnparseableDate(None)),
    }
}

/// Reads a timestamp written as `YYYY/MM/DD HH:MM:SS`. A text that `time`
/// does not read as one is a [`ParseError::UnparseableDate`], with the
/// diagnostic that `time` gave.
pub fn parse_timestamp(date_time: &str) -> (instant: Result<Timestamp, ParseError>)
    ensures
        undiagnosed(instant) == spec_parse_timestamp(date_time@),
{
    timestamp_of(read_date_time(date_time, TIMESTAMP_FORMAT))
}

/// The text in the timestamp field of `line`: the bytes of its UTF-8 encoding
/// from [`TIMESTAMP_START`] up to [`TIMESTAMP_END`]. A line in which an end
/// of the field is no character boundary, because the line stops short of it
/// or a character straddles it, has no such text.
pub open spec fn spec_timestamp_field(line: Seq<char>) -> Option<Seq<char>> {
    let bytes = encode_utf8(line);
    if is_char_boundary(bytes, TIMESTAMP_START as int) && is_char_boundary(
        bytes,
        TIMESTAMP_END as int,
    ) {
        Some(decode_utf8(bytes.subrange(TIMESTAMP_START as int, TIMESTAMP_END as int)))
    } else {
        None
    }
}

/// Cuts the timestamp field out of a line.
pub fn timestamp_field(line: &str) -> (field: Option<&str>)
    ensures
        match field {
            Some(text) => spec_timestamp_field(line@) == Some(text@),
            None => spec_timestamp_field(line@) is None,
        },
{
    if !line.is_char_boundary(TIMESTAMP_START) || !line.is_char_boundary(TIMESTAMP_END) {
        return None;
    }
    let (head, _) = line.split_at(TIMESTAMP_END);
    proof {
        let bytes = line.spec_bytes();
        let start = TIMESTAMP_START as int;
        vstd::utf8::encode_utf8_valid_utf8(line@);
        vstd::utf8::encode_utf8_valid_utf8(head@);
        vstd::utf8::is_char_boundary_iff_not_is_continuation_byte(bytes, start);
        vstd::utf8::is_char_boundary_iff_not_is_continuation_byte(head.spec_bytes(), start);
    }
    let (_, field) = head.split_at(TIMESTAMP_START);
    proof {
        vstd::utf8::encode_utf8_decode_utf8(field@);
        assert(field.spec_bytes() =~= line.spec_bytes().subrange(
            TIMESTAMP_START as int,
            TIMESTAMP_END as int,
        ));
    }
    Some(field)
}

/// The punch written on `line`: the direction named by its first character
/// and the instant written in its timestamp field.
pub open spec fn spec_parse_line(line: Seq<char>) -> Result<(ClockType, Timestamp), ParseError> {
    match ClockType::spec_from_str(line) {
        Err(error) => Err(error),
        Ok(direction) => match spec_timestamp_field(line) {
            None => Err(ParseError::UnparseableDate(None)),
            Some(text) => match spec_parse_timestamp(text) {
                Err(error) => Err(error),
                Ok(instant) => Ok((direction, instant)),
            },
        },
    }
}

/// Reads one punch line. Where the timestamp cannot be read, the error
/// carries a diagnostic only if the line has a timestamp field.
pub fn parse_line(s: &str) -> (punch: Result<(ClockType, Timestamp), ParseError>)
    ensures
        undiagnosed(punch) == spec_parse_line(s@),
        punch matches Err(ParseError::UnparseableDate(Some(_))) ==> spec_timestamp_field(s@)
            is Some,
{
    let direction = match ClockType::from_str(s) {
        Ok(direction) => direction,
        Err(error) => return Err(error),
    };
    let text = match timestamp_field(s) {
        Some(text) => text,
        None => return Err(ParseError::UnparseableDate(None)),
    };
    match parse_timestamp(text) {
        Ok(instant) => Ok((direction, instant)),
        Err(error) => Err(error),
    }
}

} // verus!
