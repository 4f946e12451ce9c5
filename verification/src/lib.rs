//! Work-time summaries from a timeclock log.
//!
//! A timeclock log is a text file of punches, one to a line: a clock-in or a
//! clock-out with the instant at which it happened. The library reads such
//! lines ([`parser`]), runs the punches through a state machine that demands
//! strict alternation and adds up the time worked per day and in total
//! ([`reducer`], [`log`]), and derives from those totals the figures to report
//! at a given instant ([`summary`]): the overtime carried over from earlier
//! days, what is still to work today, and when to leave. Spans and times of
//! day can be written as text ([`render`]).
//!
//! Reading files and finding out the current time are left to the caller,
//! who hands over the lines and the current instant.

pub mod calendar;
pub mod duration;
pub mod laws;
pub mod log;
pub mod parser;
pub mod reducer;
pub mod render;
pub mod summary;
pub mod timestamp;

pub use crate::duration::Duration;
pub use crate::log::summarize_lines;
pub use crate::parser::{parse_line, parse_timestamp, ClockType, ParseError};
pub use crate::reducer::{reduce, LogError, Punch, Reducer, States};
pub use crate::render::{format_time, hours_mins, FormatError};
pub use crate::summary::Summary;
pub use crate::timestamp::{Date, Timestamp};
