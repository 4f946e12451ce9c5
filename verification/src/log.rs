//! A log as text: which lines are punches, and what the whole log sums up to.
//!
//! Empty lines and lines that start with `#` are passed over. Every other
//! line must be a punch line. The first line that is not, or whose punch the
//! state machine rejects, ends the run: no summary is made of a part of a log.

use crate::parser::{parse_line, spec_parse_line};
use crate::reducer::{spec_reduce, undiagnosed, LogError, Punch, Reducer};
use crate::summary::Summary;
use crate::timestamp::Timestamp;
use vstd::prelude::*;
use vstd::string::StrSliceExecFns;

verus! {

/// The character that starts a comment line.
pub const COMMENT: char = '#';

/// Whether a line is passed over: it is empty or a comment.
pub open spec fn is_skipped(line: Seq<char>) -> bool {
    line.len() == 0 || line[0] == COMMENT
}

/// The text of each line.
pub open spec fn texts(lines: Seq<String>) -> Seq<Seq<char>> {
    Seq::new(lines.len(), |i: int| lines[i]@)
}

impl Reducer {
    /// The state after the line numbered `number`.
    pub open spec fn spec_feed(self, number: usize, line: Seq<char>) -> Result<Reducer, LogError> {
        if is_skipped(line) {
            Ok(self)
        } else {
            match spec_parse_line(line) {
                Err(cause) => Err(LogError::Parse { line: number, cause }),
                Ok((direction, at)) => self.spec_step(number, direction, at),
            }
        }
    }

    /// Takes in the line numbered `number`: passes over it if it is empty or a
    /// comment, and else reads the punch on it and takes that in. A line that
    /// is no punch line fails with its number and the reason, to which the
    /// diagnostic of `time` is attached where there is one.
    pub fn feed(self, number: usize, line: &str) -> (next: Result<Reducer, LogError>)
        ensures
            undiagnosed(next) == self.spec_feed(number, line@),
            self.well_formed() ==> (next matches Ok(state) ==> state.well_formed()),
    {
        if line.is_empty() {
            return Ok(self);
        }
        if line.get_char(0) == COMMENT {
            return Ok(self);
        }
        match parse_line(line) {
            Err(cause) => Err(LogError::Parse { line: number, cause }),
            Ok((direction, at)) => self.step(number, direction, at),
        }
    }
}

/// The state after all of `lines`, taken in order and numbered from 1, or the
/// error of the first line that fails.
pub open spec fn reduce_lines(lines: Seq<Seq<char>>) -> Result<Reducer, LogError>
    decreases lines.len(),
{
    if lines.len() == 0 {
        Ok(Reducer::spec_new())
    } else {
        match reduce_lines(lines.drop_last()) {
            Err(error) => Err(error),
            Ok(state) => state.spec_feed(lines.len() as usize, lines.last()),
        }
    }
}

/// The summary at `now` of the log made of `lines`.
pub open spec fn spec_summarize_lines(lines: Seq<Seq<char>>, now: Timestamp) -> Result<
    Summary,
    LogError,
> {
    match reduce_lines(lines) {
        Err(error) => Err(error),
        Ok(state) => state.spec_finish(lines.len() as usize, now),
    }
}

/// The punches written on `lines`, each with the number of its line. Lines that
/// are passed over, and lines that are no punch lines, yield none.
pub open spec fn punches_of(lines: Seq<Seq<char>>) -> Seq<Punch>
    decreases lines.len(),
{
    if lines.len() == 0 {
        Seq::empty()
    } else {
        let before = punches_of(lines.drop_last());
        if is_skipped(lines.last()) {
            before
        } else {
            match spec_parse_line(lines.last()) {
                Err(_) => before,
                Ok((direction, at)) => before.push(
                    Punch { line: lines.len() as usize, direction, at },
                ),
            }
        }
    }
}

/// A log whose lines are all taken in is reduced as the sequence of the
/// punches written on it.
pub proof fn lemma_lines_reduce_as_punches(lines: Seq<Seq<char>>)
    requires
        reduce_lines(lines) is Ok,
    ensures
        reduce_lines(lines) == spec_reduce(punches_of(lines)),
    decreases lines.len(),
{
    if lines.len() > 0 {
        lemma_lines_reduce_as_punches(lines.drop_last());
        let before = punches_of(lines.drop_last());
        if !is_skipped(lines.last()) {
            let (direction, at) = spec_parse_line(lines.last())->Ok_0;
            let punch = Punch { line: lines.len() as usize, direction, at };
            assert(before.push(punch).drop_last() =~= before);
            assert(before.push(punch).last() == punch);
        }
    }
}

/// Once a line has failed, the lines after it change nothing.
pub proof fn lemma_failure_is_final(lines: Seq<Seq<char>>, read: int)
    requires
        0 <= read <= lines.len(),
        reduce_lines(lines.take(read)) is Err,
    ensures
        reduce_lines(lines) == reduce_lines(lines.take(read)),
    decreases lines.len(),
{
    if read == lines.len() {
        assert(lines.take(read) =~= lines);
    } else {
        assert(lines.drop_last().take(read) =~= lines.take(read));
        lemma_failure_is_final(lines.drop_last(), read);
    }
}

/// Sums up the log made of `lines` as it stands at `now`: takes the lines in
/// one by one, numbered from 1, and derives the summary from the state that
/// they lead to. The first line that fails ends the run with its error.
pub fn summarize_lines(lines: &[String], now: &Timestamp) -> (summary: Result<Summary, LogError>)
    ensures
        undiagnosed(summary) == spec_summarize_lines(texts(lines@), *now),
{
    let ghost all = texts(lines@);
    let mut state = Reducer::new();
    let mut read: usize = 0;
    proof {
        assert(all.take(0) =~= Seq::<Seq<char>>::empty());
    }
    while read < lines.len()
        invariant
            read <= lines.len(),
            all == texts(lines@),
            reduce_lines(all.take(read as int)) == Ok::<Reducer, LogError>(state),
        decreases lines.len() - read,
    {
        let ghost before = all.take(read as int);
        let ghost after = all.take(read as int + 1);
        proof {
            assert(after.drop_last() =~= before);
            assert(after.last() == lines@[read as int]@);
        }
        match state.feed(read + 1, lines[read].as_str()) {
            Ok(next) => {
                state = next;
            },
            Err(error) => {
                proof {
                    lemma_failure_is_final(all, read as int + 1);
                }
                return Err(error);
            },
        }
        read = read + 1;
    }
    proof {
        assert(all.take(read as int) =~= all);
    }
    state.finish(lines.len(), now)
}

} // verus!
