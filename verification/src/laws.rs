//! What holds of every log: the laws of the state machine and of the summary,
//! stated over the models that the contracts use and proved from them.

use crate::duration::{Duration, SECONDS_PER_DAY};
use crate::log::{
    is_skipped, lemma_failure_is_final, lemma_lines_reduce_as_punches, punches_of, reduce_lines,
    spec_summarize_lines,
};
use crate::parser::{spec_parse_line, ClockType};
use crate::reducer::{
    interval, lemma_rejection_is_final, matched_time, open_time, spec_reduce, sum_of_intervals,
    LogError, Punch, Reducer, States,
};
use crate::summary::Summary;
use crate::timestamp::Timestamp;
use vstd::prelude::*;

verus! {

/// The summary at `now` of the log made of `punches`, whose last line is
/// numbered `line`.
pub open spec fn spec_summarize(punches: Seq<Punch>, line: usize, now: Timestamp) -> Result<
    Summary,
    LogError,
> {
    match spec_reduce(punches) {
        Err(error) => Err(error),
        Ok(state) => state.spec_finish(line, now),
    }
}

/// The sum of the first intervals of a log looks only at the punches in them.
proof fn lemma_sum_ignores_last_punch(punches: Seq<Punch>, pairs: nat)
    requires
        punches.len() > 0,
        2 * pairs <= punches.len() - 1,
    ensures
        sum_of_intervals(punches.drop_last(), pairs) == sum_of_intervals(punches, pairs),
    decreases pairs,
{
    if pairs > 0 {
        lemma_sum_ignores_last_punch(punches, (pairs - 1) as nat);
    }
}

/// The position of the last clock-in of a log that alternates.
pub open spec fn last_clock_in(punches: Seq<Punch>) -> int {
    2 * ((punches.len() - 1) / 2)
}

/// A log that is taken in whole alternates, starting with a clock-in: the
/// punches at even positions clock in, those at odd positions clock out. It
/// ends clocked in exactly when it holds an odd number of punches, and the
/// open clock-in is then its last punch. No clock-out lies before its
/// clock-in, and the total is the sum of the time between each clock-in and
/// its clock-out. The day that the state remembers is that of the last
/// clock-in.
pub proof fn law_accepted_log(punches: Seq<Punch>)
    requires
        spec_reduce(punches) is Ok,
    ensures
        forall|i: int|
            0 <= i < punches.len() ==> (#[trigger] punches[i].direction == ClockType::In <==> i % 2
                == 0),
        forall|pair: int|
            0 <= pair < punches.len() / 2 ==> #[trigger] interval(punches, pair) >= 0,
        spec_reduce(punches)->Ok_0.state == (if punches.len() % 2 == 0 {
            States::ExpectingClockIn
        } else {
            States::ExpectingClockOut { clockin: punches.last().at }
        }),
        spec_reduce(punches)->Ok_0.total_worked@ == matched_time(punches),
        spec_reduce(punches)->Ok_0.previous_date == (if punches.len() == 0 {
            None
        } else {
            Some(punches[last_clock_in(punches)].at.spec_date())
        }),
        spec_reduce(punches)->Ok_0.well_formed(),
    decreases punches.len(),
{
    if punches.len() > 0 {
        let before = punches.drop_last();
        law_accepted_log(before);
        lemma_sum_ignores_last_punch(punches, (before.len() / 2) as nat);
        assert forall|i: int| 0 <= i < punches.len() implies (#[trigger] punches[i].direction
            == ClockType::In <==> i % 2 == 0) by {
            if i < before.len() {
                assert(before[i] == punches[i]);
            }
        }
        assert forall|pair: int| 0 <= pair < punches.len() / 2 implies #[trigger] interval(
            punches,
            pair,
        ) >= 0 by {
            if pair < before.len() / 2 {
                assert(interval(before, pair) == interval(punches, pair));
            }
        }
    }
}

/// The total of a summary is the time between each clock-in and its
/// clock-out, summed over the log, and, where the log ends clocked in, the
/// time from that clock-in to `now`.
pub proof fn law_total_worked(punches: Seq<Punch>, line: usize, now: Timestamp)
    requires
        spec_summarize(punches, line, now) is Ok,
    ensures
        spec_summarize(punches, line, now)->Ok_0.total_worked@ == matched_time(punches)
            + open_time(punches, now),
        open_time(punches, now) >= 0,
{
    law_accepted_log(punches);
}

/// The run is clocked in exactly when the last punch of the log is a
/// clock-in, and the summary then, and only then, holds the two instants at
/// which to leave.
pub proof fn law_leave_times(punches: Seq<Punch>, line: usize, now: Timestamp)
    requires
        spec_summarize(punches, line, now) is Ok,
    ensures
        spec_reduce(punches)->Ok_0.spec_still_clocked_in() <==> punches.len() > 0
            && punches.last().direction == ClockType::In,
        spec_summarize(punches, line, now)->Ok_0.time_to_leave is Some <==> spec_reduce(
            punches,
        )->Ok_0.spec_still_clocked_in(),
        spec_summarize(punches, line, now)->Ok_0.time_to_leave_8 is Some <==> spec_reduce(
            punches,
        )->Ok_0.spec_still_clocked_in(),
{
    law_accepted_log(punches);
    if punches.len() > 0 {
        assert(punches[punches.len() - 1].direction == ClockType::In <==> (punches.len() - 1) % 2
            == 0);
    }
}

/// Two clock-ins in a row, with no clock-out between them, fail the log with
/// the second one's line: a clock-in came where a clock-out was expected.
pub proof fn law_second_clock_in_is_rejected(punches: Seq<Punch>, second: int)
    requires
        1 <= second < punches.len(),
        spec_reduce(punches.take(second)) is Ok,
        punches[second - 1].direction == ClockType::In,
        punches[second].direction == ClockType::In,
    ensures
        spec_reduce(punches) == Err::<Reducer, LogError>(
            LogError::UnexpectedClockIn { line: punches[second].line },
        ),
{
    let accepted = punches.take(second);
    let through = punches.take(second + 1);
    law_accepted_log(accepted);
    assert(accepted[second - 1] == punches[second - 1]);
    assert(through.drop_last() =~= accepted);
    assert(through.last() == punches[second]);
    lemma_rejection_is_final(punches, second + 1);
}

/// A clock-out that no clock-in precedes fails the log with its line.
pub proof fn law_clock_out_without_clock_in_is_rejected(punches: Seq<Punch>)
    requires
        punches.len() > 0,
        punches[0].direction == ClockType::Out,
    ensures
        spec_reduce(punches) == Err::<Reducer, LogError>(
            LogError::UnexpectedClockOut { line: punches[0].line },
        ),
{
    let first = punches.take(1);
    assert(first.drop_last() =~= Seq::<Punch>::empty());
    assert(first.last() == punches[0]);
    assert(spec_reduce(first.drop_last()) == Ok::<Reducer, LogError>(Reducer::spec_new()));
    lemma_rejection_is_final(punches, 1);
}

/// A log as text is summed up as the sequence of the punches written on it:
/// the total is the time between each clock-in and its clock-out and, where
/// the log ends clocked in, the time from that clock-in to `now`; and the
/// summary holds the two instants at which to leave exactly when the last
/// punch of the log is a clock-in.
pub proof fn law_summary_of_lines(lines: Seq<Seq<char>>, now: Timestamp)
    requires
        spec_summarize_lines(lines, now) is Ok,
    ensures
        spec_summarize_lines(lines, now) == spec_summarize(
            punches_of(lines),
            lines.len() as usize,
            now,
        ),
        spec_summarize_lines(lines, now)->Ok_0.total_worked@ == matched_time(punches_of(lines))
            + open_time(punches_of(lines), now),
        spec_summarize_lines(lines, now)->Ok_0.time_to_leave is Some <==> punches_of(lines).len()
            > 0 && punches_of(lines).last().direction == ClockType::In,
        spec_summarize_lines(lines, now)->Ok_0.time_to_leave_8 is Some <==> punches_of(
            lines,
        ).len() > 0 && punches_of(lines).last().direction == ClockType::In,
{
    lemma_lines_reduce_as_punches(lines);
    law_total_worked(punches_of(lines), lines.len() as usize, now);
    law_leave_times(punches_of(lines), lines.len() as usize, now);
}

/// Lines that are passed over add no punch.
proof fn lemma_skipped_lines_add_no_punch(lines: Seq<Seq<char>>, from: int, to: int)
    requires
        0 <= from <= to <= lines.len(),
        forall|k: int| from <= k < to ==> is_skipped(#[trigger] lines[k]),
    ensures
        punches_of(lines.take(to)) == punches_of(lines.take(from)),
    decreases to - from,
{
    if from < to {
        lemma_skipped_lines_add_no_punch(lines, from, to - 1);
        assert(lines.take(to).drop_last() =~= lines.take(to - 1));
        assert(lines.take(to).last() == lines[to - 1]);
    }
}

/// Two clock-in lines with nothing but comments and empty lines between them
/// fail the log with the number of the second: a clock-in came where a
/// clock-out was expected.
pub proof fn law_second_clock_in_line_is_rejected(lines: Seq<Seq<char>>, first: int, second: int)
    requires
        0 <= first < second < lines.len(),
        reduce_lines(lines.take(second)) is Ok,
        !is_skipped(lines[first]),
        spec_parse_line(lines[first]) matches Ok(punch) && punch.0 == ClockType::In,
        forall|k: int| first < k < second ==> is_skipped(#[trigger] lines[k]),
        !is_skipped(lines[second]),
        spec_parse_line(lines[second]) matches Ok(punch) && punch.0 == ClockType::In,
    ensures
        reduce_lines(lines) == Err::<Reducer, LogError>(
            LogError::UnexpectedClockIn { line: (second + 1) as usize },
        ),
{
    let accepted = lines.take(second);
    let through = lines.take(second + 1);
    lemma_lines_reduce_as_punches(accepted);
    lemma_skipped_lines_add_no_punch(lines, first + 1, second);
    assert(lines.take(first + 1).drop_last() =~= lines.take(first));
    assert(lines.take(first + 1).last() == lines[first]);
    let punches = punches_of(accepted);
    assert(punches.last().direction == ClockType::In);
    law_accepted_log(punches);
    assert(punches[punches.len() - 1].direction == ClockType::In <==> (punches.len() - 1) % 2
        == 0);
    assert(through.drop_last() =~= accepted);
    assert(through.last() == lines[second]);
    lemma_failure_is_final(lines, second + 1);
}

/// A clock-in on another calendar day than the clock-in before it starts a
/// new day, whatever the time of day: the day's time is zero again, one more
/// day is counted, and the clock-in is the first of its day. The total stays.
pub proof fn law_new_day(state: Reducer, line: usize, at: Timestamp)
    requires
        state.state == States::ExpectingClockIn,
        state.previous_date != Some(at.spec_date()),
        state.num_days_worked < u32::MAX,
    ensures
        state.spec_step(line, ClockType::In, at) matches Ok(next) && {
            &&& next.worked_today@ == 0
            &&& next.num_days_worked == state.num_days_worked + 1
            &&& next.first_punchin_today == Some(at)
            &&& next.previous_date == Some(at.spec_date())
            &&& next.total_worked == state.total_worked
            &&& next.state == States::ExpectingClockOut { clockin: at }
        },
{
}

/// A clock-in on the calendar day of the clock-in before it leaves the day's
/// figures as they are.
pub proof fn law_same_day(state: Reducer, line: usize, at: Timestamp)
    requires
        state.state == States::ExpectingClockIn,
        state.previous_date == Some(at.spec_date()),
    ensures
        state.spec_step(line, ClockType::In, at) == Ok::<Reducer, LogError>(
            Reducer { state: States::ExpectingClockOut { clockin: at }, ..state },
        ),
{
}

/// Two instants fall on one calendar day exactly when the same number of
/// whole days separates them from the start of Julian day 0.
pub proof fn law_calendar_day(first: Timestamp, second: Timestamp)
    ensures
        first.spec_date() == second.spec_date() <==> first@ / (SECONDS_PER_DAY as int) == second@
            / (SECONDS_PER_DAY as int),
{
}

/// In a log, a clock-in on another calendar day than the clock-in before it
/// sets the day's time to zero and counts one more day, whatever the time of
/// day of either; a clock-in on the same calendar day leaves both as they are.
pub proof fn law_day_boundary(punches: Seq<Punch>, later: int)
    requires
        2 <= later < punches.len(),
        punches[later].direction == ClockType::In,
        spec_reduce(punches.take(later + 1)) is Ok,
    ensures
        spec_reduce(punches.take(later)) is Ok,
        punches[later - 2].direction == ClockType::In,
        punches[later].at.spec_date() != punches[later - 2].at.spec_date() ==> {
            &&& spec_reduce(punches.take(later + 1))->Ok_0.worked_today@ == 0
            &&& spec_reduce(punches.take(later + 1))->Ok_0.num_days_worked == spec_reduce(
                punches.take(later),
            )->Ok_0.num_days_worked + 1
            &&& spec_reduce(punches.take(later + 1))->Ok_0.first_punchin_today == Some(
                punches[later].at,
            )
        },
        punches[later].at.spec_date() == punches[later - 2].at.spec_date() ==> {
            &&& spec_reduce(punches.take(later + 1))->Ok_0.worked_today == spec_reduce(
                punches.take(later),
            )->Ok_0.worked_today
            &&& spec_reduce(punches.take(later + 1))->Ok_0.num_days_worked == spec_reduce(
                punches.take(later),
            )->Ok_0.num_days_worked
            &&& spec_reduce(punches.take(later + 1))->Ok_0.first_punchin_today == spec_reduce(
                punches.take(later),
            )->Ok_0.first_punchin_today
        },
{
    let before = punches.take(later);
    let through = punches.take(later + 1);
    assert(through.drop_last() =~= before);
    assert(through.last() == punches[later]);
    law_accepted_log(through);
    law_accepted_log(before);
    assert(through[later].direction == ClockType::In <==> later % 2 == 0);
    assert(before[later - 2] == punches[later - 2]);
    assert(before[later - 2].direction == ClockType::In <==> (later - 2) % 2 == 0);
    assert(last_clock_in(before) == later - 2);
}

/// A clock-out that lies before its clock-in fails the log with its line.
pub proof fn law_clock_out_before_clock_in(
    state: Reducer,
    line: usize,
    clockin: Timestamp,
    at: Timestamp,
)
    requires
        state.state == (States::ExpectingClockOut { clockin }),
        at@ < clockin@,
    ensures
        state.spec_step(line, ClockType::Out, at) == Err::<Reducer, LogError>(
            LogError::ClockOutBeforeClockIn { line },
        ),
{
}

/// A clock-out at the very instant of its clock-in is no error: it closes an
/// interval of no length, and the times worked stay as they are.
pub proof fn law_clock_out_at_clock_in(state: Reducer, line: usize, clockin: Timestamp)
    requires
        state.state == (States::ExpectingClockOut { clockin }),
    ensures
        state.spec_step(line, ClockType::Out, clockin) == Ok::<Reducer, LogError>(
            Reducer { state: States::ExpectingClockIn, ..state },
        ),
{
    assert(Duration { seconds: state.worked_today@ as i64 } == state.worked_today);
    assert(Duration { seconds: state.total_worked@ as i64 } == state.total_worked);
}

/// A clock-out that lies before the clock-in it answers fails the whole log
/// with its line, whatever comes after it.
pub proof fn law_early_clock_out_fails_the_log(punches: Seq<Punch>, early: int)
    requires
        1 <= early < punches.len(),
        spec_reduce(punches.take(early)) is Ok,
        punches[early - 1].direction == ClockType::In,
        punches[early].direction == ClockType::Out,
        punches[early].at@ < punches[early - 1].at@,
    ensures
        spec_reduce(punches) == Err::<Reducer, LogError>(
            LogError::ClockOutBeforeClockIn { line: punches[early].line },
        ),
{
    let accepted = punches.take(early);
    let through = punches.take(early + 1);
    law_accepted_log(accepted);
    assert(accepted[early - 1] == punches[early - 1]);
    assert(through.drop_last() =~= accepted);
    assert(through.last() == punches[early]);
    lemma_rejection_is_final(punches, early + 1);
}

/// A log that ends clocked in has no summary at an instant before that
/// clock-in.
pub proof fn law_now_before_open_clock_in(punches: Seq<Punch>, line: usize, now: Timestamp)
    requires
        spec_reduce(punches) is Ok,
        punches.len() > 0,
        punches.last().direction == ClockType::In,
        now@ < punches.last().at@,
    ensures
        spec_summarize(punches, line, now) == Err::<Summary, LogError>(
            LogError::NowBeforeClockIn { line },
        ),
{
    law_accepted_log(punches);
    assert(punches[punches.len() - 1].direction == ClockType::In <==> (punches.len() - 1) % 2
        == 0);
}

/// The summary is a function of the totals, of `now` and of whether the run
/// is clocked in: whatever `Summary::new` returns for them once, it returns
/// for them again.
pub proof fn law_summary_is_determined(
    worked_today: Duration,
    first_punchin_today: Option<Timestamp>,
    total_worked: Duration,
    num_days_worked: u32,
    now: Timestamp,
    clocked_in: bool,
    once: Summary,
    again: Summary,
)
    requires
        once == Summary::spec_new(
            worked_today,
            first_punchin_today,
            total_worked,
            num_days_worked,
            now,
            clocked_in,
        ),
        again == Summary::spec_new(
            worked_today,
            first_punchin_today,
            total_worked,
            num_days_worked,
            now,
            clocked_in,
        ),
    ensures
        once == again,
{
}

} // verus!
