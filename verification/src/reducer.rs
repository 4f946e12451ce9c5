//! The punch state machine: strict alternation of clock-ins and clock-outs,
//! with the time worked accumulated per day and over the whole log.
//!
//! | expecting | punch | effect | then expecting |
//! |---|---|---|---|
//! | clock-in | in | on a new calendar day: start the day; remember the clock-in | clock-out |
//! | clock-out | out | not before the clock-in; credit the time in between | clock-in |
//! | clock-in | out | rejected | |
//! | clock-out | in | rejected | |

use crate::duration::Duration;
use crate::parser::{ClockType, ParseError};
use crate::summary::Summary;
use crate::timestamp::{Date, Timestamp};
use vstd::prelude::*;

verus! {

/// Why a log has no summary. A line is cited by its number, counted from 1.
#[derive(Clone, Copy, Debug, PartialEq, Eq)]
pub enum LogError {
    /// The line is not a punch line.
    Parse { line: usize, cause: ParseError },
    /// The line clocks out while nothing is clocked in.
    UnexpectedClockOut { line: usize },
    /// The line clocks in while the clock-in before it is still open.
    UnexpectedClockIn { line: usize },
    /// The line clocks out before the instant of its clock-in.
    ClockOutBeforeClockIn { line: usize },
    /// The log ends clocked in, at `line`, and the current time lies before
    /// that clock-in.
    NowBeforeClockIn { line: usize },
    /// The log holds no clock-in, so there is no day to summarize.
    NoPunches,
    /// At `line`, a total or a projected instant left the range that can be held.
    OutOfRange { line: usize },
}

impl LogError {
    /// The error without the diagnostic of the `time` crate.
    pub open spec fn undiagnosed(self) -> LogError {
        match self {
            LogError::Parse { line, cause } => LogError::Parse { line, cause: cause.undiagnosed() },
            other => other,
        }
    }
}

/// An outcome without the diagnostic of the `time` crate, if it is an error
/// that carries one.
pub open spec fn undiagnosed<T>(outcome: Result<T, LogError>) -> Result<T, LogError> {
    match outcome {
        Ok(value) => Ok(value),
        Err(error) => Err(error.undiagnosed()),
    }
}

/// Which punch may come next.
#[derive(Clone, Copy, Debug, PartialEq, Eq, Structural)]
pub enum States {
    /// Nothing is clocked in.
    ExpectingClockIn,
    /// The clock-in at `clockin` is open.
    ExpectingClockOut { clockin: Timestamp },
}

/// What has been gathered from the punches of a log so far.
#[derive(Clone, Copy, Debug, PartialEq, Eq)]
pub struct Reducer {
    /// Which punch may come next, with the open clock-in if there is one.
    pub state: States,
    /// The time worked on the most recent day.
    pub worked_today: Duration,
    /// The first clock-in of the most recent day.
    pub first_punchin_today: Option<Timestamp>,
    /// The time worked over the whole log.
    pub total_worked: Duration,
    /// The number of days with at least one clock-in.
    pub num_days_worked: u32,
    /// The day of the most recent clock-in.
    pub previous_date: Option<Date>,
}

impl Reducer {
    /// The state before any punch.
    pub open spec fn spec_new() -> Reducer {
        Reducer {
            state: States::ExpectingClockIn,
            worked_today: Duration { seconds: 0 },
            first_punchin_today: None,
            total_worked: Duration { seconds: 0 },
            num_days_worked: 0,
            previous_date: None,
        }
    }

    /// What holds of every state that punches lead to: the day's time is part
    /// of the total, neither is negative, a day has been counted exactly when
    /// a clock-in was seen, and an open clock-in lies on the most recent day.
    pub open spec fn well_formed(self) -> bool {
        &&& 0 <= self.worked_today@ <= self.total_worked@
        &&& self.num_days_worked == 0 <==> self.previous_date is None
        &&& self.num_days_worked == 0 <==> self.first_punchin_today is None
        &&& self.num_days_worked == 0 ==> self.total_worked@ == 0 && self.state
            == States::ExpectingClockIn
        &&& self.state matches States::ExpectingClockOut { clockin } ==> self.previous_date
            == Some(clockin.spec_date())
    }

    /// Whether a clock-in is open.
    pub open spec fn spec_still_clocked_in(self) -> bool {
        self.state is ExpectingClockOut
    }

    /// The state after a clock-in at `at`, read on line `line`.
    pub open spec fn spec_clock_in(self, line: usize, at: Timestamp) -> Result<Reducer, LogError> {
        match self.state {
            States::ExpectingClockOut { .. } => Err(LogError::UnexpectedClockIn { line }),
            States::ExpectingClockIn => if self.previous_date == Some(at.spec_date()) {
                Ok(Reducer { state: States::ExpectingClockOut { clockin: at }, ..self })
            } else if self.num_days_worked == u32::MAX {
                Err(LogError::OutOfRange { line })
            } else {
                Ok(
                    Reducer {
                        state: States::ExpectingClockOut { clockin: at },
                        worked_today: Duration { seconds: 0 },
                        first_punchin_today: Some(at),
                        total_worked: self.total_worked,
                        num_days_worked: (self.num_days_worked + 1) as u32,
                        previous_date: Some(at.spec_date()),
                    },
                )
            },
        }
    }

    /// The state once the time from `clockin` to `until` is credited to the
    /// day and to the total, which closes the open clock-in. The time
    /// credited and both sums must be such as can be held.
    pub open spec fn spec_credit(self, line: usize, clockin: Timestamp, until: Timestamp) -> Result<
        Reducer,
        LogError,
    > {
        let worked = until@ - clockin@;
        if Duration::fits(worked) && Duration::fits(self.worked_today@ + worked) && Duration::fits(
            self.total_worked@ + worked,
        ) {
            Ok(
                Reducer {
                    state: States::ExpectingClockIn,
                    worked_today: Duration { seconds: (self.worked_today@ + worked) as i64 },
                    total_worked: Duration { seconds: (self.total_worked@ + worked) as i64 },
                    ..self
                },
            )
        } else {
            Err(LogError::OutOfRange { line })
        }
    }

    /// The state after a clock-out at `at`, read on line `line`.
    pub open spec fn spec_clock_out(self, line: usize, at: Timestamp) -> Result<Reducer, LogError> {
        match self.state {
            States::ExpectingClockIn => Err(LogError::UnexpectedClockOut { line }),
            States::ExpectingClockOut { clockin } => if at@ < clockin@ {
                Err(LogError::ClockOutBeforeClockIn { line })
            } else {
                self.spec_credit(line, clockin, at)
            },
        }
    }

    /// The state after the punch read on line `line`.
    pub open spec fn spec_step(self, line: usize, direction: ClockType, at: Timestamp) -> Result<
        Reducer,
        LogError,
    > {
        match direction {
            ClockType::In => self.spec_clock_in(line, at),
            ClockType::Out => self.spec_clock_out(line, at),
        }
    }

    /// The totals as they stand at `now`: an open clock-in is closed against
    /// `now`, which must not lie before it. `line` is the number of the last
    /// line of the log.
    pub open spec fn spec_close(self, line: usize, now: Timestamp) -> Result<Reducer, LogError> {
        match self.state {
            States::ExpectingClockIn => Ok(self),
            States::ExpectingClockOut { clockin } => if now@ < clockin@ {
                Err(LogError::NowBeforeClockIn { line })
            } else {
                self.spec_credit(line, clockin, now)
            },
        }
    }

    /// The summary of the log at `now`, or the reason why there is none.
    pub open spec fn spec_finish(self, line: usize, now: Timestamp) -> Result<Summary, LogError> {
        match self.spec_close(line, now) {
            Err(error) => Err(error),
            Ok(closed) => if closed.num_days_worked == 0 {
                Err(LogError::NoPunches)
            } else if !Summary::representable(
                closed.worked_today,
                closed.total_worked,
                closed.num_days_worked,
                now,
                self.spec_still_clocked_in(),
            ) {
                Err(LogError::OutOfRange { line })
            } else {
                Ok(
                    Summary::spec_new(
                        closed.worked_today,
                        closed.first_punchin_today,
                        closed.total_worked,
                        closed.num_days_worked,
                        now,
                        self.spec_still_clocked_in(),
                    ),
                )
            },
        }
    }

    /// The state before any punch: expecting a clock-in, nothing worked.
    pub fn new() -> (start: Reducer)
        ensures
            start == Self::spec_new(),
            start.well_formed(),
    {
        Reducer {
            state: States::ExpectingClockIn,
            worked_today: Duration { seconds: 0 },
            first_punchin_today: None,
            total_worked: Duration { seconds: 0 },
            num_days_worked: 0,
            previous_date: None,
        }
    }

    /// Tells whether a clock-in is open.
    pub fn still_clocked_in(&self) -> (open: bool)
        ensures
            open == self.spec_still_clocked_in(),
    {
        match self.state {
            States::ExpectingClockIn => false,
            States::ExpectingClockOut { .. } => true,
        }
    }

    /// Credits the time from `clockin` to `until` to the day and to the total.
    fn credit(self, line: usize, clockin: Timestamp, until: Timestamp) -> (next: Result<
        Reducer,
        LogError,
    >)
        ensures
            next == self.spec_credit(line, clockin, until),
    {
        let worked = match until.checked_since(clockin) {
            Some(worked) => worked,
            None => return Err(LogError::OutOfRange { line }),
        };
        let worked_today = match self.worked_today.checked_add(worked) {
            Some(sum) => sum,
            None => return Err(LogError::OutOfRange { line }),
        };
        let total_worked = match self.total_worked.checked_add(worked) {
            Some(sum) => sum,
            None => return Err(LogError::OutOfRange { line }),
        };
        Ok(
            Reducer {
                state: States::ExpectingClockIn,
                worked_today,
                first_punchin_today: self.first_punchin_today,
                total_worked,
                num_days_worked: self.num_days_worked,
                previous_date: self.previous_date,
            },
        )
    }

    /// Takes in the punch read on line `line`.
    ///
    /// A clock-in on a calendar day other than that of the clock-in before it
    /// starts a new day: the day's time is set to zero and the day is counted.
    /// A clock-out credits the time since the open clock-in. A punch in the
    /// wrong direction, and a clock-out before its clock-in, are errors.
    pub fn step(self, line: usize, direction: ClockType, at: Timestamp) -> (next: Result<
        Reducer,
        LogError,
    >)
        ensures
            next == self.spec_step(line, direction, at),
            self.well_formed() ==> (next matches Ok(state) ==> state.well_formed()),
    {
        match (self.state, direction) {
            (States::ExpectingClockIn, ClockType::In) => {
                let today = at.date();
                let same_day = match self.previous_date {
                    Some(day) => day.julian_day == today.julian_day,
                    None => false,
                };
                if same_day {
                    Ok(
                        Reducer {
                            state: States::ExpectingClockOut { clockin: at },
                            worked_today: self.worked_today,
                            first_punchin_today: self.first_punchin_today,
                            total_worked: self.total_worked,
                            num_days_worked: self.num_days_worked,
                            previous_date: self.previous_date,
                        },
                    )
                } else if self.num_days_worked == u32::MAX {
                    Err(LogError::OutOfRange { line })
                } else {
                    Ok(
                        Reducer {
                            state: States::ExpectingClockOut { clockin: at },
                            worked_today: Duration { seconds: 0 },
                            first_punchin_today: Some(at),
                            total_worked: self.total_worked,
                            num_days_worked: self.num_days_worked + 1,
                            previous_date: Some(today),
                        },
                    )
                }
            },
            (States::ExpectingClockOut { clockin }, ClockType::Out) => {
                if at.is_before(clockin) {
                    Err(LogError::ClockOutBeforeClockIn { line })
                } else {
                    self.credit(line, clockin, at)
                }
            },
            (States::ExpectingClockIn, ClockType::Out) => Err(
                LogError::UnexpectedClockOut { line },
            ),
            (States::ExpectingClockOut { .. }, ClockType::In) => Err(
                LogError::UnexpectedClockIn { line },
            ),
        }
    }

    /// Ends the log at `now` and derives its summary. `line` is the number of
    /// the last line of the log.
    ///
    /// An open clock-in is closed against `now`; the summary then projects
    /// when to leave. A log without any clock-in has no summary.
    pub fn finish(self, line: usize, now: &Timestamp) -> (summary: Result<Summary, LogError>)
        ensures
            summary == self.spec_finish(line, *now),
    {
        let clocked_in = self.still_clocked_in();
        let closed = match self.state {
            States::ExpectingClockIn => self,
            States::ExpectingClockOut { clockin } => {
                if now.is_before(clockin) {
                    return Err(LogError::NowBeforeClockIn { line });
                }
                match self.credit(line, clockin, *now) {
                    Ok(closed) => closed,
                    Err(error) => return Err(error),
                }
            },
        };
        if closed.num_days_worked == 0 {
            Err(LogError::NoPunches)
        } else if !Summary::is_representable(
            closed.worked_today,
            closed.total_worked,
            closed.num_days_worked,
            now,
            clocked_in,
        ) {
            Err(LogError::OutOfRange { line })
        } else {
            Ok(
                Summary::new(
                    closed.worked_today,
                    closed.first_punchin_today,
                    closed.total_worked,
                    closed.num_days_worked,
                    now,
                    clocked_in,
                ),
            )
        }
    }
}

/// A punch as the reducer takes it in: its direction and instant, and the
/// number of the line it was read from.
#[derive(Clone, Copy, Debug, PartialEq, Eq)]
pub struct Punch {
    /// The number of the line the punch was read from, counted from 1.
    pub line: usize,
    /// Whether the punch clocks in or out.
    pub direction: ClockType,
    /// The instant of the punch.
    pub at: Timestamp,
}

/// The state after all of `punches`, taken in order, or the error of the first
/// punch that is rejected.
pub open spec fn spec_reduce(punches: Seq<Punch>) -> Result<Reducer, LogError>
    decreases punches.len(),
{
    if punches.len() == 0 {
        Ok(Reducer::spec_new())
    } else {
        match spec_reduce(punches.drop_last()) {
            Err(error) => Err(error),
            Ok(state) => state.spec_step(
                punches.last().line,
                punches.last().direction,
                punches.last().at,
            ),
        }
    }
}

/// The time from the clock-in at position `2 * pair` to the clock-out after it.
pub open spec fn interval(punches: Seq<Punch>, pair: int) -> int {
    punches[2 * pair + 1].at@ - punches[2 * pair].at@
}

/// The sum of the first `pairs` intervals of `punches`.
pub open spec fn sum_of_intervals(punches: Seq<Punch>, pairs: nat) -> int
    decreases pairs,
{
    if pairs == 0 {
        0
    } else {
        sum_of_intervals(punches, (pairs - 1) as nat) + interval(punches, pairs - 1)
    }
}

/// The time between each clock-in and the clock-out that follows it, summed
/// over the log. A clock-in at the end that nothing follows counts for nothing.
pub open spec fn matched_time(punches: Seq<Punch>) -> int {
    sum_of_intervals(punches, punches.len() / 2)
}

/// The time from a clock-in that ends the log up to `now`; zero when the log
/// ends clocked out.
pub open spec fn open_time(punches: Seq<Punch>, now: Timestamp) -> int {
    if punches.len() % 2 == 1 {
        now@ - punches.last().at@
    } else {
        0
    }
}

/// Takes in all of `punches`, in order, from the state before any punch.
pub fn reduce(punches: &[Punch]) -> (end: Result<Reducer, LogError>)
    ensures
        end == spec_reduce(punches@),
        end matches Ok(state) ==> state.well_formed(),
{
    let mut state = Reducer::new();
    let mut taken: usize = 0;
    proof {
        assert(punches@.take(0) =~= Seq::<Punch>::empty());
    }
    while taken < punches.len()
        invariant
            taken <= punches.len(),
            spec_reduce(punches@.take(taken as int)) == Ok::<Reducer, LogError>(state),
            state.well_formed(),
        decreases punches.len() - taken,
    {
        let punch = punches[taken];
        proof {
            let after = punches@.take(taken as int + 1);
            assert(after.drop_last() =~= punches@.take(taken as int));
            assert(after.last() == punch);
        }
        match state.step(punch.line, punch.direction, punch.at) {
            Ok(next) => {
                state = next;
            },
            Err(error) => {
                proof {
                    lemma_rejection_is_final(punches@, taken as int + 1);
                }
                return Err(error);
            },
        }
        taken = taken + 1;
    }
    proof {
        assert(punches@.take(taken as int) =~= punches@);
    }
    Ok(state)
}

/// Once a punch has been rejected, the punches after it change nothing.
pub proof fn lemma_rejection_is_final(punches: Seq<Punch>, taken: int)
    requires
        0 <= taken <= punches.len(),
        spec_reduce(punches.take(taken)) is Err,
    ensures
        spec_reduce(punches) == spec_reduce(punches.take(taken)),
    decreases punches.len(),
{
    if taken == punches.len() {
        assert(punches.take(taken) =~= punches);
    } else {
        assert(punches.drop_last().take(taken) =~= punches.take(taken));
        lemma_rejection_is_final(punches.drop_last(), taken);
    }
}

} // verus!
