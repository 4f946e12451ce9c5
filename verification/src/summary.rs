//! The figures reported for a log: overtime, what is left of today's target,
//! and when it will be met.
//!
//! Every day with a clock-in is held against a target of eight hours. The
//! days before the most recent one settle into the overtime; the most recent
//! day is still open, and what it lacks is what is still to work.

use crate::duration::{quotient_toward_zero, within_range, Duration, SECONDS_PER_HOUR};
use crate::timestamp::Timestamp;
use vstd::prelude::*;

verus! {

/// The number of hours to work on a day.
pub const TARGET_HOURS: i64 = 8;

/// The time to work on a day, in seconds.
pub open spec fn daily_target() -> int {
    TARGET_HOURS * SECONDS_PER_HOUR
}

/// The work-time figures of a log, as they stand at one instant.
#[derive(Clone, Copy, Debug, PartialEq, Eq)]
pub struct Summary {
    /// The number of days with at least one clock-in.
    pub num_days_worked: u32,
    /// The first clock-in of the most recent day.
    pub first_punchin_today: Option<Timestamp>,
    /// The time worked per day, on average.
    pub avg_worked: Duration,
    /// The time worked beyond the target over all days before the most recent one.
    pub overtime: Duration,
    /// What the most recent day lacks of the target.
    pub still_to_work_8: Duration,
    /// What the most recent day lacks of the target, once the overtime is set against it.
    pub still_to_work: Duration,
    /// When `still_to_work` will have run out; present while clocked in.
    pub time_to_leave: Option<Timestamp>,
    /// When `still_to_work_8` will have run out; present while clocked in.
    pub time_to_leave_8: Option<Timestamp>,
    /// The time worked over the whole log.
    pub total_worked: Duration,
    /// The time worked on the most recent day.
    pub worked_today: Duration,
}

impl Summary {
    /// The time worked per day on average, rounded toward zero to the second.
    pub open spec fn spec_avg_worked(total_worked: int, num_days_worked: int) -> int {
        quotient_toward_zero(total_worked, num_days_worked)
    }

    /// The time worked before the most recent day, less the target of each of
    /// those days.
    pub open spec fn spec_overtime(
        worked_today: int,
        total_worked: int,
        num_days_worked: int,
    ) -> int {
        (total_worked - worked_today) - (num_days_worked - 1) * daily_target()
    }

    /// What the most recent day lacks of the target.
    pub open spec fn spec_still_to_work_8(worked_today: int) -> int {
        daily_target() - worked_today
    }

    /// What the most recent day lacks of the target, less the overtime.
    pub open spec fn spec_still_to_work(
        worked_today: int,
        total_worked: int,
        num_days_worked: int,
    ) -> int {
        Self::spec_still_to_work_8(worked_today) - Self::spec_overtime(
            worked_today,
            total_worked,
            num_days_worked,
        )
    }

    /// Whether every figure of the summary can be held: the three spans
    /// derived from the totals and, while clocked in, the two instants that
    /// they project from `now`.
    pub open spec fn representable(
        worked_today: Duration,
        total_worked: Duration,
        num_days_worked: u32,
        now: Timestamp,
        clocked_in: bool,
    ) -> bool {
        let overtime = Self::spec_overtime(worked_today@, total_worked@, num_days_worked as int);
        let still_to_work_8 = Self::spec_still_to_work_8(worked_today@);
        let still_to_work = Self::spec_still_to_work(
            worked_today@,
            total_worked@,
            num_days_worked as int,
        );
        &&& Duration::fits(overtime)
        &&& Duration::fits(still_to_work_8)
        &&& Duration::fits(still_to_work)
        &&& clocked_in ==> Timestamp::fits(now@ + still_to_work) && Timestamp::fits(
            now@ + still_to_work_8,
        )
    }

    /// The summary of the given totals as they stand at `now`.
    pub open spec fn spec_new(
        worked_today: Duration,
        first_punchin_today: Option<Timestamp>,
        total_worked: Duration,
        num_days_worked: u32,
        now: Timestamp,
        clocked_in: bool,
    ) -> Summary {
        let overtime = Self::spec_overtime(worked_today@, total_worked@, num_days_worked as int);
        let still_to_work_8 = Self::spec_still_to_work_8(worked_today@);
        let still_to_work = Self::spec_still_to_work(
            worked_today@,
            total_worked@,
            num_days_worked as int,
        );
        Summary {
            num_days_worked,
            first_punchin_today,
            avg_worked: Duration {
                seconds: Self::spec_avg_worked(total_worked@, num_days_worked as int) as i64,
            },
            overtime: Duration { seconds: overtime as i64 },
            still_to_work_8: Duration { seconds: still_to_work_8 as i64 },
            still_to_work: Duration { seconds: still_to_work as i64 },
            time_to_leave: if clocked_in {
                Some(Timestamp { seconds: (now@ + still_to_work) as i64 })
            } else {
                None
            },
            time_to_leave_8: if clocked_in {
                Some(Timestamp { seconds: (now@ + still_to_work_8) as i64 })
            } else {
                None
            },
            total_worked,
            worked_today,
        }
    }

    /// Tells whether every figure of the summary can be held.
    pub fn is_representable(
        worked_today: Duration,
        total_worked: Duration,
        num_days_worked: u32,
        now: &Timestamp,
        clocked_in: bool,
    ) -> (held: bool)
        ensures
            held == Self::representable(
                worked_today,
                total_worked,
                num_days_worked,
                *now,
                clocked_in,
            ),
    {
        let today: i128 = worked_today.seconds as i128;
        let total: i128 = total_worked.seconds as i128;
        let target: i128 = (TARGET_HOURS * SECONDS_PER_HOUR) as i128;
        let overtime: i128 = (total - today) - (num_days_worked as i128 - 1) * target;
        let still_to_work_8: i128 = target - today;
        let still_to_work: i128 = still_to_work_8 - overtime;
        let leave: i128 = now.seconds as i128 + still_to_work;
        let leave_8: i128 = now.seconds as i128 + still_to_work_8;
        within_range(overtime) && within_range(still_to_work_8) && within_range(still_to_work) && (
        !clocked_in || (within_range(leave) && within_range(leave_8)))
    }

    /// Derives the summary from the totals of a log as they stand at `now`.
    ///
    /// `worked_today` and `total_worked` already count the time up to `now`
    /// when `clocked_in` is set. There must be a day to average over, and the
    /// figures must be such as can be held.
    pub fn new(
        worked_today: Duration,
        first_punchin_today: Option<Timestamp>,
        total_worked: Duration,
        num_days_worked: u32,
        now: &Timestamp,
        clocked_in: bool,
    ) -> (summary: Summary)
        requires
            num_days_worked >= 1,
            Self::representable(worked_today, total_worked, num_days_worked, *now, clocked_in),
        ensures
            summary == Self::spec_new(
                worked_today,
                first_punchin_today,
                total_worked,
                num_days_worked,
                *now,
                clocked_in,
            ),
    {
        let today: i128 = worked_today.seconds as i128;
        let total: i128 = total_worked.seconds as i128;
        let target: i128 = (TARGET_HOURS * SECONDS_PER_HOUR) as i128;
        let avg_worked: i128 = total / (num_days_worked as i128);
        let overtime: i128 = (total - today) - (num_days_worked as i128 - 1) * target;
        let still_to_work_8: i128 = target - today;
        let still_to_work: i128 = still_to_work_8 - overtime;
        let still_to_work_8 = Duration::seconds(still_to_work_8 as i64);
        let still_to_work = Duration::seconds(still_to_work as i64);
        Summary {
            num_days_worked,
            first_punchin_today,
            avg_worked: Duration::seconds(avg_worked as i64),
            overtime: Duration::seconds(overtime as i64),
            still_to_work_8,
            still_to_work,
            time_to_leave: if clocked_in {
                now.checked_add(still_to_work)
            } else {
                None
            },
            time_to_leave_8: if clocked_in {
                now.checked_add(still_to_work_8)
            } else {
                None
            },
            total_worked,
            worked_today,
        }
    }
}

} // verus!
