use timeclock::{parse_timestamp, Duration, Summary, Timestamp};

struct SummaryNewTestCase {
    worked_today: Duration,
    first_punchin_today: Timestamp,
    total_worked: Duration,
    num_days_worked: u32,
    now: Timestamp,
    clocked_in: bool,
    expected_overtime: Duration,
    expected_avg_worked: Duration,
    expected_still_to_work: Duration,
    expected_still_to_work_8: Duration,
    expected_time_to_leave: Option<Timestamp>,
    expected_time_to_leave_8: Option<Timestamp>,
}

fn at(text: &str) -> Timestamp {
    parse_timestamp(text).unwrap()
}

fn aaa_summary_new(tc: &SummaryNewTestCase) {
    assert!(Summary::is_representable(
        tc.worked_today,
        tc.total_worked,
        tc.num_days_worked,
        &tc.now,
        tc.clocked_in,
    ));
    let result = Summary::new(
        tc.worked_today,
        Some(tc.first_punchin_today),
        tc.total_worked,
        tc.num_days_worked,
        &tc.now,
        tc.clocked_in,
    );
    assert_eq!(result.num_days_worked, tc.num_days_worked);
    assert_eq!(result.first_punchin_today, Some(tc.first_punchin_today));
    assert_eq!(result.total_worked, tc.total_worked);
    assert_eq!(result.avg_worked, tc.expected_avg_worked);
    assert_eq!(result.overtime, tc.expected_overtime);
    assert_eq!(result.still_to_work, tc.expected_still_to_work);
    assert_eq!(result.still_to_work_8, tc.expected_still_to_work_8);
    assert_eq!(result.time_to_leave_8, tc.expected_time_to_leave_8);
    assert_eq!(result.time_to_leave, tc.expected_time_to_leave);
}

#[test]
fn summary_new_today_only() {
    let tc = SummaryNewTestCase {
        now: at("2022/04/22 09:33:33"),
        worked_today: Duration::hours(3_i64),
        first_punchin_today: at("2022/04/22 06:33:33"),
        total_worked: Duration::hours(3_i64),
        num_days_worked: 1u32,
        clocked_in: true,
        expected_overtime: Duration::zero(),
        expected_avg_worked: Duration::hours(3_i64),
        expected_still_to_work: Duration::hours(5_i64),
        expected_still_to_work_8: Duration::hours(5_i64),
        expected_time_to_leave: Some(at("2022/04/22 14:33:33")),
        expected_time_to_leave_8: Some(at("2022/04/22 14:33:33")),
    };
    aaa_summary_new(&tc);
}

#[test]
fn summary_new_2_days_positive_overtime() {
    let tc = SummaryNewTestCase {
        now: at("2022/04/22 09:33:33"),
        worked_today: Duration::hours(3_i64),
        first_punchin_today: at("2022/04/22 06:33:33"),
        total_worked: Duration::hours(12_i64),
        num_days_worked: 2u32,
        clocked_in: true,
        expected_overtime: Duration::hours(1_i64),
        expected_avg_worked: Duration::hours(6_i64),
        expected_still_to_work: Duration::hours(4_i64),
        expected_still_to_work_8: Duration::hours(5_i64),
        expected_time_to_leave: Some(at("2022/04/22 13:33:33")),
        expected_time_to_leave_8: Some(at("2022/04/22 14:33:33")),
    };
    aaa_summary_new(&tc);
}

#[test]
fn summary_new_2_days_negative_overtime() {
    let tc = SummaryNewTestCase {
        now: at("2022/04/22 09:33:33"),
        worked_today: Duration::hours(3_i64),
        first_punchin_today: at("2022/04/22 06:33:33"),
        total_worked: Duration::hours(8_i64),
        num_days_worked: 2u32,
        clocked_in: true,
        expected_overtime: Duration::hours(-3_i64),
        expected_avg_worked: Duration::hours(4_i64),
        expected_still_to_work: Duration::hours(8_i64),
        expected_still_to_work_8: Duration::hours(5_i64),
        expected_time_to_leave: Some(at("2022/04/22 17:33:33")),
        expected_time_to_leave_8: Some(at("2022/04/22 14:33:33")),
    };
    aaa_summary_new(&tc);
}

#[test]
fn summary_new_last_state_is_clocked_out() {
    let tc = SummaryNewTestCase {
        now: at("2022/04/22 09:33:33"),
        worked_today: Duration::hours(3_i64),
        first_punchin_today: at("2022/04/22 06:33:33"),
        total_worked: Duration::hours(8_i64),
        num_days_worked: 2u32,
        clocked_in: false,
        expected_overtime: Duration::hours(-3_i64),
        expected_avg_worked: Duration::hours(4_i64),
        expected_still_to_work: Duration::hours(8_i64),
        expected_still_to_work_8: Duration::hours(5_i64),
        expected_time_to_leave: None,
        expected_time_to_leave_8: None,
    };
    aaa_summary_new(&tc);
}

#[test]
fn overtime_is_measured_against_eight_hours_a_day() {
    // Two days, twelve hours in all, three of them today: the day before
    // brought nine hours against a target of eight.
    let now = at("2022/01/02 12:00:00");
    let summary = Summary::new(
        Duration::hours(3),
        None,
        Duration::hours(12),
        2,
        &now,
        false,
    );
    assert_eq!(summary.overtime, Duration::hours(1));
    assert_eq!(summary.still_to_work_8, Duration::hours(5));
    assert_eq!(summary.still_to_work, Duration::hours(4));
    assert_eq!(summary.first_punchin_today, None);
}

#[test]
fn the_first_day_carries_no_overtime() {
    let now = at("2022/01/01 20:00:00");
    let summary = Summary::new(
        Duration::hours(10),
        None,
        Duration::hours(10),
        1,
        &now,
        true,
    );
    assert_eq!(summary.overtime, Duration::zero());
    assert_eq!(summary.still_to_work_8, Duration::hours(-2));
    assert_eq!(summary.still_to_work, Duration::hours(-2));
    assert_eq!(summary.time_to_leave, Some(at("2022/01/01 18:00:00")));
    assert_eq!(summary.time_to_leave_8, Some(at("2022/01/01 18:00:00")));
}

#[test]
fn figures_are_exact_to_the_second() {
    let now = at("2022/01/03 10:00:00");
    let summary = Summary::new(
        Duration::seconds(3_601),
        None,
        Duration::seconds(60_000),
        3,
        &now,
        true,
    );
    // 60000 - 3601 - 2 * 28800
    assert_eq!(summary.overtime, Duration::seconds(-1_201));
    // 28800 - 3601
    assert_eq!(summary.still_to_work_8, Duration::seconds(25_199));
    // 25199 + 1201
    assert_eq!(summary.still_to_work, Duration::seconds(26_400));
    assert_eq!(summary.avg_worked, Duration::seconds(20_000));
    assert_eq!(summary.time_to_leave, Some(at("2022/01/03 17:20:00")));
    assert_eq!(summary.time_to_leave_8, Some(at("2022/01/03 16:59:59")));
}

#[test]
fn the_average_is_rounded_toward_zero() {
    let now = at("2022/01/03 10:00:00");
    let up = Summary::new(Duration::zero(), None, Duration::seconds(10), 3, &now, false);
    assert_eq!(up.avg_worked, Duration::seconds(3));
    let down = Summary::new(Duration::zero(), None, Duration::seconds(-10), 3, &now, false);
    assert_eq!(down.avg_worked, Duration::seconds(-3));
    let none = Summary::new(Duration::zero(), None, Duration::seconds(2), 3, &now, false);
    assert_eq!(none.avg_worked, Duration::zero());
}

#[test]
fn time_to_leave_may_fall_on_another_day() {
    let now = at("2022/01/03 23:00:00");
    let summary = Summary::new(
        Duration::hours(1),
        None,
        Duration::hours(1),
        1,
        &now,
        true,
    );
    assert_eq!(summary.time_to_leave, Some(at("2022/01/04 06:00:00")));
    let summary = Summary::new(
        Duration::hours(32),
        None,
        Duration::hours(32),
        1,
        &now,
        true,
    );
    assert_eq!(summary.time_to_leave, Some(at("2022/01/02 23:00:00")));
}

#[test]
fn the_same_totals_give_the_same_summary() {
    let now = at("2022/04/22 09:33:33");
    let first = at("2022/04/22 06:33:33");
    let once = Summary::new(Duration::hours(3), Some(first), Duration::hours(12), 2, &now, true);
    let again = Summary::new(Duration::hours(3), Some(first), Duration::hours(12), 2, &now, true);
    assert_eq!(once, again);
}

#[test]
fn figures_that_cannot_be_held_are_told_apart() {
    let now = at("2022/04/22 09:33:33");
    assert!(Summary::is_representable(
        Duration::hours(3),
        Duration::hours(12),
        2,
        &now,
        true
    ));
    // 8 hours less the smallest span is more than the largest span.
    assert!(!Summary::is_representable(
        Duration::seconds(i64::MIN),
        Duration::zero(),
        1,
        &now,
        false
    ));
    // The overtime would be the largest span and one day's worth more.
    assert!(!Summary::is_representable(
        Duration::seconds(-28_800),
        Duration::seconds(i64::MAX),
        1,
        &now,
        false
    ));
    // The spans can be held, the instant to leave cannot.
    let late = Timestamp { seconds: i64::MAX - 10 };
    assert!(Summary::is_representable(
        Duration::zero(),
        Duration::zero(),
        1,
        &late,
        false
    ));
    assert!(!Summary::is_representable(
        Duration::zero(),
        Duration::zero(),
        1,
        &late,
        true
    ));
}
