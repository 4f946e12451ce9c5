use timeclock::{Date, Duration, Timestamp};

#[test]
fn a_span_counts_whole_units_toward_zero() {
    let span = Duration::seconds(2 * 3_600 + 59 * 60 + 59);
    assert_eq!(span.whole_seconds(), 10_799);
    assert_eq!(span.whole_minutes(), 179);
    assert_eq!(span.whole_hours(), 2);
    assert!(!span.is_negative());
    let back = Duration::seconds(-(2 * 3_600 + 59 * 60 + 59));
    assert_eq!(back.whole_seconds(), -10_799);
    assert_eq!(back.whole_minutes(), -179);
    assert_eq!(back.whole_hours(), -2);
    assert!(back.is_negative());
    assert!(!Duration::zero().is_negative());
}

#[test]
fn spans_agree_with_the_time_crate() {
    for seconds in [0_i64, 1, -1, 59, -59, 60, 3_599, -3_599, 3_600, -7_201, i64::MAX, i64::MIN] {
        let ours = Duration::seconds(seconds);
        let theirs = time::Duration::seconds(seconds);
        assert_eq!(ours.whole_seconds(), theirs.whole_seconds());
        assert_eq!(ours.whole_minutes(), theirs.whole_minutes());
        assert_eq!(ours.whole_hours(), theirs.whole_hours());
        assert_eq!(ours.is_negative(), theirs.is_negative());
    }
    assert_eq!(Duration::hours(8).whole_seconds(), time::Duration::hours(8).whole_seconds());
    assert_eq!(Duration::hours(-8).whole_seconds(), time::Duration::hours(-8).whole_seconds());
}

#[test]
fn hours_are_sixty_times_sixty_seconds() {
    assert_eq!(Duration::hours(1), Duration::seconds(3_600));
    assert_eq!(Duration::hours(8), Duration::seconds(28_800));
    assert_eq!(Duration::hours(-3), Duration::seconds(-10_800));
    assert_eq!(Duration::hours(0), Duration::zero());
}

#[test]
fn a_sum_of_spans_is_checked() {
    assert_eq!(
        Duration::seconds(5).checked_add(Duration::seconds(-7)),
        Some(Duration::seconds(-2))
    );
    assert_eq!(
        Duration::seconds(i64::MAX).checked_add(Duration::zero()),
        Some(Duration::seconds(i64::MAX))
    );
    assert_eq!(Duration::seconds(i64::MAX).checked_add(Duration::seconds(1)), None);
    assert_eq!(Duration::seconds(i64::MIN).checked_add(Duration::seconds(-1)), None);
}

#[test]
fn an_instant_is_a_day_and_a_clock_reading() {
    let stamp = Timestamp::new(2_459_692, 21, 33, 23).unwrap();
    assert_eq!(stamp.seconds, 212_517_466_403);
    assert_eq!(stamp.julian_day(), 2_459_692);
    assert_eq!(stamp.date(), Date { julian_day: 2_459_692 });
    assert_eq!(stamp.second_of_day(), 77_603);
    assert_eq!(stamp.as_hms(), (21, 33, 23));
    let midnight = Timestamp::new(0, 0, 0, 0).unwrap();
    assert_eq!(midnight.seconds, 0);
    assert_eq!(midnight.as_hms(), (0, 0, 0));
    let last = Timestamp::new(0, 23, 59, 59).unwrap();
    assert_eq!(last.seconds, 86_399);
    assert_eq!(last.julian_day(), 0);
}

#[test]
fn an_instant_needs_a_reading_of_a_24_hour_clock() {
    assert_eq!(Timestamp::new(10, 24, 0, 0), None);
    assert_eq!(Timestamp::new(10, 0, 60, 0), None);
    assert_eq!(Timestamp::new(10, 0, 0, 60), None);
    assert!(Timestamp::new(i32::MAX, 23, 59, 59).is_some());
    assert!(Timestamp::new(i32::MIN, 0, 0, 0).is_some());
}

#[test]
fn days_before_julian_day_zero_are_numbered_downwards() {
    let stamp = Timestamp::new(-1, 23, 59, 59).unwrap();
    assert_eq!(stamp.seconds, -1);
    assert_eq!(stamp.julian_day(), -1);
    assert_eq!(stamp.second_of_day(), 86_399);
    assert_eq!(stamp.as_hms(), (23, 59, 59));
    let stamp = Timestamp { seconds: -86_400 };
    assert_eq!(stamp.julian_day(), -1);
    assert_eq!(stamp.as_hms(), (0, 0, 0));
    let stamp = Timestamp { seconds: -86_401 };
    assert_eq!(stamp.julian_day(), -2);
    assert_eq!(stamp.as_hms(), (23, 59, 59));
    assert_eq!(Timestamp { seconds: i64::MIN }.julian_day(), -106_751_991_167_301);
    assert_eq!(Timestamp { seconds: i64::MAX }.julian_day(), 106_751_991_167_300);
}

#[test]
fn instants_are_ordered_in_time() {
    let nine = Timestamp::new(2_459_692, 9, 0, 0).unwrap();
    let ten = Timestamp::new(2_459_692, 10, 0, 0).unwrap();
    let next_day = Timestamp::new(2_459_693, 0, 0, 0).unwrap();
    assert!(nine.is_before(ten));
    assert!(!ten.is_before(nine));
    assert!(!nine.is_before(nine));
    assert!(ten.is_before(next_day));
    assert!(nine < ten && ten < next_day);
}

#[test]
fn the_span_between_instants_is_their_difference() {
    let nine = Timestamp::new(2_459_692, 9, 0, 0).unwrap();
    let ten = Timestamp::new(2_459_693, 10, 0, 1).unwrap();
    assert_eq!(ten.checked_since(nine), Some(Duration::seconds(86_400 + 3_601)));
    assert_eq!(nine.checked_since(ten), Some(Duration::seconds(-(86_400 + 3_601))));
    assert_eq!(nine.checked_since(nine), Some(Duration::zero()));
    let first = Timestamp { seconds: i64::MIN };
    let last = Timestamp { seconds: i64::MAX };
    assert_eq!(last.checked_since(first), None);
    assert_eq!(first.checked_since(last), None);
}

#[test]
fn an_instant_is_shifted_by_a_span() {
    let nine = Timestamp::new(2_459_692, 9, 0, 0).unwrap();
    assert_eq!(
        nine.checked_add(Duration::hours(5)),
        Timestamp::new(2_459_692, 14, 0, 0)
    );
    assert_eq!(
        nine.checked_add(Duration::hours(-10)),
        Timestamp::new(2_459_691, 23, 0, 0)
    );
    assert_eq!(Timestamp { seconds: i64::MAX }.checked_add(Duration::seconds(1)), None);
    assert_eq!(Timestamp { seconds: i64::MIN }.checked_add(Duration::seconds(-1)), None);
}

#[test]
fn shifts_and_differences_agree_with_the_time_crate() {
    let date = time::Date::from_calendar_date(2022, time::Month::April, 22).unwrap();
    let theirs = time::PrimitiveDateTime::new(date, time::Time::from_hms(9, 33, 33).unwrap());
    let ours = Timestamp::new(date.to_julian_day(), 9, 33, 33).unwrap();
    for seconds in [0_i64, 1, -1, 5 * 3_600, -10 * 3_600, 86_400 * 400, -86_400 * 4_000] {
        let their_shifted = theirs + time::Duration::seconds(seconds);
        let our_shifted = ours.checked_add(Duration::seconds(seconds)).unwrap();
        assert_eq!(our_shifted.julian_day(), i64::from(their_shifted.to_julian_day()));
        assert_eq!(our_shifted.as_hms(), their_shifted.as_hms());
        assert_eq!(
            our_shifted.checked_since(ours).unwrap().whole_seconds(),
            (their_shifted - theirs).whole_seconds()
        );
        assert_eq!(our_shifted.is_before(ours), their_shifted < theirs);
        assert_eq!(our_shifted.date() == ours.date(), their_shifted.date() == theirs.date());
    }
}
