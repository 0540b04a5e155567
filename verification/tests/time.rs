use pessimal::domain::clock::{Clock, FixedClock, SystemClock};
use pessimal::time::{TimeDelta, Timestamp, MAX_DELTA_SECS, MAX_SECS, MIN_SECS};

fn at(secs: i64, nanos: u32) -> Timestamp {
    Timestamp::from_timestamp(secs, nanos).expect("an instant")
}

#[test]
fn the_calendar_ends_where_chrono_says() {
    assert_eq!(MIN_SECS, chrono::DateTime::<chrono::Utc>::MIN_UTC.timestamp());
    assert_eq!(MAX_SECS, chrono::DateTime::<chrono::Utc>::MAX_UTC.timestamp());
    assert_eq!(MAX_DELTA_SECS, chrono::TimeDelta::MAX.num_seconds());
    assert!(Timestamp::from_timestamp(MIN_SECS, 0).is_some());
    assert!(Timestamp::from_timestamp(MIN_SECS - 1, 999_999_999).is_none());
    assert!(Timestamp::from_timestamp(MAX_SECS, 999_999_999).is_some());
    assert!(Timestamp::from_timestamp(MAX_SECS, 1_999_999_999).is_some());
    assert!(Timestamp::from_timestamp(MAX_SECS + 1, 0).is_none());
}

#[test]
fn a_leap_second_is_the_last_one_of_its_minute() {
    assert!(Timestamp::from_timestamp(59, 1_500_000_000).is_some());
    assert!(Timestamp::from_timestamp(-1, 1_500_000_000).is_some());
    assert!(Timestamp::from_timestamp(58, 1_500_000_000).is_none());
    assert!(Timestamp::from_timestamp(59, 2_000_000_000).is_none());
}

#[test]
fn milliseconds_go_both_ways() {
    for millis in [0, 1, -1, 999, -999, 1_760_000_000_123, -1_760_000_000_123] {
        let at = Timestamp::from_timestamp_millis(millis).expect("an instant");
        assert_eq!(at.timestamp_millis(), millis);
    }
    assert_eq!(Timestamp::from_timestamp_millis(-1), Some(at(-1, 999_000_000)));
    assert_eq!(Timestamp::from_timestamp_millis(i64::MAX), None);
    assert_eq!(Timestamp::from_timestamp_millis(i64::MIN), None);
    assert!(Timestamp::from_timestamp_millis(MIN_SECS * 1000).is_some());
    assert!(Timestamp::from_timestamp_millis(MIN_SECS * 1000 - 1).is_none());
    assert!(Timestamp::from_timestamp_millis(MAX_SECS * 1000 + 999).is_some());
    assert!(Timestamp::from_timestamp_millis(MAX_SECS * 1000 + 1000).is_none());
    assert_eq!(at(0, 1_999_999).timestamp_millis(), 1);
    assert_eq!(at(-1, 999_999_999).timestamp_millis(), -1);
}

#[test]
fn nanoseconds_fit_for_some_three_centuries_either_way() {
    assert_eq!(at(1, 5).timestamp_nanos_opt(), Some(1_000_000_005));
    assert_eq!(at(-1, 999_999_999).timestamp_nanos_opt(), Some(-1));
    assert_eq!(
        at(9_223_372_036, 854_775_807).timestamp_nanos_opt(),
        Some(i64::MAX)
    );
    assert_eq!(at(9_223_372_036, 854_775_808).timestamp_nanos_opt(), None);
    assert_eq!(
        at(-9_223_372_037, 145_224_192).timestamp_nanos_opt(),
        Some(i64::MIN)
    );
    assert_eq!(at(-9_223_372_037, 145_224_191).timestamp_nanos_opt(), None);
}

#[test]
fn the_span_between_two_instants_has_a_sign() {
    let earlier = at(100, 500_000_000);
    let later = at(160, 250_000_000);
    assert_eq!(
        later.signed_duration_since(earlier).total_nanos(),
        59_750_000_000
    );
    assert_eq!(
        earlier.signed_duration_since(later).total_nanos(),
        -59_750_000_000
    );
    assert_eq!(later.signed_duration_since(later), TimeDelta::seconds(0));
}

#[test]
fn a_leap_second_between_two_times_of_day_is_counted() {
    let leap = at(59, 1_500_000_000);
    assert_eq!(
        at(60, 0).signed_duration_since(leap).total_nanos(),
        500_000_000
    );
    assert_eq!(
        leap.signed_duration_since(at(60, 0)).total_nanos(),
        -500_000_000
    );
    assert_eq!(
        leap.signed_duration_since(at(59, 0)).total_nanos(),
        1_500_000_000
    );
    // The next day at an earlier time of day: the second before midnight is not between them.
    assert_eq!(
        at(86_400 + 58, 0).signed_duration_since(leap).total_nanos(),
        86_400_000_000_000 + 58_000_000_000 - 60_500_000_000
    );
}

#[test]
fn a_span_back_from_an_instant_stays_on_the_calendar() {
    assert_eq!(
        at(100, 0).checked_sub_signed(TimeDelta::milliseconds(1)),
        Some(at(99, 999_000_000))
    );
    assert_eq!(
        at(MIN_SECS, 0).checked_sub_signed(TimeDelta::milliseconds(1)),
        None
    );
    assert_eq!(at(0, 0).checked_sub_signed(TimeDelta::longest()), None);
    assert_eq!(
        at(59, 1_500_000_000).checked_sub_signed(TimeDelta::milliseconds(100)),
        Some(at(59, 1_400_000_000))
    );
    assert_eq!(
        at(59, 1_500_000_000).checked_sub_signed(TimeDelta::milliseconds(700)),
        Some(at(59, 800_000_000))
    );
    assert_eq!(
        at(59, 1_500_000_000).checked_sub_signed(TimeDelta::seconds(2)),
        Some(at(58, 500_000_000))
    );
}

#[test]
fn instants_come_in_order() {
    assert!(at(1, 5).is_before(at(1, 6)));
    assert!(at(1, 999_999_999).is_before(at(2, 0)));
    assert!(!at(2, 0).is_before(at(2, 0)));
    assert!(at(59, 999_999_999).is_before(at(59, 1_000_000_000)));
    assert!(at(59, 1_999_999_999).is_before(at(60, 0)));
}

#[test]
fn instants_and_spans_are_written_as_chrono_writes_them() {
    assert_eq!(at(1_760_000_000, 0).to_string(), "2025-10-09 08:53:20 UTC");
    assert_eq!(
        at(1_760_000_000, 120_000_000).to_string(),
        "2025-10-09 08:53:20.120 UTC"
    );
    assert_eq!(TimeDelta::seconds(0).to_string(), "P0D");
    assert_eq!(TimeDelta::seconds(90).to_string(), "PT90S");
    assert_eq!(TimeDelta::seconds(-90).to_string(), "-PT90S");
    assert_eq!(TimeDelta::milliseconds(1).to_string(), "PT0.001S");
    assert_eq!(TimeDelta::milliseconds(1_500).to_string(), "PT1.5S");
    assert_eq!(TimeDelta::milliseconds(1_050).to_string(), "PT1.05S");
    assert_eq!(
        at(0, 0).signed_duration_since(at(1, 500_000_001)).to_string(),
        "-PT1.500000001S"
    );
    assert_eq!(
        TimeDelta::longest().to_string(),
        "PT9223372036854775.807S"
    );
}

#[test]
fn seconds_have_a_range() {
    assert_eq!(
        TimeDelta::try_seconds(MAX_DELTA_SECS),
        Some(TimeDelta::seconds(MAX_DELTA_SECS))
    );
    assert_eq!(TimeDelta::try_seconds(MAX_DELTA_SECS + 1), None);
    assert_eq!(
        TimeDelta::try_seconds(-MAX_DELTA_SECS),
        Some(TimeDelta::seconds(-MAX_DELTA_SECS))
    );
    assert_eq!(TimeDelta::try_seconds(-MAX_DELTA_SECS - 1), None);
    assert_eq!(TimeDelta::try_seconds(i64::MIN), None);
}

#[test]
fn counting_cuts_towards_zero() {
    assert_eq!(TimeDelta::milliseconds(1_999).num_seconds(), 1);
    let back = at(0, 0).signed_duration_since(at(1, 999_000_000));
    assert_eq!(back.num_seconds(), -1);
    assert_eq!(TimeDelta::milliseconds(1_999).total_nanos(), 1_999_000_000);
}

#[test]
fn a_product_may_outgrow_what_can_be_constructed() {
    let long = TimeDelta::seconds(365 * 86_400);
    let product = long.checked_mul(2_000_000_000).expect("fits");
    assert!(TimeDelta::longest().is_less(product));
    assert_eq!(
        product.total_nanos(),
        365 * 86_400 * 2_000_000_000 * 1_000_000_000
    );
    assert_eq!(
        TimeDelta::seconds(100_000 * 86_400).checked_mul(2_000_000_000),
        None
    );
    assert_eq!(
        TimeDelta::milliseconds(1_500).checked_mul(3),
        Some(TimeDelta::milliseconds(4_500))
    );
}

#[test]
fn products_agree_with_chrono() {
    for (secs, times) in [(30, 3), (30, 5), (86_400, 1_000_000), (8_640_000_000, 1_000_000_000)] {
        let ours = TimeDelta::seconds(secs).checked_mul(times as u32);
        let theirs = chrono::TimeDelta::seconds(secs).checked_mul(times);
        assert_eq!(
            ours.map(|d| d.num_seconds()),
            theirs.map(|d| d.num_seconds())
        );
    }
}

#[test]
fn a_pinned_clock_stays_where_it_was_put() {
    let mut clock = FixedClock::new(at(5, 0));
    assert_eq!(clock.now(), at(5, 0));
    assert_eq!(clock.now(), at(5, 0));
    clock.set(at(6, 0));
    assert_eq!(clock.now(), at(6, 0));
}

#[test]
fn the_real_clock_is_past_the_year_this_was_written_in() {
    assert!(at(1_735_689_600, 0).is_before(SystemClock.now()));
    assert!(at(1_735_689_600, 0).is_before(Timestamp::now()));
}

#[test]
fn spans_are_made_of_seconds_and_nanoseconds_as_chrono_makes_them() {
    for (secs, nanos) in [
        (0, 0),
        (5, 500_000_000),
        (-5, 500_000_000),
        (-1, 1),
        (0, 1_000_000_000),
        (MAX_DELTA_SECS, 807_000_000),
        (MAX_DELTA_SECS, 807_000_001),
        (-MAX_DELTA_SECS - 1, 193_000_000),
        (-MAX_DELTA_SECS - 1, 192_999_999),
        (i64::MIN, 0),
        (i64::MAX, 0),
    ] {
        let ours = TimeDelta::new(secs, nanos);
        let theirs = chrono::TimeDelta::new(secs, nanos);
        assert_eq!(ours.is_some(), theirs.is_some(), "{secs} {nanos}");
        if let (Some(ours), Some(theirs)) = (ours, theirs) {
            assert_eq!(ours.num_seconds(), theirs.num_seconds());
            assert_eq!(
                ours.total_nanos(),
                i128::from(theirs.num_seconds()) * 1_000_000_000 + i128::from(theirs.subsec_nanos())
            );
        }
    }
}

#[test]
fn an_instant_gives_its_fields_back() {
    let leap = at(59, 1_500_000_000);
    assert_eq!(leap.timestamp(), 59);
    assert_eq!(leap.timestamp_subsec_nanos(), 1_500_000_000);
    assert_eq!(at(-1, 5).timestamp(), -1);
}
