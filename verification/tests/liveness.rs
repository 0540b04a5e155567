use pessimal::domain::error::CoreError;
use pessimal::domain::liveness::{Liveness, LivenessPolicy, LivenessPolicyWire};
use pessimal::time::{TimeDelta, Timestamp};

const DAY: i64 = 86_400;

fn at(secs: i64) -> Timestamp {
    Timestamp::from_timestamp(1_760_000_000 + secs, 0).expect("valid timestamp")
}

fn policy() -> LivenessPolicy {
    LivenessPolicy::new(TimeDelta::seconds(30), 2, 5).expect("valid policy")
}

#[test]
fn thresholds_are_multiples_of_the_interval() {
    let policy = policy();
    assert_eq!(policy.stale_threshold(), TimeDelta::seconds(60));
    assert_eq!(policy.down_threshold(), TimeDelta::seconds(150));
}

#[test]
fn thresholds_saturate_rather_than_panic_on_an_absurd_multiplier() {
    let absurd =
        LivenessPolicy::new(TimeDelta::seconds(100_000 * DAY), 3, u32::MAX).expect("valid policy");

    assert_eq!(absurd.down_threshold(), TimeDelta::longest());
    assert_eq!(
        absurd.evaluate(Some(at(0)), at(1_000_000)),
        Liveness::Alive,
        "a saturated threshold is further away than any age, which is the answer the exact \
         value would give too"
    );

    let merely_enormous =
        LivenessPolicy::new(TimeDelta::seconds(365 * DAY), 3, u32::MAX).expect("valid policy");
    assert!(TimeDelta::seconds(365 * DAY).is_less(merely_enormous.down_threshold()));
}

#[test]
fn a_recent_heartbeat_is_alive() {
    assert_eq!(policy().evaluate(Some(at(0)), at(30)), Liveness::Alive);
}

#[test]
fn the_stale_boundary_is_inclusive() {
    assert_eq!(policy().evaluate(Some(at(0)), at(60)), Liveness::Alive);
    assert_eq!(policy().evaluate(Some(at(0)), at(61)), Liveness::Stale);
}

#[test]
fn the_down_boundary_is_inclusive() {
    assert_eq!(policy().evaluate(Some(at(0)), at(150)), Liveness::Stale);
    assert_eq!(policy().evaluate(Some(at(0)), at(151)), Liveness::Down);
}

#[test]
fn no_heartbeat_is_unknown_not_down() {
    assert_eq!(policy().evaluate(None, at(0)), Liveness::Unknown);
}

#[test]
fn clock_skew_into_the_future_reads_as_alive() {
    assert_eq!(policy().evaluate(Some(at(60)), at(0)), Liveness::Alive);
}

#[test]
fn stale_and_down_are_degraded_but_unknown_is_not() {
    assert!(Liveness::Stale.is_degraded());
    assert!(Liveness::Down.is_degraded());
    assert!(!Liveness::Alive.is_degraded());
    assert!(!Liveness::Unknown.is_degraded());
}

#[test]
fn rejects_a_non_positive_interval() {
    assert!(LivenessPolicy::new(TimeDelta::seconds(0), 2, 5).is_err());
    assert!(LivenessPolicy::new(TimeDelta::seconds(-1), 2, 5).is_err());
}

#[test]
fn rejects_thresholds_that_are_not_ordered() {
    assert!(LivenessPolicy::new(TimeDelta::seconds(30), 5, 2).is_err());
    assert!(LivenessPolicy::new(TimeDelta::seconds(30), 3, 3).is_err());
}

#[test]
fn rejects_zero_multipliers() {
    assert!(LivenessPolicy::new(TimeDelta::seconds(30), 0, 5).is_err());
    assert!(LivenessPolicy::new(TimeDelta::seconds(30), 2, 0).is_err());
}

#[test]
fn the_default_policy_leaves_headroom_for_bucket_quantisation() {
    let default = LivenessPolicy::default();
    let interval = default.heartbeat_interval();

    // Worst case for a healthy host: a full interval since its last beat, plus up to another
    // full interval of quantisation from the query bucket that beat landed in.
    let worst_case_measured_age = interval.checked_mul(2).expect("a minute");
    assert!(
        worst_case_measured_age.is_less(default.stale_threshold()),
        "a healthy host would flicker stale"
    );
    assert_eq!(
        default.evaluate(Some(at(0)), at(worst_case_measured_age.num_seconds())),
        Liveness::Alive
    );
}

#[test]
fn each_refusal_says_why() {
    let refused = |secs: i64, stale: u32, down: u32| {
        match LivenessPolicy::new(TimeDelta::seconds(secs), stale, down) {
            Err(CoreError::InvalidRule(why)) => why,
            other => panic!("{other:?}"),
        }
    };
    assert_eq!(refused(0, 0, 0), "heartbeat interval must be positive");
    assert_eq!(refused(30, 0, 5), "interval multipliers must be at least 1");
    assert_eq!(
        refused(30, 5, 2),
        "stale threshold (5) must be below down threshold (2)"
    );
}

#[test]
fn the_default_policy_is_a_half_minute_beat() {
    assert_eq!(
        LivenessPolicy::default().to_wire(),
        LivenessPolicyWire {
            heartbeat_interval: TimeDelta::seconds(30),
            stale_after_intervals: 3,
            down_after_intervals: 5
        }
    );
}

#[test]
fn an_older_heartbeat_is_never_judged_better() {
    let rank = |age: i64| match policy().evaluate(Some(at(0)), at(age)) {
        Liveness::Alive => 0,
        Liveness::Stale => 1,
        Liveness::Down => 2,
        Liveness::Unknown => panic!("there was a heartbeat"),
    };
    for age in -5..200 {
        assert!(rank(age) <= rank(age + 1));
    }
}

#[test]
fn a_multiplier_past_the_signed_range_counts_as_the_greatest_in_it() {
    let policy =
        LivenessPolicy::new(TimeDelta::milliseconds(1), 1, 2_147_483_648).expect("valid policy");
    assert_eq!(policy.stale_threshold(), TimeDelta::milliseconds(1));
    assert_eq!(
        policy.down_threshold(),
        TimeDelta::milliseconds(2_147_483_647)
    );
}

#[test]
fn absurd_thresholds_can_fall_out_of_order() {
    // The smaller product still fits, beyond the span that the larger one saturates to.
    let policy = LivenessPolicy::new(
        TimeDelta::seconds(100_000 * DAY),
        1_000_000_000,
        2_000_000_000,
    )
    .expect("valid policy");
    assert!(policy.down_threshold().is_less(policy.stale_threshold()));
}

#[test]
fn a_future_heartbeat_is_alive_across_a_leap_second() {
    let policy = LivenessPolicy::new(TimeDelta::milliseconds(1), 3, 5).expect("valid policy");
    // 23:59:60.5, and the midnight half a second later.
    let now = Timestamp::from_timestamp(DAY - 1, 1_500_000_000).expect("a leap second");
    let last = Timestamp::from_timestamp(DAY, 0).expect("midnight");
    assert_eq!(policy.evaluate(Some(last), now), Liveness::Alive);
    assert_eq!(policy.evaluate(Some(now), now), Liveness::Alive);
}
