use pessimal::domain::alert::{
    AlertEvaluation, AlertRule, AlertRuleWire, AlertState, Comparator, Dwell, MAX_DWELL_SECS,
};
use pessimal::domain::error::CoreError;
use pessimal::domain::host::{HostId, HostSelector};
use pessimal::domain::metric::{MetricKind, MetricPoint, MetricSeries};
use pessimal::number::Number;
use pessimal::time::{TimeDelta, Timestamp};

fn at(secs: i64) -> Timestamp {
    Timestamp::from_timestamp(1_760_000_000 + secs, 0).expect("valid timestamp")
}

fn host() -> HostId {
    HostId::new("web-1")
}

fn number(value: f64) -> Number {
    Number::from_bits(value.to_bits())
}

fn point(at: Timestamp, value: f64) -> MetricPoint {
    MetricPoint::new(at, number(value))
}

fn rule(for_secs: i64) -> AlertRule {
    AlertRule::new(
        "prod",
        "CPU hot",
        MetricKind::CpuUtilization,
        Comparator::GreaterThan,
        number(0.9),
        TimeDelta::seconds(for_secs),
    )
    .expect("valid rule")
}

fn series(points: Vec<MetricPoint>) -> MetricSeries {
    MetricSeries::new(host(), MetricKind::CpuUtilization, points)
}

fn evaluation(rule: &AlertRule) -> AlertEvaluation {
    AlertEvaluation::new(rule.id().clone(), host())
}

/// A staleness bound wide enough that only the tests about staleness feel it.
fn fresh() -> TimeDelta {
    TimeDelta::seconds(86_400)
}

#[test]
fn comparators_evaluate_their_boundaries() {
    let evaluate = |c: Comparator, a: f64, b: f64| c.evaluate(number(a), number(b));
    assert!(evaluate(Comparator::GreaterThan, 0.91, 0.9));
    assert!(!evaluate(Comparator::GreaterThan, 0.9, 0.9));
    assert!(evaluate(Comparator::GreaterThanOrEqual, 0.9, 0.9));
    assert!(evaluate(Comparator::LessThan, 0.1, 0.9));
    assert!(!evaluate(Comparator::LessThan, 0.9, 0.9));
    assert!(evaluate(Comparator::LessThanOrEqual, 0.9, 0.9));
}

#[test]
fn rules_carry_a_sortable_uuid_v7_identity() {
    assert_eq!(rule(0).id().id().bytes[6] >> 4, 7);
}

#[test]
fn rejects_an_empty_name() {
    assert!(AlertRule::new(
        "prod",
        "   ",
        MetricKind::CpuUtilization,
        Comparator::GreaterThan,
        number(0.9),
        TimeDelta::seconds(0),
    )
    .is_err());
}

#[test]
fn rejects_a_non_finite_threshold() {
    assert!(AlertRule::new(
        "prod",
        "NaN",
        MetricKind::CpuUtilization,
        Comparator::GreaterThan,
        number(f64::NAN),
        TimeDelta::seconds(0),
    )
    .is_err());
}

#[test]
fn rejects_a_negative_dwell() {
    assert!(AlertRule::new(
        "prod",
        "Backwards",
        MetricKind::CpuUtilization,
        Comparator::GreaterThan,
        number(0.9),
        TimeDelta::seconds(-1),
    )
    .is_err());
}

#[test]
fn accepts_the_maximum_dwell_and_rejects_a_second_past_it() {
    let with_dwell = |dwell| {
        AlertRule::new(
            "prod",
            "Patient",
            MetricKind::CpuUtilization,
            Comparator::GreaterThan,
            number(0.9),
            dwell,
        )
    };

    assert!(
        with_dwell(AlertRule::max_for_duration()).is_ok(),
        "the boundary itself is legal; the ceiling is a guard, not a preference"
    );
    assert!(matches!(
        with_dwell(TimeDelta::seconds(
            AlertRule::max_for_duration().num_seconds() + 1
        )),
        Err(CoreError::InvalidRule(_))
    ));

    // Legal as a span, fatal as an addend to a timestamp.
    assert!(matches!(
        with_dwell(TimeDelta::seconds(10_000_000_000_000)),
        Err(CoreError::InvalidRule(_))
    ));
}

#[test]
fn a_dwell_at_the_ceiling_cannot_overflow_a_realistic_breach_instant() {
    assert!(
        Timestamp::from_timestamp(
            1_760_000_000 + AlertRule::max_for_duration().num_seconds(),
            0
        )
        .is_some(),
        "the ceiling exists precisely so this addition is total"
    );
}

#[test]
fn an_empty_series_is_no_data_not_ok() {
    let rule = rule(0);
    let mut eval = evaluation(&rule);
    assert_eq!(
        eval.observe(&rule, &series(vec![]), at(0), fresh()),
        AlertState::NoData
    );
}

#[test]
fn a_zero_dwell_rule_fires_on_the_first_breach() {
    let rule = rule(0);
    let mut eval = evaluation(&rule);
    let state = eval.observe(&rule, &series(vec![point(at(0), 0.95)]), at(0), fresh());
    assert_eq!(state, AlertState::Firing { since: at(0) });
}

#[test]
fn a_breach_dwells_as_pending_before_it_fires() {
    let rule = rule(120);
    let mut eval = evaluation(&rule);

    let data = series(vec![point(at(0), 0.95)]);
    assert_eq!(
        eval.observe(&rule, &data, at(0), fresh()),
        AlertState::Pending { since: at(0) }
    );
    assert_eq!(
        eval.observe(&rule, &data, at(60), fresh()),
        AlertState::Pending { since: at(0) }
    );
    assert_eq!(
        eval.observe(&rule, &data, at(120), fresh()),
        AlertState::Firing { since: at(0) }
    );
}

#[test]
fn dwell_accumulates_across_polls_rather_than_restarting() {
    let rule = rule(120);
    let mut eval = evaluation(&rule);

    eval.observe(&rule, &series(vec![point(at(0), 0.95)]), at(0), fresh());
    // A newer breaching sample arrives; the breach start must stay at the original point.
    let state = eval.observe(
        &rule,
        &series(vec![point(at(130), 0.99)]),
        at(130),
        fresh(),
    );
    assert_eq!(state, AlertState::Firing { since: at(0) });
}

#[test]
fn recovery_clears_the_dwell_so_the_next_breach_starts_over() {
    let rule = rule(120);
    let mut eval = evaluation(&rule);

    eval.observe(&rule, &series(vec![point(at(0), 0.95)]), at(0), fresh());
    assert_eq!(
        eval.observe(&rule, &series(vec![point(at(60), 0.1)]), at(60), fresh()),
        AlertState::Clear
    );

    let state = eval.observe(
        &rule,
        &series(vec![point(at(120), 0.95)]),
        at(120),
        fresh(),
    );
    assert_eq!(
        state,
        AlertState::Pending { since: at(120) },
        "the earlier breach must not count towards this one"
    );
}

#[test]
fn a_disabled_rule_never_fires_and_clears_an_existing_breach() {
    let rule = rule(0);
    let mut eval = evaluation(&rule);
    eval.observe(&rule, &series(vec![point(at(0), 0.95)]), at(0), fresh());
    assert!(eval.state().is_firing());

    let disabled = rule.disabled();
    assert_eq!(
        eval.observe(&disabled, &series(vec![point(at(0), 0.95)]), at(0), fresh()),
        AlertState::Clear
    );
}

#[test]
fn a_rule_scoped_elsewhere_does_not_fire_on_this_host() {
    let rule = rule(0).with_selector(HostSelector::Host(HostId::new("db-1")));
    let mut eval = evaluation(&rule);
    assert_eq!(
        eval.observe(&rule, &series(vec![point(at(0), 0.95)]), at(0), fresh()),
        AlertState::Clear
    );
}

#[test]
fn evaluation_ignores_samples_from_after_the_evaluation_instant() {
    let rule = rule(0);
    let mut eval = evaluation(&rule);
    let data = series(vec![point(at(300), 0.99)]);
    assert_eq!(
        eval.observe(&rule, &data, at(0), fresh()),
        AlertState::NoData
    );
}

#[test]
fn a_sample_older_than_the_staleness_bound_is_no_data_not_a_breach() {
    let rule = rule(0);
    let mut eval = evaluation(&rule);
    let data = series(vec![point(at(0), 0.95)]);

    assert_eq!(
        eval.observe(&rule, &data, at(0), TimeDelta::seconds(150)),
        AlertState::Firing { since: at(0) }
    );
    // The agent goes quiet. The backend keeps returning that same last sample.
    assert_eq!(
        eval.observe(&rule, &data, at(600), TimeDelta::seconds(150)),
        AlertState::NoData,
        "a rule must not keep firing on a host nobody has heard from"
    );
}

#[test]
fn the_staleness_bound_is_inclusive() {
    let rule = rule(0);
    let mut eval = evaluation(&rule);
    let data = series(vec![point(at(0), 0.95)]);

    assert!(eval
        .observe(&rule, &data, at(150), TimeDelta::seconds(150))
        .is_firing());
    assert_eq!(
        eval.observe(&rule, &data, at(151), TimeDelta::seconds(150)),
        AlertState::NoData
    );
}

#[test]
fn a_stale_sample_clears_the_dwell_so_recovery_starts_over() {
    let rule = rule(120);
    let mut eval = evaluation(&rule);
    let bound = TimeDelta::seconds(150);

    eval.observe(&rule, &series(vec![point(at(0), 0.95)]), at(0), bound);
    eval.observe(&rule, &series(vec![point(at(0), 0.95)]), at(600), bound);
    assert_eq!(eval.state(), AlertState::NoData);

    // The agent comes back, still hot. The dwell must restart, not resume from at(0).
    let state = eval.observe(&rule, &series(vec![point(at(600), 0.95)]), at(600), bound);
    assert_eq!(state, AlertState::Pending { since: at(600) });
}

#[test]
fn describe_reads_as_a_sentence() {
    let rule = rule(300);
    let threshold = f64::from_bits(rule.threshold.bits);
    assert_eq!(
        rule.describe(format!("{threshold}").as_str()),
        "CPU > 0.9 for 300s"
    );
}

#[test]
fn a_number_that_is_none_breaches_nothing() {
    for comparator in [
        Comparator::GreaterThan,
        Comparator::GreaterThanOrEqual,
        Comparator::LessThan,
        Comparator::LessThanOrEqual,
    ] {
        assert!(!comparator.evaluate(number(f64::NAN), number(0.9)));
        assert!(!comparator.evaluate(number(0.9), number(f64::NAN)));
    }
}

#[test]
fn the_two_zeros_are_one_number() {
    assert!(Comparator::LessThanOrEqual.evaluate(number(0.0), number(-0.0)));
    assert!(!Comparator::LessThan.evaluate(number(-0.0), number(0.0)));
    assert!(Comparator::LessThan.evaluate(number(-1.0), number(-0.5)));
    assert!(Comparator::LessThan.evaluate(number(f64::NEG_INFINITY), number(-1e300)));
}

#[test]
fn every_comparator_has_its_symbol() {
    assert_eq!(Comparator::GreaterThan.symbol(), ">");
    assert_eq!(Comparator::GreaterThanOrEqual.symbol(), ">=");
    assert_eq!(Comparator::LessThan.symbol(), "<");
    assert_eq!(Comparator::LessThanOrEqual.symbol(), "<=");
}

#[test]
fn each_refused_rule_says_why() {
    let refused = |name: &str, threshold: f64, secs: i64| {
        match AlertRule::new(
            "prod",
            name,
            MetricKind::CpuUtilization,
            Comparator::GreaterThan,
            number(threshold),
            TimeDelta::seconds(secs),
        ) {
            Err(CoreError::InvalidRule(why)) => why,
            other => panic!("{other:?}"),
        }
    };
    assert_eq!(refused(" ", 0.9, 0), "name must not be empty");
    assert_eq!(
        refused("x", f64::NAN, 0),
        "threshold NaN must be finite"
    );
    assert_eq!(
        refused("x", f64::INFINITY, 0),
        "threshold inf must be finite"
    );
    assert_eq!(
        refused("x", f64::NEG_INFINITY, 0),
        "threshold -inf must be finite"
    );
    assert_eq!(
        refused("x", 0.9, -1),
        "for_duration must not be negative"
    );
    assert!(matches!(
        AlertRule::new(
            "a::b",
            "x",
            MetricKind::CpuUtilization,
            Comparator::GreaterThan,
            number(0.9),
            TimeDelta::seconds(0)
        ),
        Err(CoreError::InvalidUrn(_))
    ));
}

#[test]
fn a_dwell_lies_between_nothing_and_a_year() {
    assert_eq!(
        Dwell::new(TimeDelta::seconds(0)).map(|d| d.span()),
        Some(TimeDelta::seconds(0))
    );
    assert!(Dwell::new(TimeDelta::seconds(MAX_DWELL_SECS)).is_some());
    assert!(Dwell::new(TimeDelta::seconds(MAX_DWELL_SECS + 1)).is_none());
    assert!(Dwell::new(TimeDelta::seconds(-1)).is_none());
}

#[test]
fn a_rule_survives_its_wire_form() {
    let rule = rule(300).with_selector(HostSelector::Host(host()));
    let wire: AlertRuleWire = rule.to_wire();
    assert_eq!(wire.name, "CPU hot");
    assert_eq!(AlertRule::try_from(wire), Ok(rule));
}

#[test]
fn only_a_value_past_the_threshold_breaches() {
    let rule = rule(0);
    assert!(rule.breaches(number(0.95)));
    assert!(!rule.breaches(number(0.9)));
}

#[test]
fn a_dwell_past_the_ceiling_is_told_its_length() {
    let refused = AlertRule::new(
        "prod",
        "Patient",
        MetricKind::CpuUtilization,
        Comparator::GreaterThan,
        number(0.9),
        TimeDelta::seconds(31_536_001),
    );
    assert_eq!(
        refused,
        Err(CoreError::InvalidRule(
            "for_duration 31536001s exceeds the maximum dwell of 31536000s, past which \
             `since + for_duration` overflows the representable range of a timestamp"
                .to_owned()
        ))
    );
}

#[test]
fn a_state_knows_since_when_it_breaches() {
    assert_eq!(
        AlertState::Pending { since: at(5) }.breaching_since(),
        Some(at(5))
    );
    assert_eq!(
        AlertState::Firing { since: at(5) }.breaching_since(),
        Some(at(5))
    );
    assert_eq!(AlertState::Clear.breaching_since(), None);
    assert_eq!(AlertState::NoData.breaching_since(), None);
}

#[test]
fn a_zero_dwell_rule_fires_on_a_sample_in_a_leap_second() {
    let rule = rule(0);
    let mut evaluation = AlertEvaluation::new(rule.id().clone(), host());
    // A sample at 23:59:60.5, judged at the midnight half a second later.
    let sample = Timestamp::from_timestamp(86_399, 1_500_000_000).expect("a leap second");
    let now = Timestamp::from_timestamp(86_400, 0).expect("midnight");
    assert_eq!(
        evaluation.observe(
            &rule,
            &series(vec![point(sample, 0.95)]),
            now,
            TimeDelta::seconds(60)
        ),
        AlertState::Firing { since: sample }
    );
}
