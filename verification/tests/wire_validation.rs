//! A value read from outside is held to the same invariants the constructors enforce.

use pessimal::domain::alert::{AlertRule, AlertRuleWire, Comparator};
use pessimal::domain::host::HostSelector;
use pessimal::domain::liveness::LivenessPolicy;
use pessimal::domain::metric::{MetricKind, MetricPoint, MetricSeries, TimeRange};
use pessimal::domain::urn::Urn;
use pessimal::number::Number;
use pessimal::text_map::TextMap;
use pessimal::time::{TimeDelta, Timestamp};

fn at(offset: i64) -> Timestamp {
    Timestamp::from_timestamp(1_760_000_000 + offset, 0).expect("valid timestamp")
}

fn number(value: f64) -> Number {
    Number::from_bits(value.to_bits())
}

fn point(at: Timestamp, value: f64) -> MetricPoint {
    MetricPoint::new(at, number(value))
}

#[test]
fn a_valid_policy_still_round_trips() {
    let policy = LivenessPolicy::new(TimeDelta::seconds(30), 3, 5).expect("valid");
    let restored = LivenessPolicy::try_from(policy.to_wire()).expect("round trip");
    assert_eq!(restored, policy);
}

#[test]
fn a_policy_whose_thresholds_are_inverted_is_refused() {
    let mut v = LivenessPolicy::new(TimeDelta::seconds(30), 3, 5)
        .expect("valid")
        .to_wire();
    v.stale_after_intervals = 9;
    v.down_after_intervals = 1;

    // Accepting this gives stale=270s and down=30s: a host is called down before it is called
    // stale, inverting the whole liveness model with nothing to report it.
    assert!(LivenessPolicy::try_from(v).is_err());
}

#[test]
fn a_policy_with_a_zero_interval_is_refused() {
    let mut v = LivenessPolicy::new(TimeDelta::seconds(30), 3, 5)
        .expect("valid")
        .to_wire();
    v.heartbeat_interval = TimeDelta::seconds(0);
    assert!(LivenessPolicy::try_from(v).is_err());
}

#[test]
fn a_time_range_that_ends_before_it_starts_is_refused() {
    let mut v = TimeRange::new(at(0), at(60)).expect("valid").to_wire();
    let (start, end) = (v.start, v.end);
    v.start = end;
    v.end = start;
    assert!(TimeRange::try_from(v).is_err());
}

#[test]
fn restored_series_points_are_sorted_like_constructed_ones() {
    let series = MetricSeries::new(
        "web-1".into(),
        MetricKind::CpuUtilization,
        vec![point(at(0), 0.1), point(at(120), 0.9)],
    );
    let mut v = series.to_wire();
    v.points.reverse();

    let restored = MetricSeries::from_wire(v);
    assert_eq!(
        f64::from_bits(restored.latest().expect("has points").value.bits),
        0.9,
        "latest() reads the last element, so an unsorted restore returns the wrong sample silently"
    );
    assert_eq!(restored, series);
}

#[test]
fn restored_series_attributes_survive() {
    let mut attributes = TextMap::new();
    attributes.insert(
        "system.filesystem.mountpoint".to_owned(),
        "/data".to_owned(),
    );
    let series = MetricSeries::new(
        "web-1".into(),
        MetricKind::FilesystemUtilization,
        vec![point(at(0), 0.5)],
    )
    .with_attributes(attributes.clone());

    let restored = MetricSeries::from_wire(series.to_wire());
    assert_eq!(restored.attributes, attributes);
}

#[test]
fn a_urn_with_an_empty_segment_is_refused() {
    let mut v = Urn::new("prod", "alerts", "rule").expect("valid").to_wire();
    v.environment = "".to_owned();

    // `pessimal::::alerts::rule::<uuid>` does not parse back from its own rendering.
    assert!(Urn::try_from(v).is_err());
}

#[test]
fn a_urn_carrying_the_separator_is_refused() {
    let mut v = Urn::new("prod", "alerts", "rule").expect("valid").to_wire();
    v.service = "a::b".to_owned();
    assert!(Urn::try_from(v).is_err());
}

fn a_rule() -> AlertRule {
    AlertRule::new(
        "prod",
        "CPU hot",
        MetricKind::CpuUtilization,
        Comparator::GreaterThan,
        number(0.9),
        TimeDelta::seconds(300),
    )
    .expect("valid")
}

fn wire() -> AlertRuleWire {
    a_rule().to_wire()
}

#[test]
fn a_rule_with_an_empty_name_is_refused() {
    let mut v = wire();
    v.name = "   ".to_owned();
    assert!(AlertRule::try_from(v).is_err());
}

#[test]
fn a_rule_with_a_negative_dwell_is_refused() {
    let mut v = wire();
    v.for_duration = TimeDelta::seconds(-5);
    assert!(AlertRule::try_from(v).is_err());
}

#[test]
fn a_rule_whose_dwell_outruns_the_calendar_is_refused() {
    // A span's own range is about a thousand times what a timestamp can hold. A dwell from that
    // band would overflow the first time anything computes `since + for_duration`.
    let mut v = wire();
    v.for_duration = TimeDelta::seconds(10_000_000_000_000_i64);
    assert!(AlertRule::try_from(v).is_err());

    let mut boundary = wire();
    boundary.for_duration = TimeDelta::seconds(AlertRule::max_for_duration().num_seconds());
    assert!(
        AlertRule::try_from(boundary).is_ok(),
        "the ceiling itself must survive a round trip, or the bound rejects rules we mint"
    );
}

#[test]
fn a_time_range_whose_window_predates_representable_time_is_refused() {
    assert!(TimeRange::ending_at(at(0), TimeDelta::seconds(10_000_000_000_000)).is_err());
}

#[test]
fn a_restored_rule_keeps_its_identity_and_its_settings() {
    let rule = a_rule()
        .with_selector(HostSelector::Host("web-1".into()))
        .disabled();
    let restored = AlertRule::try_from(rule.to_wire()).expect("round trip");

    assert_eq!(
        restored.id(),
        rule.id(),
        "a fresh id would orphan every alert evaluation keyed to this rule"
    );
    assert_eq!(restored.selector, rule.selector);
    assert!(!restored.enabled);
    assert_eq!(restored, rule);
}
