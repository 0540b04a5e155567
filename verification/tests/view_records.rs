use pessimal::client::error::{FailureSource, PollFailure, PollFailureKind};
use pessimal::client::config::TuningWarning;
use pessimal::client::fold::AlertPhase;
use pessimal::client::view::{
    AlertEvidence, AlertView, CollectionHealth, FleetCounts, FleetView, Freshness,
    FreshnessInputs, HostView, MetricAvailability, MetricFacts, MetricView, Severity,
};
use pessimal::domain::alert::Comparator;
use pessimal::domain::host::{HostId, OsFamily};
use pessimal::domain::liveness::Liveness;
use pessimal::domain::metric::{InstrumentKind, MetricKind, MetricPoint, MetricUnit};
use pessimal::domain::urn::Urn;
use pessimal::ffi::config_records::{ComparatorRecord, MetricKindRecord, TuningWarningRecord};
use pessimal::ffi::convert::FfiError;
use pessimal::ffi::fold_records::PollFailureRecord;
use pessimal::ffi::view_records::{
    AlertEvidenceRecord, AlertPhaseRecord, AlertViewRecord, CollectionHealthRecord,
    FleetCountsRecord, FleetViewRecord, FreshnessInputsRecord, FreshnessRecord, HostViewRecord,
    LivenessRecord, MetricAvailabilityRecord, MetricFactsRecord, MetricPointRecord,
    MetricUnitRecord, MetricViewRecord, OsFamilyRecord, SeverityRecord,
};
use pessimal::number::Number;
use pessimal::text_map::TextMap;
use pessimal::time::{TimeDelta, Timestamp};

const PLACEHOLDER_HOST_ID: &str = "unknown-host";

fn at(secs: i64) -> Timestamp {
    Timestamp::from_timestamp(1_757_000_000 + secs, 0).expect("a valid fixture instant")
}

fn number(value: f64) -> Number {
    Number::from_bits(value.to_bits())
}

fn unauthorized() -> PollFailure {
    PollFailure {
        kind: PollFailureKind::Unauthorized,
        source: FailureSource::Roster,
        message: "not authorised for the telemetry backend".to_owned(),
        at: at(0),
    }
}

fn rule_urn() -> Urn {
    "pessimal::prod::client::alertrule::018f3c4e-0000-7000-8000-000000000001"
        .parse()
        .expect("a valid fixture URN")
}

#[test]
fn severity_round_trips() {
    for original in [
        Severity::Clear,
        Severity::Unknown,
        Severity::Warning,
        Severity::Critical,
    ] {
        let record = SeverityRecord::from(original);
        assert_eq!(original, Severity::from(record));
    }
    assert_ne!(
        SeverityRecord::Clear,
        SeverityRecord::Unknown,
        "a host nobody could judge must not colour as healthy"
    );
}

#[test]
fn metric_availability_round_trips() {
    for original in [
        MetricAvailability::Present,
        MetricAvailability::NotReported,
        MetricAvailability::Unsupported,
        MetricAvailability::Unavailable,
    ] {
        let record = MetricAvailabilityRecord::from(original);
        assert_eq!(original, MetricAvailability::from(record));
    }
    assert_ne!(
        MetricAvailabilityRecord::Unsupported,
        MetricAvailabilityRecord::NotReported,
        "a platform fact and a configuration gap are different sentences"
    );
}

#[test]
fn alert_phase_round_trips() {
    for original in [
        AlertPhase::Clear,
        AlertPhase::Pending,
        AlertPhase::Firing,
        AlertPhase::NoData,
    ] {
        let record = AlertPhaseRecord::from(original);
        assert_eq!(original, AlertPhase::from(record));
    }
}

#[test]
fn collection_health_round_trips() {
    for original in [
        CollectionHealth::Healthy,
        CollectionHealth::Failing {
            added: number(3.0),
            over: TimeDelta::seconds(120),
        },
        CollectionHealth::Unknown,
    ] {
        let record = CollectionHealthRecord::from(original);
        assert_eq!(
            original,
            CollectionHealth::try_from(record).expect("a representable span")
        );
    }
}

#[test]
fn alert_evidence_round_trips() {
    for original in [
        AlertEvidence::Fresh,
        AlertEvidence::Frozen { since: at(60) },
    ] {
        let record = AlertEvidenceRecord::from(original);
        assert_eq!(
            original,
            AlertEvidence::try_from(record).expect("a representable instant")
        );
    }
}

fn verdicts() -> [Freshness; 4] {
    [
        Freshness::Fresh { at: at(0) },
        Freshness::Idle {
            last_success: at(-60),
        },
        Freshness::Degraded {
            last_success: at(-90),
            consecutive_failures: 2,
            failure: Some(unauthorized()),
        },
        Freshness::Unusable {
            last_success: None,
            consecutive_failures: 7,
            failure: None,
        },
    ]
}

#[test]
fn freshness_round_trips() {
    for (original, again) in verdicts().into_iter().zip(verdicts()) {
        let record = FreshnessRecord::from(again);
        assert_eq!(
            original,
            Freshness::try_from(record).expect("a representable instant")
        );
    }
}

#[test]
fn metric_unit_round_trips() {
    for original in [
        MetricUnit::Ratio,
        MetricUnit::Bytes,
        MetricUnit::Seconds,
        MetricUnit::Count,
        MetricUnit::Load,
    ] {
        let record = MetricUnitRecord::from(original);
        assert_eq!(original, MetricUnit::from(record));
    }
    assert_ne!(
        MetricUnitRecord::Ratio,
        MetricUnitRecord::Load,
        "both report OTLP unit \"1\"; only the enum keeps a load average off a percent axis"
    );
}

#[test]
fn os_family_round_trips() {
    for original in [
        OsFamily::Linux,
        OsFamily::Darwin,
        OsFamily::Windows,
        OsFamily::Other,
    ] {
        let record = OsFamilyRecord::from(original);
        assert_eq!(original, OsFamily::from(record));
    }
}

#[test]
fn liveness_round_trips() {
    for original in [
        Liveness::Alive,
        Liveness::Stale,
        Liveness::Down,
        Liveness::Unknown,
    ] {
        let record = LivenessRecord::from(original);
        assert_eq!(original, Liveness::from(record));
    }
}

#[test]
fn the_reexported_domain_enums_round_trip() {
    for original in MetricKind::ALL {
        let record = MetricKindRecord::from(original);
        assert_eq!(original, MetricKind::from(record));
    }
    for original in [
        Comparator::GreaterThan,
        Comparator::GreaterThanOrEqual,
        Comparator::LessThan,
        Comparator::LessThanOrEqual,
    ] {
        let record = ComparatorRecord::from(original);
        assert_eq!(original, Comparator::from(record));
    }
}

fn metric_view() -> MetricView {
    let mut attributes = TextMap::new();
    attributes.insert("mount".to_owned(), "/".to_owned());
    attributes.insert("device".to_owned(), "disk1s1".to_owned());
    MetricView {
        id: "host-a|filesystem.utilization|device=disk1s1,mount=/".to_owned(),
        kind: MetricKind::FilesystemUtilization,
        unit: MetricUnit::Ratio,
        display_name: "Filesystem utilisation".to_owned(),
        label: Some("/".to_owned()),
        attributes,
        latest: Some(MetricPoint::new(at(30), number(0.82))),
        points: vec![
            MetricPoint::new(at(0), number(0.80)),
            MetricPoint::new(at(30), number(0.82)),
        ],
        availability: MetricAvailability::Unavailable,
        is_rate: false,
        expected_step: TimeDelta::seconds(30),
        resets: vec![at(15)],
        fetched_at: Some(at(-60)),
    }
}

#[test]
fn a_metric_view_crosses_as_millis_seconds_and_sorted_attributes() {
    let record = MetricViewRecord::from(metric_view());

    assert_eq!(record.expected_step_seconds, 30);
    assert_eq!(record.resets_millis, vec![at(15).timestamp_millis()]);
    assert_eq!(
        record.fetched_at_millis,
        Some(at(-60).timestamp_millis()),
        "a greyed tile shows when it was last fetched, not when the poll ran"
    );
    assert_eq!(
        record.latest,
        Some(MetricPointRecord {
            at_millis: at(30).timestamp_millis(),
            value: number(0.82),
        })
    );
    assert_eq!(record.points.len(), 2);
    assert_eq!(
        record
            .attributes
            .iter()
            .map(|attribute| attribute.key.as_str())
            .collect::<Vec<_>>(),
        vec!["device", "mount"],
        "key order is what keeps a list from animating rows that did not change"
    );
    assert_eq!(record.availability, MetricAvailabilityRecord::Unavailable);
    assert_eq!(record.unit, MetricUnitRecord::Ratio);
    assert_eq!(record.kind, MetricKindRecord::FilesystemUtilization);
    assert_eq!(record.label, Some("/".to_owned()));
}

fn host_view() -> HostView {
    HostView {
        id: HostId::from(PLACEHOLDER_HOST_ID),
        os: OsFamily::Windows,
        agent_version: Some("0.1.0".to_owned()),
        last_heartbeat: Some(at(-45)),
        liveness: Liveness::Stale,
        liveness_at: at(-30),
        severity: Severity::Warning,
        collection: CollectionHealth::Failing {
            added: number(4.0),
            over: TimeDelta::seconds(60),
        },
        metrics: vec![metric_view()],
        firing_alerts: 0,
        pending_alerts: 1,
        in_current_roster: false,
        id_is_placeholder: true,
    }
}

#[test]
fn a_host_view_keeps_its_frozen_verdict_and_its_placeholder_flag() {
    let record = HostViewRecord::from(host_view());

    assert_eq!(record.id, PLACEHOLDER_HOST_ID);
    assert!(
        record.id_is_placeholder,
        "several machines collide into this id and nothing above the flag can tell"
    );
    assert!(!record.in_current_roster);
    assert_eq!(record.liveness, LivenessRecord::Stale);
    assert_eq!(
        record.liveness_at_millis,
        at(-30).timestamp_millis(),
        "the verdict's instant is frozen; the app renders its age, it does not re-judge"
    );
    assert_eq!(
        record.collection,
        CollectionHealthRecord::Failing {
            added: number(4.0),
            over_seconds: 60,
        }
    );
    assert_eq!(record.os, OsFamilyRecord::Windows);
    assert_eq!(record.metrics, vec![MetricViewRecord::from(metric_view())]);
}

fn alert_view() -> AlertView {
    let rule_id = rule_urn();
    AlertView {
        id: format!("{}|host-a", rule_id.to_string()),
        rule_id,
        rule_name: "CPU hot".to_owned(),
        description: "CPU utilisation > 0.9 for 5m".to_owned(),
        host: HostId::from("host-a"),
        metric: MetricKind::CpuUtilization,
        comparator: Comparator::GreaterThan,
        threshold: number(f64::NAN),
        phase: AlertPhase::NoData,
        severity: Severity::Unknown,
        breaching_since: None,
        fires_at: None,
        latest_value: None,
        series_label: None,
        evidence: AlertEvidence::Frozen { since: at(-120) },
        is_rate: false,
        invalid_reason: Some("threshold is not a number".to_owned()),
    }
}

#[test]
fn an_alert_view_carries_its_urn_as_a_string_and_its_broken_reason() {
    let record = AlertViewRecord::from(alert_view());

    assert_eq!(record.rule_id, rule_urn().to_string());
    assert_eq!(record.host, "host-a");
    assert_eq!(record.metric, MetricKindRecord::CpuUtilization);
    assert_eq!(record.comparator, ComparatorRecord::GreaterThan);
    assert_eq!(
        record.evidence,
        AlertEvidenceRecord::Frozen {
            since_millis: at(-120).timestamp_millis()
        },
        "a held phase must be able to say since when"
    );
    assert!(record.threshold.is_nan(), "a NaN threshold crosses as NaN");
    assert_eq!(
        record.invalid_reason.as_deref(),
        Some("threshold is not a number"),
        "a rule that can never fire is shown badged, never hidden"
    );
}

fn fleet_view() -> FleetView {
    FleetView {
        backend_name: "signoz".to_owned(),
        as_of: Some(at(0)),
        freshness: FreshnessInputs {
            as_of: Some(at(0)),
            last_clean_at: Some(at(-30)),
            last_roster_at: Some(at(0)),
            consecutive_failures: 1,
            last_failure: Some(unauthorized()),
            polled_this_session: true,
            tolerance: TimeDelta::seconds(90),
            budget: TimeDelta::seconds(150),
        },
        severity: Severity::Critical,
        hosts: Vec::new(),
        alerts: Vec::new(),
        counts: FleetCounts {
            hosts: 3,
            alive: 1,
            stale: 1,
            down: 1,
            unknown: 0,
            firing_alerts: 2,
            pending_alerts: 0,
        },
        warnings: Vec::new(),
    }
}

#[test]
fn a_fleet_view_carries_its_freshness_inputs_rather_than_a_frozen_verdict() {
    let record = FleetViewRecord::from(fleet_view());

    assert_eq!(record.as_of_millis, Some(at(0).timestamp_millis()));
    assert_eq!(record.severity, SeverityRecord::Critical);
    assert_eq!(
        record.freshness,
        FreshnessInputsRecord {
            as_of_millis: Some(at(0).timestamp_millis()),
            last_clean_at_millis: Some(at(-30).timestamp_millis()),
            last_roster_at_millis: Some(at(0).timestamp_millis()),
            consecutive_failures: 1,
            last_failure: Some(PollFailureRecord::from(unauthorized())),
            polled_this_session: true,
            tolerance_seconds: 90,
            budget_seconds: 150,
        },
        "the banner is recomputed from these per tick; a verdict field would stop moving"
    );
    assert_eq!(
        record.counts,
        FleetCountsRecord {
            hosts: 3,
            alive: 1,
            stale: 1,
            down: 1,
            unknown: 0,
            firing_alerts: 2,
            pending_alerts: 0,
        }
    );
}

#[test]
fn a_fleet_view_keeps_its_lists_in_order() {
    let mut view = fleet_view();
    view.hosts = vec![host_view()];
    view.alerts = vec![alert_view(), alert_view()];
    view.warnings = vec![TuningWarning::SpikeCanFire {
        rule_id: "urn-1".to_owned(),
        rule_name: "spiky".to_owned(),
    }];
    let record = FleetViewRecord::from(view);
    assert_eq!(record.backend_name, "signoz");
    assert_eq!(record.hosts, vec![HostViewRecord::from(host_view())]);
    assert_eq!(record.alerts.len(), 2);
    assert_eq!(
        record.warnings,
        vec![TuningWarningRecord::SpikeCanFire {
            rule_id: "urn-1".to_owned(),
            rule_name: "spiky".to_owned(),
        }]
    );
}

#[test]
fn the_freshness_verdict_carries_the_failure_that_routes_the_settings_button() {
    let record = FreshnessRecord::from(Freshness::Unusable {
        last_success: Some(at(-21_600)),
        consecutive_failures: 1,
        failure: Some(unauthorized()),
    });

    let FreshnessRecord::Unusable {
        last_success_millis,
        consecutive_failures,
        failure,
    } = record
    else {
        panic!("an unusable verdict must mirror as Unusable");
    };

    assert_eq!(last_success_millis, Some(at(-21_600).timestamp_millis()));
    assert_eq!(consecutive_failures, 1);
    let failure = failure.expect("the failure must reach the banner");
    assert!(
        failure.is_actionable,
        "only an actionable failure offers Open Settings, and core decides which"
    );
}

#[test]
fn metric_facts_cross_for_every_modelled_metric() {
    let facts: Vec<MetricFactsRecord> = MetricKind::ALL
        .into_iter()
        .map(|kind| MetricFacts {
            kind,
            display_name: kind.display_name().to_owned(),
            unit: kind.unit(),
            is_rate: kind.instrument_kind() == InstrumentKind::Counter,
            alertable: kind != MetricKind::AgentHeartbeat,
        })
        .map(MetricFactsRecord::from)
        .collect();

    assert_eq!(facts.len(), MetricKind::ALL.len());

    let heartbeat = facts
        .iter()
        .find(|fact| fact.kind == MetricKindRecord::AgentHeartbeat)
        .expect("the heartbeat is modelled");
    assert!(
        !heartbeat.alertable,
        "a silent host is liveness's business, never an alert's"
    );

    let network = facts
        .iter()
        .find(|fact| fact.kind == MetricKindRecord::NetworkIo)
        .expect("network io is modelled");
    assert!(network.is_rate);
    assert_eq!(network.unit, MetricUnitRecord::Bytes);
}

#[test]
fn the_first_instant_that_is_none_is_the_one_named() {
    let record = FreshnessRecord::Degraded {
        last_success_millis: i64::MAX,
        consecutive_failures: 1,
        failure: Some(PollFailureRecord {
            at_millis: i64::MIN,
            ..PollFailureRecord::from(unauthorized())
        }),
    };
    assert_eq!(
        Freshness::try_from(record),
        Err(FfiError::Internal {
            message: "9223372036854775807 ms since the epoch is not a representable instant"
                .to_owned()
        })
    );
    let record = FreshnessRecord::Unusable {
        last_success_millis: None,
        consecutive_failures: 1,
        failure: Some(PollFailureRecord {
            at_millis: i64::MIN,
            ..PollFailureRecord::from(unauthorized())
        }),
    };
    assert_eq!(
        Freshness::try_from(record),
        Err(FfiError::Internal {
            message: "-9223372036854775808 ms since the epoch is not a representable instant"
                .to_owned()
        })
    );
    assert!(AlertEvidence::try_from(AlertEvidenceRecord::Frozen {
        since_millis: i64::MAX
    })
    .is_err());
    assert!(CollectionHealth::try_from(CollectionHealthRecord::Failing {
        added: number(1.0),
        over_seconds: i64::MAX
    })
    .is_err());
}
