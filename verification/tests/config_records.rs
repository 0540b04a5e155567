use pessimal::client::config::{draft_rule, validate_rule, FleetConfig, PollTuning, TuningWarning};
use pessimal::client::error::ClientError;
use pessimal::domain::alert::{AlertRule, Comparator};
use pessimal::domain::host::{HostId, HostSelector};
use pessimal::domain::liveness::LivenessPolicy;
use pessimal::domain::metric::MetricKind;
use pessimal::ffi::config_records::{
    draft_alert_rule, environment_refusal, fleet_config_audit, intervals_in, poll_tuning_defaults,
    poll_tuning_from_liveness, poll_tuning_validated, rules_from_records, rules_to_records, validate_alert_rule, warnings_of,
    AlertRuleRecord, ComparatorRecord, FleetConfigRecord, HostSelectorRecord,
    LivenessPolicyRecord, MetricKindRecord, PollTuningRecord, TuningWarningRecord,
};
use pessimal::ffi::convert::FfiError;
use pessimal::number::Number;
use pessimal::time::TimeDelta;

fn number(value: f64) -> Number {
    Number::from_bits(value.to_bits())
}

/// A rule whose dwell comfortably exceeds the default evidence horizon (330s: a 150s staleness
/// bound plus the three-minute lag allowance), so it contributes no `SpikeCanFire` noise to a
/// test that is measuring something else.
fn quiet_rule(name: &str, metric: MetricKind) -> AlertRule {
    draft_rule(
        "prod",
        name,
        metric,
        Comparator::GreaterThan,
        number(0.9),
        TimeDelta::seconds(600),
        HostSelector::All,
    )
    .expect("a valid rule")
}

fn config() -> FleetConfig {
    FleetConfig {
        environment: "prod".to_owned(),
        tuning: PollTuning::default(),
        rules: Vec::new(),
        overview_metrics: vec![MetricKind::CpuUtilization],
        detail_metrics: Vec::new(),
        focus: None,
    }
}

/// The default tuning as a record, for tests that then break one field.
fn tuning_record() -> PollTuningRecord {
    poll_tuning_defaults()
}

fn record(environment: &str) -> FleetConfigRecord {
    FleetConfigRecord {
        environment: environment.to_owned(),
        tuning: tuning_record(),
        rules_json: "[]".to_owned(),
        overview_metrics: vec![MetricKindRecord::CpuUtilization],
        detail_metrics: Vec::new(),
        focus: None,
    }
}

#[test]
fn every_metric_kind_round_trips_through_its_record() {
    for kind in MetricKind::ALL {
        let record = MetricKindRecord::from(kind);
        assert_eq!(MetricKind::from(record), kind, "{kind:?} lost its identity");
    }
}

#[test]
fn every_comparator_round_trips_through_its_record() {
    for comparator in [
        Comparator::GreaterThan,
        Comparator::GreaterThanOrEqual,
        Comparator::LessThan,
        Comparator::LessThanOrEqual,
    ] {
        let record = ComparatorRecord::from(comparator);
        assert_eq!(Comparator::from(record), comparator);
    }
}

#[test]
fn every_host_selector_shape_round_trips_through_its_record() {
    for selector in [
        HostSelector::All,
        HostSelector::Host(HostId::new("web-1")),
        HostSelector::AnyOf(vec![HostId::new("web-1"), HostId::new("db-1")]),
        // The shape `audit` warns about: it must survive the boundary, not be rejected by it.
        HostSelector::AnyOf(vec![]),
    ] {
        let record = HostSelectorRecord::from(selector.clone());
        assert_eq!(HostSelector::from(record), selector);
    }
}

#[test]
fn every_tuning_warning_round_trips_through_its_record() {
    let warnings = || {
        [
            TuningWarning::SpikeCanFire {
                rule_id: "urn-1".to_owned(),
                rule_name: "spiky".to_owned(),
            },
            TuningWarning::CounterThresholdIsRate {
                rule_id: "urn-2".to_owned(),
                metric: MetricKind::NetworkIo,
            },
            TuningWarning::SelectorMatchesNothing {
                rule_id: "urn-3".to_owned(),
                rule_name: "nobody".to_owned(),
            },
        ]
    };
    for (warning, again) in warnings().into_iter().zip(warnings()) {
        let record = TuningWarningRecord::from(again);
        assert_eq!(TuningWarning::from(record), warning);
    }
}

#[test]
fn an_alert_rule_round_trips_through_its_record_with_its_id_intact() {
    let rule = draft_rule(
        "prod",
        "cpu hot",
        MetricKind::CpuUtilization,
        Comparator::GreaterThanOrEqual,
        number(0.85),
        TimeDelta::seconds(180),
        HostSelector::AnyOf(vec![HostId::new("web-1"), HostId::new("web-2")]),
    )
    .expect("a valid rule")
    .disabled();

    let record = AlertRuleRecord::from(&rule);
    let restored = AlertRule::try_from(record).expect("the record must rebuild its rule");

    assert_eq!(restored.id(), rule.id(), "the id must not be re-minted");
    assert_eq!(restored, rule);
}

#[test]
fn a_rule_with_a_zero_dwell_and_the_default_selector_round_trips() {
    let rule = draft_rule(
        "prod",
        "load spike",
        MetricKind::LoadAverage1m,
        Comparator::LessThan,
        number(0.0),
        TimeDelta::seconds(0),
        HostSelector::All,
    )
    .expect("a valid rule");

    let restored = AlertRule::try_from(AlertRuleRecord::from(&rule)).expect("rebuilt");

    assert_eq!(restored, rule);
}

#[test]
fn the_default_poll_tuning_round_trips_through_its_record() {
    let tuning = PollTuning::default();

    let restored = PollTuning::try_from(PollTuningRecord::from(tuning)).expect("rebuilt");

    assert_eq!(restored, tuning);
}

/// Non-default multipliers, because the record recovers them by dividing the thresholds that the
/// policy exposes; a policy whose multipliers are the default ones could pass by accident.
#[test]
fn a_custom_liveness_policy_round_trips_through_its_record() {
    let policy = LivenessPolicy::new(TimeDelta::seconds(45), 4, 9).expect("a valid policy");

    let record = LivenessPolicyRecord::from(policy);

    assert_eq!(record.heartbeat_interval_seconds, 45);
    assert_eq!(record.stale_after_intervals, 4);
    assert_eq!(record.down_after_intervals, 9);
    assert_eq!(LivenessPolicy::try_from(record).expect("rebuilt"), policy);
}

#[test]
fn a_tuning_over_a_custom_policy_round_trips_through_the_validating_export() {
    let policy = LivenessPolicy::new(TimeDelta::seconds(60), 3, 6).expect("a valid policy");
    let tuning = PollTuning {
        liveness: policy,
        poll_interval: TimeDelta::seconds(60),
        metric_step: TimeDelta::seconds(60),
        chart_window: TimeDelta::seconds(2 * 3_600),
        max_staleness: TimeDelta::seconds(300),
        backend_lag_allowance: TimeDelta::seconds(180),
        forget_host_after: TimeDelta::seconds(12 * 3_600),
        max_retained_hosts: 64,
    };

    let read = PollTuning::try_from(PollTuningRecord::from(tuning)).expect("read");
    let record = poll_tuning_validated(read, Ok(())).expect("accepted");

    assert_eq!(PollTuning::try_from(record).expect("rebuilt"), tuning);
}

#[test]
fn a_fleet_config_round_trips_through_its_record() {
    let rules = || {
        vec![
            quiet_rule("cpu", MetricKind::CpuUtilization),
            quiet_rule("memory", MetricKind::MemoryUtilization),
        ]
    };
    let before = FleetConfig {
        rules: rules(),
        overview_metrics: vec![MetricKind::CpuUtilization],
        detail_metrics: vec![MetricKind::MemoryUsage, MetricKind::SystemUptime],
        focus: Some(HostId::new("web-1")),
        ..config()
    };
    let carried = rules_to_records(&before.rules);

    let record = FleetConfigRecord::from_config(before, "[..]".to_owned());
    assert_eq!(record.rules_json, "[..]");
    let tuning = PollTuning::try_from(record.tuning);
    let restored = record
        .into_config(tuning, rules_from_records(&carried))
        .expect("rebuilt");

    assert_eq!(restored.environment, "prod");
    assert_eq!(restored.tuning, PollTuning::default());
    assert_eq!(rules_to_records(&restored.rules), carried);
    assert_eq!(restored.overview_metrics, vec![MetricKind::CpuUtilization]);
    assert_eq!(
        restored.detail_metrics,
        vec![MetricKind::MemoryUsage, MetricKind::SystemUptime]
    );
    assert_eq!(restored.focus, Some(HostId::new("web-1")));
}

#[test]
fn an_environment_with_urn_separators_is_an_invalid_config() {
    let error = record("prod::eu")
        .into_config(Ok(PollTuning::default()), Ok(Vec::new()))
        .expect_err("it must be refused");

    assert!(
        matches!(error, FfiError::InvalidConfig { .. }),
        "expected InvalidConfig, got {error:?}"
    );
}

/// Whether the eight values of a tuning go together is judged outside: a refusal comes back as
/// a refused tuning, with its message.
#[test]
fn a_max_staleness_below_three_metric_steps_is_invalid_tuning() {
    let record = PollTuningRecord {
        max_staleness_seconds: 60,
        ..tuning_record()
    };
    let read = PollTuning::try_from(record).expect("eight readable numbers");

    let error = poll_tuning_validated(
        read,
        Err(ClientError::InvalidTuning("max_staleness".to_owned())),
    )
    .expect_err("it must be refused");

    assert_eq!(
        error,
        FfiError::InvalidTuning {
            message: "max_staleness".to_owned()
        }
    );
}

/// A liveness defect on the polling screen must arrive as a tuning failure, not as the
/// alert-rule banner that the domain's own error would otherwise produce.
#[test]
fn inverted_liveness_multipliers_are_invalid_tuning() {
    let record = PollTuningRecord {
        liveness: LivenessPolicyRecord {
            heartbeat_interval_seconds: 30,
            stale_after_intervals: 9,
            down_after_intervals: 2,
        },
        ..tuning_record()
    };

    let error = PollTuning::try_from(record).expect_err("it must be refused");

    assert!(
        matches!(error, FfiError::InvalidTuning { .. }),
        "expected InvalidTuning, got {error:?}"
    );
}

#[test]
fn a_zero_heartbeat_interval_is_invalid_tuning() {
    let record = LivenessPolicyRecord {
        heartbeat_interval_seconds: 0,
        stale_after_intervals: 3,
        down_after_intervals: 5,
    };

    let error = poll_tuning_from_liveness(record).expect_err("it must be refused");

    assert!(
        matches!(error, FfiError::InvalidTuning { .. }),
        "expected InvalidTuning, got {error:?}"
    );
}

#[test]
fn the_liveness_preset_matches_cores_own() {
    let policy = LivenessPolicy::new(TimeDelta::seconds(20), 3, 7).expect("a valid policy");

    let record = poll_tuning_from_liveness(LivenessPolicyRecord::from(policy))
        .expect("the preset must be valid");

    assert_eq!(
        PollTuning::try_from(record).expect("rebuilt"),
        PollTuning::from_liveness(policy)
    );
}

#[test]
fn malformed_rules_json_is_an_invalid_rule() {
    let refused = FfiError::InvalidRule {
        message: "expected value at line 1 column 1".to_owned(),
    };
    let error = FleetConfigRecord {
        rules_json: "not json".to_owned(),
        ..record("prod")
    }
    .into_config(Ok(PollTuning::default()), Err(refused))
    .expect_err("the decode must refuse it");

    assert!(
        matches!(error, FfiError::InvalidRule { .. }),
        "expected InvalidRule, got {error:?}"
    );
}

#[test]
fn a_record_with_an_empty_name_is_refused_by_cores_wire_type() {
    let rule = quiet_rule("cpu", MetricKind::CpuUtilization);
    let record = AlertRuleRecord {
        name: String::new(),
        ..AlertRuleRecord::from(&rule)
    };

    let error = AlertRule::try_from(record).expect_err("it must be refused");

    assert!(
        matches!(error, FfiError::InvalidRule { .. }),
        "expected InvalidRule, got {error:?}"
    );
}

#[test]
fn a_non_finite_threshold_is_refused_as_an_invalid_rule() {
    let rule = quiet_rule("cpu", MetricKind::CpuUtilization);

    for threshold in [f64::NAN, f64::INFINITY, f64::NEG_INFINITY] {
        let record = AlertRuleRecord {
            threshold: number(threshold),
            ..AlertRuleRecord::from(&rule)
        };

        let error = AlertRule::try_from(record).expect_err("it must be refused");

        assert!(
            matches!(error, FfiError::InvalidRule { .. }),
            "expected InvalidRule for {threshold}, got {error:?}"
        );
    }
}

#[test]
fn a_record_with_an_unparseable_id_is_an_invalid_urn() {
    let rule = quiet_rule("cpu", MetricKind::CpuUtilization);
    let record = AlertRuleRecord {
        id: "not-a-urn".to_owned(),
        ..AlertRuleRecord::from(&rule)
    };

    let error = AlertRule::try_from(record).expect_err("the URN parse must refuse it");

    assert!(
        matches!(error, FfiError::InvalidUrn { .. }),
        "expected InvalidUrn, got {error:?}"
    );
}

#[test]
fn drafting_refuses_a_non_alertable_metric() {
    let error = draft_alert_rule(
        "prod".to_owned(),
        "heartbeat".to_owned(),
        MetricKindRecord::AgentHeartbeat,
        ComparatorRecord::GreaterThan,
        number(1.0),
        60,
        HostSelectorRecord::All,
    )
    .expect_err("a silent host is liveness's business");

    assert!(
        matches!(error, FfiError::InvalidRule { .. }),
        "expected InvalidRule, got {error:?}"
    );
}

#[test]
fn drafting_produces_a_record_that_rebuilds_to_the_same_rule() {
    let record = draft_alert_rule(
        "prod".to_owned(),
        "disk full".to_owned(),
        MetricKindRecord::FilesystemUtilization,
        ComparatorRecord::GreaterThan,
        number(0.95),
        600,
        HostSelectorRecord::Host {
            host_id: "db-1".to_owned(),
        },
    )
    .expect("a valid rule");

    let rule = AlertRule::try_from(record.clone()).expect("rebuilt");

    assert_eq!(AlertRuleRecord::from(&rule), record);
    assert_eq!(rule.name, "disk full");
    assert_eq!(rule.for_duration(), TimeDelta::seconds(600));
    assert_eq!(rule.selector, HostSelector::Host(HostId::new("db-1")));
}

/// The strict half refuses an empty `AnyOf`, the carriage half preserves it, because a config
/// already on disk must still load.
#[test]
fn an_empty_any_of_is_refused_by_validation_and_preserved_by_the_carriage() {
    let rule = quiet_rule("nobody", MetricKind::CpuUtilization)
        .with_selector(HostSelector::AnyOf(vec![]));
    let record = AlertRuleRecord::from(&rule);

    let error = validate_alert_rule(record.clone()).expect_err("validation must refuse it");
    assert!(
        matches!(error, FfiError::InvalidRule { .. }),
        "expected InvalidRule, got {error:?}"
    );

    let rules = rules_from_records(&vec![record.clone()]).expect("the carriage must accept it");
    assert_eq!(rules_to_records(&rules), vec![record]);
}

#[test]
fn validation_accepts_a_rule_the_client_core_drafted() {
    let record = AlertRuleRecord::from(&quiet_rule("cpu", MetricKind::CpuUtilization));

    validate_alert_rule(record).expect("a drafted rule must survive its own validator");
}

#[test]
fn a_rule_set_round_trips_in_order_with_its_ids() {
    let rules = [
        quiet_rule("cpu", MetricKind::CpuUtilization),
        quiet_rule("memory", MetricKind::MemoryUtilization),
        quiet_rule("disk", MetricKind::FilesystemUtilization),
    ];
    let records: Vec<AlertRuleRecord> = rules.iter().map(AlertRuleRecord::from).collect();

    let carried = rules_from_records(&records).expect("read");

    assert_eq!(rules_to_records(&carried), records);
}

#[test]
fn the_first_rule_that_cannot_be_rebuilt_decides_for_the_set() {
    let rule = quiet_rule("cpu", MetricKind::CpuUtilization);
    let records = vec![
        AlertRuleRecord::from(&rule),
        AlertRuleRecord {
            id: "not-a-urn".to_owned(),
            ..AlertRuleRecord::from(&rule)
        },
        AlertRuleRecord {
            name: String::new(),
            ..AlertRuleRecord::from(&rule)
        },
    ];
    assert!(matches!(
        rules_from_records(&records),
        Err(FfiError::InvalidUrn { .. })
    ));
}

fn questionable() -> FleetConfig {
    FleetConfig {
        rules: vec![
            // Dwell under the default 330s evidence horizon: one old sample fires it.
            draft_rule(
                "prod",
                "spiky",
                MetricKind::CpuUtilization,
                Comparator::GreaterThan,
                number(0.9),
                TimeDelta::seconds(30),
                HostSelector::All,
            )
            .expect("a valid rule"),
            // A counter, whose threshold is compared against a rate.
            quiet_rule("net", MetricKind::NetworkIo),
        ],
        ..config()
    }
}

#[test]
fn the_audit_is_the_client_cores_in_cores_order() {
    let config = questionable();
    let expected: Vec<TuningWarningRecord> = config
        .audit()
        .into_iter()
        .map(TuningWarningRecord::from)
        .collect();
    assert_eq!(warnings_of(&config), expected);

    let warnings = fleet_config_audit(Ok(config)).expect("an auditable config");

    assert_eq!(warnings, expected);
    assert!(matches!(
        warnings.first(),
        Some(TuningWarningRecord::SpikeCanFire { .. })
    ));
    assert!(matches!(
        warnings.get(1),
        Some(TuningWarningRecord::CounterThresholdIsRate {
            metric: MetricKindRecord::NetworkIo,
            ..
        })
    ));
    assert_eq!(warnings.len(), 2);
}

/// Advice about a configuration that would be refused is advice nobody can act on, so the audit
/// reports the refusal instead.
#[test]
fn an_audit_of_an_invalid_config_fails_rather_than_advising() {
    let refused = || FfiError::InvalidTuning {
        message: "max_retained_hosts".to_owned(),
    };
    let config = record("prod").into_config(Err(refused()), Ok(Vec::new()));

    let error = fleet_config_audit(config).expect_err("it must be refused");

    assert_eq!(error, refused());
}

#[test]
fn a_dwell_at_the_evidence_horizon_is_no_spike() {
    let with_dwell = |seconds: i64| {
        let config = FleetConfig {
            rules: vec![draft_rule(
                "prod",
                "cpu",
                MetricKind::CpuUtilization,
                Comparator::GreaterThan,
                number(0.9),
                TimeDelta::seconds(seconds),
                HostSelector::All,
            )
            .expect("a valid rule")],
            ..config()
        };
        config.audit().len()
    };
    assert_eq!(with_dwell(329), 1);
    assert_eq!(with_dwell(330), 0);
}

#[test]
fn a_rule_can_draw_every_warning_at_once() {
    let config = FleetConfig {
        rules: vec![AlertRule::new(
            "prod",
            "net",
            MetricKind::NetworkIo,
            Comparator::GreaterThan,
            number(0.9),
            TimeDelta::seconds(0),
        )
        .expect("a valid rule")
        .with_selector(HostSelector::AnyOf(vec![]))],
        ..config()
    };
    let rule_id = config.rules[0].id().to_string();
    assert_eq!(
        config.audit(),
        vec![
            TuningWarning::SpikeCanFire {
                rule_id: rule_id.clone(),
                rule_name: "net".to_owned()
            },
            TuningWarning::CounterThresholdIsRate {
                rule_id: rule_id.clone(),
                metric: MetricKind::NetworkIo
            },
            TuningWarning::SelectorMatchesNothing {
                rule_id,
                rule_name: "net".to_owned()
            },
        ]
    );
    assert!(matches!(
        validate_rule(&config.rules[0]),
        Err(ClientError::InvalidRule(_))
    ));
}

#[test]
fn the_defaults_are_a_half_minute_beat_and_an_hour_of_chart() {
    assert_eq!(
        poll_tuning_defaults(),
        PollTuningRecord {
            liveness: LivenessPolicyRecord {
                heartbeat_interval_seconds: 30,
                stale_after_intervals: 3,
                down_after_intervals: 5,
            },
            poll_interval_seconds: 30,
            metric_step_seconds: 30,
            chart_window_seconds: 3_600,
            max_staleness_seconds: 150,
            backend_lag_allowance_seconds: 180,
            forget_host_after_seconds: 86_400,
            max_retained_hosts: 256,
        }
    );
}

#[test]
fn a_policy_that_cannot_be_divided_back_is_carried_as_zero() {
    let sub_second =
        LivenessPolicy::new(TimeDelta::milliseconds(500), 3, 5).expect("a valid policy");
    assert_eq!(
        LivenessPolicyRecord::from(sub_second),
        LivenessPolicyRecord {
            heartbeat_interval_seconds: 0,
            stale_after_intervals: 3,
            down_after_intervals: 5
        }
    );
    let absurd = LivenessPolicy::new(TimeDelta::seconds(100_000 * 86_400), 3, u32::MAX)
        .expect("a valid policy");
    assert_eq!(LivenessPolicyRecord::from(absurd).down_after_intervals, 0);
}

#[test]
fn a_multiplier_is_recovered_whatever_the_interval() {
    let fine = TimeDelta::new(0, 1_500_000).expect("1.5 ms");
    let policy = LivenessPolicy::new(fine, 3, 5).expect("a valid policy");
    assert_eq!(intervals_in(policy.stale_threshold(), fine), 3);
    assert_eq!(intervals_in(policy.down_threshold(), fine), 5);

    let uneven = TimeDelta::new(1, 500_000).expect("1.0005 s");
    let policy = LivenessPolicy::new(uneven, 3, 7).expect("a valid policy");
    assert_eq!(
        LivenessPolicyRecord::from(policy),
        LivenessPolicyRecord {
            heartbeat_interval_seconds: 1,
            stale_after_intervals: 3,
            down_after_intervals: 7
        }
    );

    let long = LivenessPolicy::new(TimeDelta::seconds(365 * 86_400), 3, 2_000_000_000)
        .expect("a valid policy");
    assert_eq!(
        LivenessPolicyRecord::from(long).down_after_intervals,
        2_000_000_000,
        "longer than milliseconds can count"
    );
}

#[test]
fn what_is_no_multiple_has_no_multiplier() {
    let second = TimeDelta::seconds(1);
    assert_eq!(intervals_in(TimeDelta::milliseconds(1_500), second), 0);
    assert_eq!(intervals_in(second, TimeDelta::seconds(0)), 0);
    assert_eq!(intervals_in(second, TimeDelta::seconds(-1)), 0);
    assert_eq!(intervals_in(TimeDelta::seconds(-3), second), 0);
    assert_eq!(
        intervals_in(TimeDelta::seconds(4_294_967_295), second),
        u32::MAX
    );
    assert_eq!(intervals_in(TimeDelta::seconds(4_294_967_296), second), 0);
}

#[test]
fn a_span_no_record_can_hold_is_named() {
    let record = PollTuningRecord {
        chart_window_seconds: i64::MAX,
        forget_host_after_seconds: i64::MIN,
        ..tuning_record()
    };
    assert_eq!(
        PollTuning::try_from(record),
        Err(FfiError::Internal {
            message: "9223372036854775807 s is not a representable duration".to_owned()
        })
    );
    let policy = LivenessPolicyRecord {
        heartbeat_interval_seconds: i64::MAX,
        stale_after_intervals: 3,
        down_after_intervals: 5,
    };
    assert!(matches!(
        LivenessPolicy::try_from(policy),
        Err(FfiError::Internal { .. })
    ));
}

#[test]
fn drafting_refuses_a_dwell_no_span_lasts() {
    let error = draft_alert_rule(
        "prod".to_owned(),
        "x".to_owned(),
        MetricKindRecord::CpuUtilization,
        ComparatorRecord::GreaterThan,
        number(1.0),
        i64::MAX,
        HostSelectorRecord::All,
    )
    .expect_err("no span lasts that long");
    assert!(matches!(error, FfiError::Internal { .. }));
    let error = draft_alert_rule(
        "a::b".to_owned(),
        "x".to_owned(),
        MetricKindRecord::CpuUtilization,
        ComparatorRecord::GreaterThan,
        number(1.0),
        0,
        HostSelectorRecord::All,
    )
    .expect_err("no segment holds a separator");
    assert!(matches!(error, FfiError::InvalidUrn { .. }));
}

#[test]
fn a_refused_environment_is_quoted() {
    assert_eq!(
        record("prod::eu").into_config(Ok(PollTuning::default()), Ok(Vec::new())),
        Err(environment_refusal("\"prod::eu\""))
    );
    assert_eq!(
        environment_refusal("x"),
        FfiError::InvalidConfig {
            message: "environment x must be non-empty and free of `::`".to_owned()
        }
    );
}

#[test]
fn a_copied_configuration_says_the_same() {
    let config = questionable();
    assert_eq!(config.clone(), config);
    assert_eq!(config.rules[0].clone(), config.rules[0]);
}

#[test]
fn a_draft_passes_its_own_validation() {
    for environment in ["prod", "a:b"] {
        let record = draft_alert_rule(
            environment.to_owned(),
            "cpu".to_owned(),
            MetricKindRecord::CpuUtilization,
            ComparatorRecord::LessThan,
            number(0.5),
            0,
            HostSelectorRecord::All,
        )
        .expect("a valid rule");
        let rule = AlertRule::try_from(record.clone()).expect("rebuilt");
        assert_eq!(rule.id().environment(), environment);
        validate_alert_rule(record).expect("valid");
    }
}
