use pessimal::client::error::{FailureSource, PollFailure, PollFailureKind};
use pessimal::client::fold::{AlertPhase, AlertTransition, PollAdvice, RestoreReport};
use pessimal::domain::host::HostId;
use pessimal::domain::metric::MetricKind;
use pessimal::domain::urn::Urn;
use pessimal::ffi::convert::FfiError;
use pessimal::ffi::fold_records::{
    transitions_to_records, AlertTransitionRecord, PollAdviceRecord, PollFailureKindRecord,
    PollFailureRecord, PollFailureSourceRecord, RestoreReportRecord,
};
use pessimal::ffi::view_records::AlertPhaseRecord;
use pessimal::time::{TimeDelta, Timestamp};

const ALL_KINDS: [PollFailureKind; 4] = [
    PollFailureKind::Unauthorized,
    PollFailureKind::Unreachable,
    PollFailureKind::Backend,
    PollFailureKind::Malformed,
];

const ALL_PHASES: [AlertPhase; 4] = [
    AlertPhase::Clear,
    AlertPhase::Pending,
    AlertPhase::Firing,
    AlertPhase::NoData,
];

fn seconds(secs: i64) -> Timestamp {
    Timestamp::from_timestamp(secs, 0).expect("a valid fixture instant")
}

fn at() -> Timestamp {
    seconds(1_757_000_000)
}

fn rule_urn() -> Urn {
    "pessimal::prod::fleet::rule::0192f000-0000-7000-8000-000000000001"
        .parse::<Urn>()
        .expect("a valid fixture URN")
}

fn transition(from: AlertPhase, to: AlertPhase) -> AlertTransition {
    AlertTransition {
        rule_id: rule_urn(),
        rule_name: "cpu hot".to_owned(),
        host: HostId::from("web-1".to_owned()),
        from,
        to,
        breaching_since: Some(seconds(1_757_000_000 - 300)),
        at: at(),
    }
}

fn nothing_restored() -> RestoreReport {
    RestoreReport {
        discarded_incompatible: false,
        discarded_unreadable: false,
        hosts_restored: 0,
        evaluations_restored: 0,
        saved_as_of: None,
    }
}

/// Every kind must survive the trip, and the bitmask catches one missing from the list.
#[test]
fn every_poll_failure_kind_round_trips() {
    let mut covered = 0_u8;
    for kind in ALL_KINDS {
        let record = PollFailureKindRecord::from(kind);
        assert_eq!(PollFailureKind::from(record), kind, "{kind:?} round trips");
        covered |= match kind {
            PollFailureKind::Unauthorized => 0b0001_u8,
            PollFailureKind::Unreachable => 0b0010,
            PollFailureKind::Backend => 0b0100,
            PollFailureKind::Malformed => 0b1000,
        };
    }
    assert_eq!(covered, 0b1111, "the fixture list must name every kind");
}

/// The three-way split — actionable, transient, neither — cannot drift.
#[test]
fn derived_failure_predicates_are_cores() {
    for kind in ALL_KINDS {
        let record = PollFailureRecord::from(&failure(kind, FailureSource::Roster, "boom"));
        assert_eq!(record.is_actionable, kind.is_actionable(), "{kind:?}");
        assert_eq!(record.is_transient, kind.is_transient(), "{kind:?}");
    }
}

fn failure(kind: PollFailureKind, source: FailureSource, message: &str) -> PollFailure {
    PollFailure {
        kind,
        source,
        message: message.to_owned(),
        at: at(),
    }
}

/// `Roster` and a `Series` for every [`MetricKind`], because the payload is the half of this
/// enum a hand-written mirror drops.
#[test]
fn every_failure_source_round_trips() {
    let mut covered = 0_u8;
    let sources = std::iter::once(FailureSource::Roster).chain(
        MetricKind::ALL
            .into_iter()
            .map(|metric| FailureSource::Series { metric }),
    );
    for source in sources {
        let record = PollFailureSourceRecord::from(source);
        assert_eq!(
            FailureSource::from(record),
            source,
            "{source:?} round trips"
        );
        covered |= match source {
            FailureSource::Roster => 0b01_u8,
            FailureSource::Series { .. } => 0b10,
        };
    }
    assert_eq!(covered, 0b11, "both source shapes must be exercised");
}

#[test]
fn a_poll_failure_round_trips() {
    for source in [
        FailureSource::Roster,
        FailureSource::Series {
            metric: MetricKind::FilesystemUtilization,
        },
    ] {
        let original = failure(PollFailureKind::Backend, source, "500 from SigNoz");
        let restored = PollFailure::try_from(PollFailureRecord::from(&original))
            .expect("a fixture instant is representable");
        assert_eq!(restored, original);
        // By value and by reference must agree; one is implemented in terms of the other and
        // that is worth pinning rather than assuming.
        let record = PollFailureRecord::from(&original);
        assert_eq!(PollFailureRecord::from(original), record);
    }
}

/// All sixteen phase pairs, not only the four interesting ones: `is_resolve` is the predicate
/// that is easy to get wrong on `Firing -> NoData`, which only a full sweep catches.
#[test]
fn an_alert_transition_carries_cores_edges_and_round_trips() {
    for from in ALL_PHASES {
        for to in ALL_PHASES {
            let original = transition(from, to);
            let record = AlertTransitionRecord::from(&original);
            assert_eq!(
                record.is_fire,
                original.is_fire(),
                "{from:?} -> {to:?} fire"
            );
            assert_eq!(
                record.is_resolve,
                original.is_resolve(),
                "{from:?} -> {to:?} resolve"
            );
            let restored = AlertTransition::try_from(record)
                .expect("a fixture URN and instant are representable");
            assert_eq!(restored, original, "{from:?} -> {to:?} round trips");
        }
    }
}

/// The two edges the app actually notifies on, spelled out so the mapping cannot be satisfied
/// by a pair of always-false booleans that round-trip perfectly well.
#[test]
fn only_the_intended_edges_fire_and_resolve() {
    let fires = AlertTransitionRecord::from(&transition(AlertPhase::Pending, AlertPhase::Firing));
    assert!(fires.is_fire);
    assert!(!fires.is_resolve);

    let resolves = AlertTransitionRecord::from(&transition(AlertPhase::Firing, AlertPhase::Clear));
    assert!(resolves.is_resolve);
    assert!(!resolves.is_fire);

    // A blind-gap reset. Neither edge: notifying here would withdraw an alert that is still
    // breaching and re-post it one dwell later.
    let reset = AlertTransitionRecord::from(&transition(AlertPhase::Firing, AlertPhase::NoData));
    assert!(!reset.is_fire);
    assert!(!reset.is_resolve);
}

/// `from` and `to` must not be swapped. A swap survives a round trip and every count, and
/// shows up only as a notification that says "resolved" when the alert just started.
#[test]
fn an_alert_transitions_direction_is_not_swapped() {
    let record = AlertTransitionRecord::from(&transition(AlertPhase::Clear, AlertPhase::Firing));
    assert_eq!(record.from, AlertPhaseRecord::from(AlertPhase::Clear));
    assert_eq!(record.to, AlertPhaseRecord::from(AlertPhase::Firing));
}

#[test]
fn transitions_keep_the_folds_order() {
    let first = || transition(AlertPhase::Clear, AlertPhase::Pending);
    let second = || transition(AlertPhase::Firing, AlertPhase::Clear);
    let records = transitions_to_records(&[first(), second()]);
    assert_eq!(
        records,
        vec![
            AlertTransitionRecord::from(&first()),
            AlertTransitionRecord::from(second())
        ]
    );
    assert!(transitions_to_records(&[]).is_empty());
}

/// Every [`PollAdvice`] variant, with the bitmask guarding the fixture list the same way.
#[test]
fn every_poll_advice_variant_round_trips() {
    let mut covered = 0_u8;
    // Whole seconds throughout: the boundary's unit is the second, so a fixture with
    // millisecond precision would fail for the representation rather than for the mapping.
    for advice in [
        PollAdvice::Poll {
            after: TimeDelta::seconds(0),
        },
        PollAdvice::Poll {
            after: TimeDelta::seconds(60),
        },
        PollAdvice::Retry {
            after: TimeDelta::seconds(30),
            consecutive_failures: 3,
        },
        PollAdvice::Stop {
            reason: PollFailureKind::Unauthorized,
            message: "not authorised for the telemetry backend".to_owned(),
        },
    ] {
        let restored = PollAdvice::try_from(PollAdviceRecord::from(&advice))
            .expect("a fixture delay is representable");
        assert_eq!(restored, advice, "{advice:?} round trips");
        covered |= match &advice {
            PollAdvice::Poll { .. } => 0b001_u8,
            PollAdvice::Retry { .. } => 0b010,
            PollAdvice::Stop { .. } => 0b100,
        };
        let record = PollAdviceRecord::from(&advice);
        assert_eq!(PollAdviceRecord::from(advice), record);
    }
    assert_eq!(covered, 0b111, "every advice variant must be exercised");
}

/// The immediate-poll case, pinned on its own. `after = zero` is what stops a relaunch or a
/// cold start sleeping an interval before it shows anything, and a conversion that rounded it
/// to the poll interval would be invisible in every other test here.
#[test]
fn an_immediate_poll_stays_immediate() {
    assert_eq!(
        PollAdviceRecord::from(&PollAdvice::Poll {
            after: TimeDelta::seconds(0)
        }),
        PollAdviceRecord::Poll { after_seconds: 0 }
    );
}

#[test]
fn a_restore_report_round_trips() {
    for report in [
        nothing_restored(),
        RestoreReport {
            discarded_incompatible: true,
            discarded_unreadable: false,
            hosts_restored: 0,
            evaluations_restored: 0,
            saved_as_of: None,
        },
        RestoreReport {
            discarded_incompatible: false,
            discarded_unreadable: false,
            hosts_restored: 12,
            evaluations_restored: 34,
            saved_as_of: Some(at()),
        },
    ] {
        let record = RestoreReportRecord::from(report);
        let restored =
            RestoreReport::try_from(record).expect("a fixture instant is representable");
        assert_eq!(restored, report);
    }
}

/// A nothing-salvaged report must not read as a cache written at the epoch.
#[test]
fn an_unreadable_cache_reports_no_saved_instant() {
    let record = RestoreReportRecord::from(RestoreReport {
        discarded_unreadable: true,
        ..nothing_restored()
    });
    assert!(record.discarded_unreadable);
    assert_eq!(record.saved_as_of_millis, None);
    assert_eq!(record.hosts_restored, 0);
}

#[test]
fn what_is_off_the_calendar_is_refused() {
    let record = PollFailureRecord {
        at_millis: i64::MAX,
        ..PollFailureRecord::from(failure(
            PollFailureKind::Backend,
            FailureSource::Roster,
            "boom",
        ))
    };
    assert!(matches!(
        PollFailure::try_from(record),
        Err(FfiError::Internal { .. })
    ));
    let record = RestoreReportRecord {
        saved_as_of_millis: Some(i64::MIN),
        ..RestoreReportRecord::from(nothing_restored())
    };
    assert!(matches!(
        RestoreReport::try_from(record),
        Err(FfiError::Internal { .. })
    ));
    assert!(matches!(
        PollAdvice::try_from(PollAdviceRecord::Retry {
            after_seconds: i64::MAX,
            consecutive_failures: 1
        }),
        Err(FfiError::Internal { .. })
    ));
}

#[test]
fn a_transition_is_read_from_its_urn_on() {
    let record = || AlertTransitionRecord::from(&transition(AlertPhase::Clear, AlertPhase::Firing));
    let bad_urn = AlertTransitionRecord {
        rule_id: "not-a-urn".to_owned(),
        at_millis: i64::MAX,
        ..record()
    };
    assert!(matches!(
        AlertTransition::try_from(bad_urn),
        Err(FfiError::InvalidUrn { .. })
    ));
    let bad_instants = AlertTransitionRecord {
        breaching_since_millis: Some(i64::MIN),
        at_millis: i64::MAX,
        ..record()
    };
    assert_eq!(
        AlertTransition::try_from(bad_instants),
        Err(FfiError::Internal {
            message: "-9223372036854775808 ms since the epoch is not a representable instant"
                .to_owned()
        })
    );
}

#[test]
fn an_answer_that_could_not_be_read_asks_for_neither_a_retry_nor_an_act() {
    assert!(PollFailureKind::Unauthorized.is_actionable());
    assert!(!PollFailureKind::Unauthorized.is_transient());
    assert!(PollFailureKind::Unreachable.is_transient());
    assert!(PollFailureKind::Backend.is_transient());
    assert!(!PollFailureKind::Malformed.is_actionable());
    assert!(!PollFailureKind::Malformed.is_transient());
}
