use pessimal::client::error::{FailureSource, PollFailure, PollFailureKind};
use pessimal::client::probe::BackendProbe;
use pessimal::domain::host::HostId;
use pessimal::domain::metric::{MetricKind, TimeRange};
use pessimal::ffi::convert::{datetime_to_millis, FfiError};
use pessimal::ffi::probe_records::{
    BackendProbeRecord, ProbeFailedRequest, ProbeFailureKind, ProbeFailureRecord,
};
use pessimal::time::{TimeDelta, Timestamp};

/// Every kind paired with the case it must cross as. A round trip alone cannot catch two arms
/// swapped in both directions, which is precisely the mistake that renames the button.
const KIND_PAIRS: [(PollFailureKind, ProbeFailureKind); 4] = [
    (
        PollFailureKind::Unauthorized,
        ProbeFailureKind::Unauthorized,
    ),
    (PollFailureKind::Unreachable, ProbeFailureKind::Unreachable),
    (PollFailureKind::Backend, ProbeFailureKind::Backend),
    (PollFailureKind::Malformed, ProbeFailureKind::Malformed),
];

const WINDOW_SECONDS: i64 = 210;

fn at() -> Timestamp {
    Timestamp::from_timestamp(1_757_000_000, 0).expect("a valid fixture instant")
}

fn window() -> TimeRange {
    TimeRange::ending_at(at(), TimeDelta::seconds(WINDOW_SECONDS)).expect("a positive window")
}

/// A roster failure, the only source a probe can produce.
fn roster_failure(kind: PollFailureKind, message: &str) -> PollFailure {
    PollFailure {
        kind,
        source: FailureSource::Roster,
        message: message.to_owned(),
        at: at(),
    }
}

/// Connected, and the backend answered with nothing. The outcome the two-step probe exists for.
fn connected_but_empty() -> BackendProbe {
    BackendProbe {
        backend_name: "SigNoz".to_owned(),
        connected: true,
        failure: None,
        hosts_seen: 0,
        sample_hosts: Vec::new(),
        window: window(),
    }
}

/// The connection itself was refused: not connected, and a failure to explain why.
fn rejected() -> BackendProbe {
    BackendProbe {
        backend_name: "SigNoz".to_owned(),
        connected: false,
        failure: Some(roster_failure(
            PollFailureKind::Unauthorized,
            "not authorised for the telemetry backend",
        )),
        hosts_seen: 0,
        sample_hosts: Vec::new(),
        window: window(),
    }
}

/// Two hosts, in the order they were sorted.
fn populated() -> BackendProbe {
    BackendProbe {
        backend_name: "SigNoz".to_owned(),
        connected: true,
        failure: None,
        hosts_seen: 2,
        sample_hosts: vec![HostId::new("web-1"), HostId::new("web-2")],
        window: window(),
    }
}

/// Connected, and the roster query behind it errored. The state `connected` exists to expose.
fn connected_then_broken() -> BackendProbe {
    BackendProbe {
        backend_name: "SigNoz".to_owned(),
        connected: true,
        failure: Some(roster_failure(PollFailureKind::Backend, "500")),
        hosts_seen: 0,
        sample_hosts: Vec::new(),
        window: window(),
    }
}

fn outcomes() -> [BackendProbe; 4] {
    [
        connected_but_empty(),
        rejected(),
        populated(),
        connected_then_broken(),
    ]
}

const LINES: [&str; 4] = ["empty", "rejected", "two hosts", "broken"];

fn crossed(probe: BackendProbe) -> BackendProbeRecord {
    BackendProbeRecord::from_probe(probe, "a line".to_owned())
}

#[test]
fn every_failure_kind_round_trips_through_its_record() {
    for (domain, record) in KIND_PAIRS {
        assert_eq!(
            ProbeFailureKind::from(domain),
            record,
            "{domain:?} must cross as {record:?}"
        );
        assert_eq!(
            PollFailureKind::from(record),
            domain,
            "{record:?} must come back as {domain:?}"
        );
    }

    let mirrored: Vec<ProbeFailureKind> = KIND_PAIRS
        .iter()
        .map(|&(domain, _)| ProbeFailureKind::from(domain))
        .collect();
    for (index, kind) in mirrored.iter().enumerate() {
        assert!(
            !mirrored[index + 1..].contains(kind),
            "{kind:?} is the image of two domain kinds; the mirror collapses a case"
        );
    }
}

#[test]
fn every_failed_request_round_trips_through_its_record() {
    assert_eq!(
        FailureSource::try_from(ProbeFailedRequest::from(FailureSource::Roster))
            .expect("Roster needs no parsing"),
        FailureSource::Roster
    );

    for metric in MetricKind::ALL {
        let source = FailureSource::Series { metric };
        let record = ProbeFailedRequest::from(source);
        assert_eq!(
            record,
            ProbeFailedRequest::Series {
                metric_otel_name: metric.otel_name().to_owned()
            },
            "the metric crosses as its OTel instrument name"
        );
        assert_eq!(
            FailureSource::try_from(record).expect("a modelled metric resolves"),
            source,
            "{metric:?} did not survive the round trip"
        );
    }
}

#[test]
fn an_unmodelled_metric_name_fails_the_reverse_with_the_domains_message() {
    let error = FailureSource::try_from(ProbeFailedRequest::Series {
        metric_otel_name: "system.paging.faults".to_owned(),
    })
    .expect_err("a name the domain does not model cannot resolve");

    assert_eq!(
        error,
        FfiError::UnknownMetric {
            message: "system.paging.faults".to_owned()
        },
        "the message is the domain's own, not a sentence written in the bridge"
    );
}

#[test]
fn a_failure_record_carries_the_cores_verdicts_rather_than_recomputing_them() {
    for (domain_kind, record_kind) in KIND_PAIRS {
        let record =
            ProbeFailureRecord::from(roster_failure(domain_kind, "something went wrong"));

        assert_eq!(record.kind, record_kind);
        assert_eq!(record.request, ProbeFailedRequest::Roster);
        assert_eq!(
            record.message, "something went wrong",
            "the message crosses verbatim"
        );
        assert_eq!(record.at_millis, datetime_to_millis(at()));
        assert_eq!(
            record.actionable,
            domain_kind.is_actionable(),
            "actionable is the domain's rule, not a kind comparison"
        );
    }
}

#[test]
fn a_series_failure_still_mirrors_even_though_a_probe_cannot_produce_one() {
    let record = ProbeFailureRecord::from(PollFailure {
        kind: PollFailureKind::Backend,
        source: FailureSource::Series {
            metric: MetricKind::MemoryUtilization,
        },
        message: "query rejected".to_owned(),
        at: at(),
    });

    assert_eq!(
        record.request,
        ProbeFailedRequest::Series {
            metric_otel_name: "system.memory.utilization".to_owned()
        },
        "the Series arm exists so no source is ever silently dropped"
    );
    assert_eq!(record.kind, ProbeFailureKind::Backend);
    assert!(!record.actionable);
}

#[test]
fn the_four_probe_outcomes_translate_field_for_field() {
    for ((probe, again), line) in outcomes().into_iter().zip(outcomes()).zip(LINES) {
        let record = BackendProbeRecord::from_probe(again, line.to_owned());

        assert_eq!(record.backend_name, probe.backend_name);
        assert_eq!(record.connected, probe.connected);
        assert_eq!(record.hosts_seen, probe.hosts_seen);
        assert_eq!(
            record
                .failure
                .as_ref()
                .map(|failure| failure.message.clone()),
            probe
                .failure
                .as_ref()
                .map(|failure| failure.message.clone()),
            "a failure neither appears nor vanishes in translation"
        );
        assert_eq!(
            record.usable,
            probe.is_usable(),
            "usable is the domain's definition"
        );
        assert_eq!(record.message, line, "the sentence is generated once");
        assert_eq!(
            record.window_start_millis,
            datetime_to_millis(at()) - 210_000
        );
        assert_eq!(record.window_end_millis, datetime_to_millis(at()));
    }
}

#[test]
fn the_four_probe_outcomes_keep_four_distinct_sentences() {
    let messages: Vec<String> = outcomes()
        .into_iter()
        .zip(LINES)
        .map(|(probe, line)| BackendProbeRecord::from_probe(probe, line.to_owned()).message)
        .collect();

    for (index, message) in messages.iter().enumerate() {
        assert!(
            !message.is_empty(),
            "a settings screen is never handed an empty line"
        );
        assert!(
            !messages[index + 1..].contains(message),
            "two different outcomes share one sentence: {message}"
        );
    }
}

#[test]
fn the_host_sample_crosses_as_strings_in_the_cores_order() {
    let record = crossed(populated());

    assert_eq!(
        record.sample_hosts,
        vec!["web-1".to_owned(), "web-2".to_owned()],
        "the order is the one they came in, neither re-sorted nor reversed here"
    );

    let descending = BackendProbe {
        sample_hosts: vec![HostId::new("web-2"), HostId::new("web-1")],
        ..populated()
    };
    assert_eq!(
        crossed(descending).sample_hosts,
        vec!["web-2".to_owned(), "web-1".to_owned()],
        "the bridge does not sort; it would be a second place deciding the order"
    );
}

#[test]
fn only_an_unauthorized_probe_is_actionable() {
    let rejected = crossed(rejected());
    let broken = crossed(connected_then_broken());

    assert_eq!(
        rejected
            .failure
            .as_ref()
            .map(|failure| (failure.kind, failure.actionable)),
        Some((ProbeFailureKind::Unauthorized, true)),
        "the one failure that routes an Open Settings button"
    );
    assert_eq!(
        broken
            .failure
            .as_ref()
            .map(|failure| (failure.kind, failure.actionable)),
        Some((ProbeFailureKind::Backend, false))
    );
    assert!(
        broken.connected && !broken.usable,
        "connected with a failed roster is the outcome `connected` exists to expose"
    );
}

#[test]
fn a_probe_is_usable_once_it_has_seen_a_host() {
    assert!(populated().is_usable());
    assert!(!connected_but_empty().is_usable());
    assert!(!rejected().is_usable());
}
