use pessimal::client::error::{FailureSource, PollFailure, PollFailureKind};
use pessimal::client::view::{FleetCounts, FleetView, FreshnessInputs, Severity};
use pessimal::ffi::usage::{
    backend_kind_from_name, poll_outcome, poll_trace, UsageDenialReasonRecord,
    UsageDeviceClassRecord, UsageDiagnosticsRecord, UsagePlatformRecord, UsageReporter,
    UsageReportingRecord, BATCH_TRACES, MAX_BUFFERED_TRACES,
};
use pessimal::ident::Uuid;
use pessimal::json::Json;
use pessimal::text_map::TextMap;
use pessimal::time::{TimeDelta, Timestamp};
use pessimal::usage::attribute::{AttributeKey, BackendKind, DeviceClass, Outcome, Platform};
use pessimal::usage::consent::{Consent, CI, DO_NOT_TRACK};
use pessimal::usage::encode::export_trace_request;
use pessimal::usage::resource::{Service, UsageResource};
use pessimal::usage::span::{SpanId, TraceId, UsageSpan, UsageTrace};

fn reporting(endpoint: &str, key: &str, opted_out: bool) -> UsageReportingRecord {
    UsageReportingRecord {
        endpoint: endpoint.to_owned(),
        ingestion_key: key.to_owned(),
        opted_out,
        platform: UsagePlatformRecord::Ios,
        device_class: UsageDeviceClassRecord::Phone,
        app_version: "0.1.0".to_owned(),
        app_build: Some(26),
        os_version: "18.4".to_owned(),
    }
}

fn env(pairs: &[(&str, &str)]) -> TextMap {
    let mut map = TextMap::new();
    for (k, v) in pairs {
        map.insert((*k).to_owned(), (*v).to_owned());
    }
    map
}

fn build(
    record: &UsageReportingRecord,
) -> (Option<UsageReporter>, Option<UsageDenialReasonRecord>) {
    UsageReporter::build(record, &env(&[]), Uuid::now_v7(), true)
}

fn reporter() -> UsageReporter {
    build(&reporting("https://ingest.eu2.signoz.cloud", "k", false))
        .0
        .expect("nothing denies it")
}

fn at(secs: i64) -> Timestamp {
    Timestamp::from_timestamp(1_757_000_000 + secs, 0).expect("an instant")
}

fn failure(kind: PollFailureKind, message: &str) -> PollFailure {
    PollFailure {
        kind,
        source: FailureSource::Roster,
        message: message.to_owned(),
        at: at(0),
    }
}

/// The view that a poll at `at(0)` leaves: with a failure or without one, and with a roster
/// listed then or earlier.
fn view(last_failure: Option<PollFailure>, listed: bool) -> FleetView {
    FleetView {
        backend_name: "SigNoz".to_owned(),
        as_of: Some(at(0)),
        freshness: FreshnessInputs {
            as_of: Some(at(0)),
            last_clean_at: None,
            last_roster_at: Some(if listed { at(0) } else { at(-30) }),
            consecutive_failures: u32::from(last_failure.is_some()),
            last_failure,
            polled_this_session: true,
            tolerance: TimeDelta::seconds(90),
            budget: TimeDelta::seconds(150),
        },
        severity: Severity::Unknown,
        hosts: Vec::new(),
        alerts: Vec::new(),
        counts: FleetCounts {
            hosts: 0,
            alive: 0,
            stale: 0,
            down: 0,
            unknown: 0,
            firing_alerts: 0,
            pending_alerts: 0,
        },
        warnings: Vec::new(),
    }
}

#[test]
fn a_clean_poll_reports_ok() {
    assert_eq!(poll_outcome(&view(None, true)), Outcome::Success);
}

#[test]
fn a_failure_kind_maps_to_an_outcome_without_its_message() {
    for (kind, expected) in [
        (PollFailureKind::Unauthorized, Outcome::Unauthorized),
        (PollFailureKind::Unreachable, Outcome::Unreachable),
        (PollFailureKind::Backend, Outcome::BackendError),
        (PollFailureKind::Malformed, Outcome::DecodeError),
    ] {
        let view = view(Some(failure(kind, "dns failure for signoz.acme.corp")), false);
        assert_eq!(poll_outcome(&view), expected);
    }
}

#[test]
fn a_listed_roster_with_a_failing_series_is_partial() {
    // The distinction an operator actually cares about: the backend is up and answering, one
    // metric is broken.
    let view = view(Some(failure(PollFailureKind::Backend, "no such metric")), true);
    assert_eq!(poll_outcome(&view), Outcome::Partial);
}

#[test]
fn failures_counted_with_none_recorded_are_the_backends() {
    let mut view = view(None, false);
    view.freshness.consecutive_failures = 2;
    assert_eq!(poll_outcome(&view), Outcome::BackendError);
    view.freshness.as_of = None;
    view.freshness.last_roster_at = None;
    assert_eq!(
        poll_outcome(&view),
        Outcome::BackendError,
        "two missing instants are not one poll"
    );
}

fn texts(json: &Json, out: &mut Vec<String>) {
    match json {
        Json::Text(s) => out.push(s.clone()),
        Json::Number(n) => out.push(format!("{n}")),
        Json::List(items) => {
            for item in items {
                texts(item, out);
            }
        }
        Json::Object(fields) => {
            for (key, value) in fields {
                out.push(key.clone());
                texts(value, out);
            }
        }
    }
}

#[test]
fn a_span_from_a_real_poll_carries_only_allowlisted_keys() {
    // The end-to-end guard: whatever a poll produced, what leaves must be on the list.
    let view = view(
        Some(failure(
            PollFailureKind::Backend,
            "500 from https://signoz.acme.corp: host db-7.internal unknown",
        )),
        false,
    );
    let mut trace = poll_trace(&view, 0, 3, BackendKind::Signoz, at(0), at(1));

    let permitted: Vec<&str> = AttributeKey::ALL.iter().map(|k| k.otel_name()).collect();
    let mut seen = 0;
    for span in &trace.spans {
        for attribute in span.payload.attributes() {
            assert!(
                permitted.contains(&attribute.key.otel_name()),
                "{} is not allowlisted",
                attribute.key.otel_name()
            );
            seen += 1;
        }
    }
    assert!(seen > 0, "the span carried no attributes at all");

    // And specifically: nothing resembling the message above survived anywhere in the payload.
    // Random ids could spell a status by chance, so they are pinned.
    trace.trace_id = TraceId::from_bytes([0x11; 16]);
    trace.spans[0].id = SpanId::from_bytes([0x22; 8]);
    let resource = UsageResource::new(
        Service::Client,
        Platform::Ios,
        DeviceClass::Phone,
        Uuid::from_bytes([0x33; 16]),
        "0.1.0",
        Some(26),
        "18.4",
    );
    let mut body = Vec::new();
    texts(&export_trace_request(&resource, &[trace]), &mut body);
    for leaked in ["signoz.acme.corp", "db-7.internal", "500"] {
        assert!(
            !body.iter().any(|text| text.contains(leaked)),
            "{leaked} reached the payload: {body:?}"
        );
    }
}

#[test]
fn a_poll_is_one_root_span() {
    let trace = poll_trace(&view(None, true), 2, 3, BackendKind::Signoz, at(0), at(1));
    assert_eq!(trace.spans.len(), 1);
    assert_eq!(trace.spans[0].parent, None);
    assert_eq!(trace.spans[0].started, at(0));
    assert_eq!(trace.spans[0].ended, at(1));
    assert_eq!(
        trace.spans[0].payload,
        UsageSpan::ClientPoll {
            outcome: Outcome::Success,
            backend: BackendKind::Signoz,
            hosts: 0,
            rules: 3,
            alerts_firing: 2,
        }
    );
}

#[test]
fn an_empty_destination_denies_with_no_destination() {
    let (reporter, denial) = build(&reporting("", "", false));
    assert!(reporter.is_none());
    assert_eq!(denial, Some(UsageDenialReasonRecord::NoDestination));
}

#[test]
fn opting_out_denies_even_with_a_destination() {
    let (reporter, denial) = build(&reporting("https://ingest.eu2.signoz.cloud", "k", true));
    assert!(
        reporter.is_none(),
        "an opted-out build must hold no reporter"
    );
    assert_eq!(denial, Some(UsageDenialReasonRecord::OptedOut));
}

#[test]
fn the_environment_denies_with_its_own_reasons() {
    let record = reporting("https://ingest.eu2.signoz.cloud", "k", false);
    for (name, reason) in [
        (DO_NOT_TRACK, UsageDenialReasonRecord::DoNotTrack),
        (CI, UsageDenialReasonRecord::ContinuousIntegration),
    ] {
        let (reporter, denial) =
            UsageReporter::build(&record, &env(&[(name, "1")]), Uuid::now_v7(), true);
        assert!(reporter.is_none());
        assert_eq!(denial, Some(reason));
    }
    let (reporter, denial) = UsageReporter::build(&record, &env(&[]), Uuid::now_v7(), false);
    assert!(reporter.is_none(), "no transport, no reporter");
    assert_eq!(denial, Some(UsageDenialReasonRecord::NoDestination));
}

#[test]
fn a_transport_is_asked_for_only_once_consent_is_granted() {
    let record = reporting("https://ingest.eu2.signoz.cloud", "k", false);
    assert_eq!(record.consent(&env(&[])), Consent::Granted);
    for (denied, environment) in [
        (record.clone(), env(&[(DO_NOT_TRACK, "1")])),
        (reporting("", "k", false), env(&[])),
        (
            reporting("https://ingest.eu2.signoz.cloud", "k", true),
            env(&[]),
        ),
    ] {
        assert_ne!(denied.consent(&environment), Consent::Granted);
        let with = UsageReporter::build(&denied, &environment, Uuid::now_v7(), true);
        let without = UsageReporter::build(&denied, &environment, Uuid::now_v7(), false);
        assert!(with.0.is_none() && without.0.is_none());
        assert_eq!(with.1, without.1);
    }
}

#[test]
fn a_reporter_describes_the_process_it_reports_for() {
    let instance = Uuid::now_v7();
    let (reporter, denial) = UsageReporter::build(
        &reporting("https://ingest.eu2.signoz.cloud/", "k", false),
        &env(&[]),
        instance,
        true,
    );
    assert_eq!(denial, None);
    let reporter = reporter.expect("nothing denies it");
    assert_eq!(reporter.sink.resource.instance(), instance);
    assert_eq!(reporter.sink.resource.service(), Service::Client);
    assert_eq!(
        reporter.sink.destination.traces_url(),
        "https://ingest.eu2.signoz.cloud/v1/traces"
    );
}

#[test]
fn a_denied_session_still_reports_why() {
    let record = UsageDiagnosticsRecord::disabled(Some(UsageDenialReasonRecord::DoNotTrack));
    assert!(!record.enabled);
    assert_eq!(record.denial, Some(UsageDenialReasonRecord::DoNotTrack));
    assert_eq!(record.sent, 0);
}

fn make(requests_planned: u32) -> UsageTrace {
    let now = Timestamp::now();
    let mut trace = UsageTrace::new(TraceId::new());
    trace.record(UsageSpan::ClientPlan { requests_planned }, None, now, now);
    trace
}

#[test]
fn recording_batches_and_the_buffer_is_bounded() {
    let mut reporter = reporter();

    // Nothing to batch until the threshold.
    for _ in 1..BATCH_TRACES {
        assert!(!reporter.record(make(1)), "batched too early");
    }
    assert!(reporter.record(make(1)), "the batch should be full now");
    assert_eq!(reporter.diagnostics().buffered, BATCH_TRACES as u64);

    // Past the ceiling, the oldest go and the drops are counted rather than hidden.
    for _ in 0..(MAX_BUFFERED_TRACES * 2) {
        reporter.record(make(1));
    }
    let diagnostics = reporter.diagnostics();
    assert_eq!(diagnostics.buffered, MAX_BUFFERED_TRACES as u64);
    assert!(diagnostics.dropped > 0, "drops must be visible");
    assert_eq!(
        diagnostics.buffered + diagnostics.dropped,
        (BATCH_TRACES + MAX_BUFFERED_TRACES * 2) as u64,
        "every trace is buffered or counted"
    );
}

#[test]
fn the_newest_traces_are_the_ones_kept() {
    let mut reporter = reporter();
    for n in 0..100 {
        reporter.record(make(n));
    }
    let kept: Vec<u32> = reporter
        .buffer
        .iter()
        .map(|trace| match trace.spans[0].payload {
            UsageSpan::ClientPlan { requests_planned } => requests_planned,
            _ => panic!("a plan"),
        })
        .collect();
    assert_eq!(kept, (36..100).collect::<Vec<u32>>());
}

#[test]
fn an_empty_trace_is_not_buffered() {
    let mut reporter = reporter();
    assert!(!reporter.record(UsageTrace::new(TraceId::new())));
    assert_eq!(reporter.diagnostics().buffered, 0);
}

#[test]
fn a_flush_takes_everything_and_leaves_nothing() {
    let mut reporter = reporter();
    assert!(reporter.flush().is_none(), "nothing buffered, nothing sent");
    reporter.record(make(1));
    reporter.record(make(2));
    let report = reporter.flush().expect("something to send");
    assert_eq!(report.spans, 2);
    assert_eq!(report.url, "https://ingest.eu2.signoz.cloud/v1/traces");
    assert_eq!(reporter.diagnostics().buffered, 0);
    assert!(reporter.flush().is_none());
    let _ = reporter.sink.settle(report.spans, Some(200));
    let diagnostics = reporter.diagnostics();
    assert!(diagnostics.enabled);
    assert_eq!(diagnostics.denial, None);
    assert_eq!(diagnostics.sent, 1);
    assert_eq!(diagnostics.spans_reported, 2);
}

#[test]
fn a_backend_name_becomes_an_enum_and_never_travels_as_text() {
    assert_eq!(backend_kind_from_name("SigNoz"), BackendKind::Signoz);
    assert_eq!(backend_kind_from_name("hyperdx"), BackendKind::Clickstack);
    assert_eq!(backend_kind_from_name("Honeycomb"), BackendKind::Honeycomb);
    // A test double, a future adapter, anything at all: one of four known values.
    assert_eq!(backend_kind_from_name("Gated"), BackendKind::Otlp);
    assert_eq!(
        backend_kind_from_name("signoz.acme.corp"),
        BackendKind::Otlp
    );
}

#[test]
fn platforms_and_devices_cross_one_for_one() {
    for (record, platform) in [
        (UsagePlatformRecord::Ios, Platform::Ios),
        (UsagePlatformRecord::Macos, Platform::Macos),
        (UsagePlatformRecord::Linux, Platform::Linux),
        (UsagePlatformRecord::Windows, Platform::Windows),
    ] {
        assert_eq!(Platform::from(record), platform);
    }
    for (record, class) in [
        (UsageDeviceClassRecord::Phone, DeviceClass::Phone),
        (UsageDeviceClassRecord::Tablet, DeviceClass::Tablet),
        (UsageDeviceClassRecord::Mac, DeviceClass::Mac),
        (UsageDeviceClassRecord::Server, DeviceClass::Server),
    ] {
        assert_eq!(DeviceClass::from(record), class);
    }
}

#[test]
fn a_message_makes_no_difference_to_an_outcome() {
    for kind in [
        PollFailureKind::Unauthorized,
        PollFailureKind::Unreachable,
        PollFailureKind::Backend,
        PollFailureKind::Malformed,
    ] {
        assert_eq!(
            poll_outcome(&view(Some(failure(kind, "one")), false)),
            poll_outcome(&view(Some(failure(kind, "another")), false))
        );
    }
}
