use pessimal::ident::Uuid;
use pessimal::json::Json;
use pessimal::text_map::TextMap;
use pessimal::time::Timestamp;
use pessimal::usage::attribute::{
    Attribute, AttributeKey, AttributeValue, BackendKind, DeviceClass, HttpStatusClass, Outcome,
    Platform, Version,
};
use pessimal::usage::consent::{Consent, DenialReason, CI, DO_NOT_TRACK, OPT_OUT_VAR};
use pessimal::usage::encode::{export_trace_request, unix_nanos, SCOPE_NAME, SCOPE_VERSION};
use pessimal::usage::resource::{Service, UsageResource};
use pessimal::usage::span::{RecordedSpan, SpanId, SpanKind, TraceId, UsageSpan, UsageTrace};
use serde_json::Value;

// Attributes.

#[test]
fn a_version_keeps_what_it_should() {
    assert_eq!(Version::app("0.1.0").expect("valid").as_str(), "0.1.0");
    assert_eq!(Version::app("1.2.3.4").expect("valid").as_str(), "1.2.3");
    assert_eq!(Version::os("18.4.1").expect("valid").as_str(), "18.4");
    assert_eq!(Version::os("26").expect("valid").as_str(), "26");
}

#[test]
fn a_version_refuses_anything_that_could_carry_private_data() {
    for leak in [
        "web-1.internal",
        "https://signoz.acme.corp:4317",
        "v1.2.3",
        "1.2.3-beta",
        "",
        ".",
        "1..2",
        "acme",
        "0199a0e4-0000-7000-8000-000000000001",
        // Long enough to be a serial or an account id rather than a version component.
        "1234567",
    ] {
        assert!(Version::app(leak).is_none(), "app accepted {leak:?}");
        assert!(Version::os(leak).is_none(), "os accepted {leak:?}");
    }
}

#[test]
fn a_status_class_is_the_leading_digit() {
    assert_eq!(HttpStatusClass::of(204).expect("valid").digit(), 2);
    assert_eq!(HttpStatusClass::of(401).expect("valid").digit(), 4);
    assert_eq!(HttpStatusClass::of(503).expect("valid").digit(), 5);
    assert!(HttpStatusClass::of(0).is_none());
    assert!(HttpStatusClass::of(600).is_none());
}

#[test]
fn every_key_has_a_distinct_wire_name() {
    let mut names: Vec<&str> = AttributeKey::ALL.iter().map(|k| k.otel_name()).collect();
    names.sort_unstable();
    let count = names.len();
    names.dedup();
    assert_eq!(names.len(), count, "two keys share a wire name");
}

#[test]
fn pessimals_own_keys_are_namespaced() {
    for key in AttributeKey::ALL {
        let name = key.otel_name();
        assert!(
            name.starts_with("pessimal.") || name.starts_with("service."),
            "{name} is neither a pessimal.* key nor an OTel service.* one"
        );
    }
}

#[test]
fn an_outcome_knows_whether_it_is_an_error() {
    assert!(!Outcome::Success.is_error());
    assert!(
        !Outcome::Cancelled.is_error(),
        "a cancelled poll is not a fault"
    );
    for bad in [
        Outcome::Partial,
        Outcome::Unreachable,
        Outcome::Unauthorized,
        Outcome::BackendError,
        Outcome::DecodeError,
    ] {
        assert!(bad.is_error(), "{bad:?}");
    }
}

#[test]
fn a_version_is_bounded_component_by_component() {
    assert_eq!(Version::app(" 1.2 "), None, "nothing is trimmed");
    assert_eq!(Version::app("123456").expect("valid").as_str(), "123456");
    assert!(Version::app("1.1234567").is_none());
    assert_eq!(Version::app("1.2.3.x"), None, "every component counts");
    let version = Version::os("18.4").expect("valid");
    assert_eq!(version.clone(), version);
    assert_eq!(Version::os(version.as_str()), Some(version));
}

#[test]
fn an_outcome_that_succeeded_is_spelt_ok() {
    assert_eq!(Outcome::Success.as_str(), "ok");
    assert_eq!(Outcome::DecodeError.as_str(), "decode_error");
    assert_eq!(Platform::Macos.as_str(), "macos");
    assert_eq!(DeviceClass::Tablet.as_str(), "tablet");
    assert_eq!(BackendKind::Otlp.as_str(), "otlp");
    assert_eq!(Service::Client.as_str(), "pessimal-client");
}

// Consent.

fn env(pairs: &[(&str, &str)]) -> TextMap {
    let mut map = TextMap::new();
    for (k, v) in pairs {
        map.insert((*k).to_owned(), (*v).to_owned());
    }
    map
}

#[test]
fn the_default_is_on_because_this_is_opt_out() {
    assert_eq!(Consent::resolve(false, true, &env(&[])), Consent::Granted);
}

#[test]
fn a_build_with_no_destination_cannot_report() {
    // This is the guarantee that a `cargo build` from source, and the CI simulator build, never
    // phone home: there is nowhere for them to phone.
    assert_eq!(
        Consent::resolve(false, false, &env(&[])),
        Consent::Denied(DenialReason::NoDestination)
    );
}

#[test]
fn the_users_own_switch_wins() {
    assert_eq!(
        Consent::resolve(true, true, &env(&[])),
        Consent::Denied(DenialReason::OptedOut)
    );
}

#[test]
fn do_not_track_is_honoured_in_the_spellings_people_use() {
    for value in ["1", "true", "yes", "on", "TRUE"] {
        assert_eq!(
            Consent::resolve(false, true, &env(&[(DO_NOT_TRACK, value)])),
            Consent::Denied(DenialReason::DoNotTrack),
            "DO_NOT_TRACK={value}"
        );
    }
}

#[test]
fn do_not_track_set_to_zero_means_do_track() {
    // Getting this backwards would be the kind of bug that looks like working code.
    for value in ["0", "false", "no", "off", ""] {
        assert_eq!(
            Consent::resolve(false, true, &env(&[(DO_NOT_TRACK, value)])),
            Consent::Granted,
            "DO_NOT_TRACK={value}"
        );
    }
}

#[test]
fn ci_is_not_a_user() {
    assert_eq!(
        Consent::resolve(false, true, &env(&[(CI, "true")])),
        Consent::Denied(DenialReason::ContinuousIntegration)
    );
}

#[test]
fn pessimals_own_variable_turns_it_off_without_do_not_track() {
    for value in ["off", "0", "false", "no", "disabled"] {
        assert_eq!(
            Consent::resolve(false, true, &env(&[(OPT_OUT_VAR, value)])),
            Consent::Denied(DenialReason::OptedOut),
            "{OPT_OUT_VAR}={value}"
        );
    }
    // Anything else leaves it on, including the obvious affirmative.
    assert_eq!(
        Consent::resolve(false, true, &env(&[(OPT_OUT_VAR, "on")])),
        Consent::Granted
    );
}

#[test]
fn a_missing_destination_outranks_every_other_reason() {
    // Reported first so a diagnostics screen says "this build cannot report" rather than
    // blaming a switch the user did not touch.
    assert_eq!(
        Consent::resolve(true, false, &env(&[(DO_NOT_TRACK, "1"), (CI, "true")])),
        Consent::Denied(DenialReason::NoDestination)
    );
}

#[test]
fn the_reasons_outrank_each_other_in_one_order() {
    let all = [(OPT_OUT_VAR, "off"), (DO_NOT_TRACK, "1"), (CI, "true")];
    assert_eq!(
        Consent::resolve(true, true, &env(&all)),
        Consent::Denied(DenialReason::OptedOut)
    );
    assert_eq!(
        Consent::resolve(false, true, &env(&[(DO_NOT_TRACK, " Yes "), (CI, "true")])),
        Consent::Denied(DenialReason::DoNotTrack)
    );
    assert!(Consent::Granted.is_granted());
    assert!(!Consent::Denied(DenialReason::OptedOut).is_granted());
}

// Spans.

#[test]
fn ids_render_as_lowercase_hex_of_the_right_length() {
    let trace = TraceId::from_bytes([0xab; 16]);
    assert_eq!(trace.hex(), "ab".repeat(16));
    assert_eq!(trace.hex().len(), 32);

    let span = SpanId::from_bytes([0x0f, 0xf0, 0, 1, 2, 3, 4, 5]);
    assert_eq!(
        span.hex(),
        "0ff0000102030405",
        "a high nibble of 0 must not be dropped"
    );
    assert_eq!(span.hex().len(), 16);
}

#[test]
fn span_ids_take_the_random_half_of_a_uuidv7_not_the_timestamp() {
    // Two ids minted in the same millisecond must still differ. Taking v7's leading bytes —
    // which are the clock — would make this fail.
    let ids: std::collections::HashSet<_> = (0..64).map(|_| SpanId::new()).collect();
    assert_eq!(ids.len(), 64, "span ids collided within one millisecond");
}

#[test]
fn trace_ids_are_distinct() {
    let ids: std::collections::HashSet<_> = (0..64).map(|_| TraceId::new().hex()).collect();
    assert_eq!(ids.len(), 64);
}

#[test]
fn a_gather_without_a_response_omits_the_status_class() {
    let span = UsageSpan::ClientGather {
        outcome: Outcome::Unreachable,
        status_class: None,
        series_returned: 0,
    };
    let keys: Vec<_> = span.attributes().into_iter().map(|a| a.key).collect();
    assert!(!keys.contains(&AttributeKey::HttpStatusClass));
    // The outcome still says what happened, which is the point: a connection that never
    // produced a status is not the same as one that produced a 500.
    assert!(keys.contains(&AttributeKey::Outcome));
}

#[test]
fn a_gather_with_a_response_carries_only_the_class() {
    let span = UsageSpan::ClientGather {
        outcome: Outcome::BackendError,
        status_class: HttpStatusClass::of(503),
        series_returned: 0,
    };
    let status = span
        .attributes()
        .into_iter()
        .find(|a| a.key == AttributeKey::HttpStatusClass)
        .expect("present");
    assert_eq!(status.value, AttributeValue::Count(5));
}

#[test]
fn outbound_spans_are_client_kind_and_the_rest_internal() {
    let gather = UsageSpan::ClientGather {
        outcome: Outcome::Success,
        status_class: HttpStatusClass::of(200),
        series_returned: 3,
    };
    assert_eq!(gather.kind(), SpanKind::Client);
    assert_eq!(
        UsageSpan::ClientPlan {
            requests_planned: 4
        }
        .kind(),
        SpanKind::Internal
    );
}

#[test]
fn a_plan_span_reports_no_outcome_so_it_cannot_skew_an_error_rate() {
    assert!(UsageSpan::ClientPlan {
        requests_planned: 1
    }
    .outcome()
    .is_none());
}

fn later(at: Timestamp, millis: i64) -> Timestamp {
    Timestamp::from_timestamp_millis(at.timestamp_millis() + millis).expect("an instant")
}

#[test]
fn recording_builds_a_tree() {
    let now = Timestamp::now();
    let mut trace = UsageTrace::new(TraceId::new());
    assert!(trace.is_empty());

    let root = trace.record(
        UsageSpan::ClientPoll {
            outcome: Outcome::Success,
            backend: BackendKind::Signoz,
            hosts: 2,
            rules: 1,
            alerts_firing: 0,
        },
        None,
        now,
        later(now, 400),
    );
    let child = trace.record(
        UsageSpan::ClientPlan {
            requests_planned: 20,
        },
        Some(root),
        now,
        later(now, 1),
    );

    assert_eq!(trace.spans.len(), 2);
    assert_eq!(trace.spans[0].parent, None, "the root has no parent");
    assert_eq!(trace.spans[1].parent, Some(root));
    assert_ne!(child, root);
}

#[test]
fn a_span_id_is_the_tail_of_its_uuid() {
    let id = Uuid::parse_str("01890a5d-ac96-774b-bcce-b302099a8057").expect("a UUID");
    assert_eq!(SpanId::trailing(id).hex(), "bcceb302099a8057");
    assert_ne!(SpanId::default(), SpanId::default());
    assert_ne!(TraceId::default(), TraceId::default());
}

#[test]
fn a_poll_says_only_counts_and_kinds() {
    let poll = UsageSpan::ClientPoll {
        outcome: Outcome::Success,
        backend: BackendKind::Signoz,
        hosts: 12,
        rules: 3,
        alerts_firing: 1,
    };
    assert_eq!(
        poll.attributes(),
        vec![
            Attribute::enumerated(AttributeKey::Outcome, "ok"),
            Attribute::enumerated(AttributeKey::BackendKind, "signoz"),
            Attribute::count(AttributeKey::HostsCount, 12),
            Attribute::count(AttributeKey::RulesCount, 3),
            Attribute::count(AttributeKey::AlertsFiring, 1),
        ]
    );
    assert_eq!(poll.outcome(), Some(Outcome::Success));
    assert_eq!(SpanKind::Internal.code(), 1);
    assert_eq!(SpanKind::Client.code(), 3);
}

// The resource.

fn resource(version: &str, os: &str) -> UsageResource {
    UsageResource::new(
        Service::Client,
        Platform::Ios,
        DeviceClass::Phone,
        Uuid::now_v7(),
        version,
        Some(26),
        os,
    )
}

#[test]
fn a_well_formed_resource_carries_everything() {
    let keys: Vec<_> = resource("0.1.0", "18.4.1")
        .attributes()
        .into_iter()
        .map(|a| a.key)
        .collect();
    for expected in [
        AttributeKey::ServiceName,
        AttributeKey::ServiceInstanceId,
        AttributeKey::ServiceVersion,
        AttributeKey::AppBuild,
        AttributeKey::Platform,
        AttributeKey::DeviceClass,
        AttributeKey::OsVersion,
    ] {
        assert!(keys.contains(&expected), "{expected:?} missing");
    }
}

#[test]
fn an_os_version_is_trimmed_to_major_minor() {
    let os = resource("0.1.0", "18.4.1")
        .attributes()
        .into_iter()
        .find(|a| a.key == AttributeKey::OsVersion)
        .expect("present");
    assert_eq!(
        os.value,
        AttributeValue::Version(Version::os("18.4").expect("valid"))
    );
}

#[test]
fn a_version_string_that_is_not_a_version_is_dropped_rather_than_sent() {
    // The realistic accident: somebody wires a device name or a bundle identifier into the
    // version slot. It must not become an attribute.
    let attributes = resource("Thomas’s iPhone", "acme-prod").attributes();
    let keys: Vec<_> = attributes.iter().map(|a| a.key).collect();
    assert!(!keys.contains(&AttributeKey::ServiceVersion));
    assert!(!keys.contains(&AttributeKey::OsVersion));
    // And the rest still reports, so one bad input does not cost the whole span.
    assert!(keys.contains(&AttributeKey::ServiceName));
}

#[test]
fn no_environment_label_can_reach_the_resource() {
    // There is no parameter for it, which is the assertion. This test exists so that adding one
    // breaks a test named after the reason not to.
    let keys: Vec<_> = resource("0.1.0", "18.4")
        .attributes()
        .into_iter()
        .map(|a| a.key.otel_name())
        .collect();
    assert!(!keys.iter().any(|k| k.contains("environment")));
    assert!(!keys.iter().any(|k| k.contains("deployment")));
}

#[test]
fn a_resource_lists_its_attributes_in_one_order() {
    let id = Uuid::parse_str("0199a0e4-0000-7000-8000-000000000001").expect("valid");
    let resource = UsageResource::new(
        Service::Client,
        Platform::Ios,
        DeviceClass::Phone,
        id,
        "0.1.0",
        None,
        "18.4",
    );
    assert_eq!(resource.service(), Service::Client);
    assert_eq!(resource.instance(), id);
    let keys: Vec<_> = resource.attributes().into_iter().map(|a| a.key).collect();
    assert!(!keys.contains(&AttributeKey::AppBuild));
    assert_eq!(keys[0], AttributeKey::ServiceName);
    assert_eq!(
        resource.attributes()[1],
        Attribute::identifier(AttributeKey::ServiceInstanceId, id)
    );
}

// The encoding.

fn value(json: &Json) -> Value {
    match json {
        Json::Text(s) => Value::String(s.clone()),
        Json::Number(n) => Value::from(*n),
        Json::List(items) => Value::Array(items.iter().map(value).collect()),
        Json::Object(fields) => Value::Object(
            fields
                .iter()
                .map(|(k, v)| (k.clone(), value(v)))
                .collect::<serde_json::Map<String, Value>>(),
        ),
    }
}

fn export(resource: &UsageResource, traces: &[UsageTrace]) -> Value {
    value(&export_trace_request(resource, traces))
}

fn fixed_resource() -> UsageResource {
    UsageResource::new(
        Service::Client,
        Platform::Ios,
        DeviceClass::Phone,
        Uuid::parse_str("0199a0e4-0000-7000-8000-000000000001").expect("valid"),
        "0.1.0",
        Some(26),
        "18.4",
    )
}

fn nanos(total: i64) -> Timestamp {
    Timestamp::from_timestamp(total / 1_000_000_000, (total % 1_000_000_000) as u32)
        .expect("an instant")
}

/// A trace with deterministic ids and timestamps, so assertions can be exact.
fn fixed_trace() -> UsageTrace {
    let started = nanos(1_773_230_000_123_456_789);
    let mut trace = UsageTrace::new(TraceId::from_bytes([0x11; 16]));
    let root = SpanId::from_bytes([0x22; 8]);
    trace.spans.push(RecordedSpan {
        id: root,
        parent: None,
        started,
        ended: nanos(1_773_230_000_123_456_789 + 412_000_000),
        payload: UsageSpan::ClientPoll {
            outcome: Outcome::Success,
            backend: BackendKind::Signoz,
            hosts: 12,
            rules: 3,
            alerts_firing: 1,
        },
    });
    trace.spans.push(RecordedSpan {
        id: SpanId::from_bytes([0x33; 8]),
        parent: Some(root),
        started,
        ended: nanos(1_773_230_000_123_456_789 + 388_000_000),
        payload: UsageSpan::ClientGather {
            outcome: Outcome::Success,
            status_class: HttpStatusClass::of(200),
            series_returned: 24,
        },
    });
    trace
}

fn spans_of(body: &Value) -> &Vec<Value> {
    body["resourceSpans"][0]["scopeSpans"][0]["spans"]
        .as_array()
        .expect("spans array")
}

#[test]
fn ids_are_hex_strings_of_the_right_length() {
    let body = export(&fixed_resource(), &[fixed_trace()]);
    let span = &spans_of(&body)[0];
    assert_eq!(span["traceId"], Value::String("11".repeat(16)));
    assert_eq!(span["spanId"], Value::String("22".repeat(8)));
    assert_eq!(span["traceId"].as_str().expect("string").len(), 32);
    assert_eq!(span["spanId"].as_str().expect("string").len(), 16);
}

#[test]
fn a_root_omits_parent_span_id_and_a_child_carries_it() {
    let body = export(&fixed_resource(), &[fixed_trace()]);
    let spans = spans_of(&body);
    assert!(
        spans[0].get("parentSpanId").is_none(),
        "a root must omit the field, not zero it"
    );
    assert_eq!(spans[1]["parentSpanId"], Value::String("22".repeat(8)));
}

#[test]
fn timestamps_are_decimal_strings_with_nanosecond_precision_intact() {
    let body = export(&fixed_resource(), &[fixed_trace()]);
    let span = &spans_of(&body)[0];
    // The low digits are the assertion: a float64 round trip would lose them.
    assert_eq!(
        span["startTimeUnixNano"],
        Value::String("1773230000123456789".to_owned())
    );
    assert!(span["startTimeUnixNano"].is_string());
}

#[test]
fn counts_are_decimal_strings_because_int_value_is_an_int64() {
    let body = export(&fixed_resource(), &[fixed_trace()]);
    let attributes = spans_of(&body)[0]["attributes"]
        .as_array()
        .expect("attributes")
        .clone();
    let hosts = attributes
        .iter()
        .find(|a| a["key"] == "pessimal.hosts.count")
        .expect("present");
    assert_eq!(hosts["value"]["intValue"], Value::String("12".to_owned()));
}

#[test]
fn kind_and_status_are_integers() {
    let body = export(&fixed_resource(), &[fixed_trace()]);
    let spans = spans_of(&body);
    assert_eq!(spans[0]["kind"], Value::from(1), "internal");
    assert_eq!(spans[1]["kind"], Value::from(3), "client");
    assert_eq!(spans[0]["status"]["code"], Value::from(1), "ok");
}

#[test]
fn a_failing_outcome_marks_the_span_as_an_error() {
    let started = nanos(1_773_230_000_000_000_000);
    let mut trace = UsageTrace::new(TraceId::from_bytes([0x44; 16]));
    trace.spans.push(RecordedSpan {
        id: SpanId::from_bytes([0x55; 8]),
        parent: None,
        started,
        ended: started,
        payload: UsageSpan::ClientGather {
            outcome: Outcome::Unauthorized,
            status_class: HttpStatusClass::of(401),
            series_returned: 0,
        },
    });
    let body = export(&fixed_resource(), &[trace]);
    assert_eq!(spans_of(&body)[0]["status"]["code"], Value::from(2));
}

#[test]
fn a_span_with_no_outcome_leaves_the_status_unset() {
    let started = nanos(1_773_230_000_000_000_000);
    let mut trace = UsageTrace::new(TraceId::from_bytes([0x66; 16]));
    trace.spans.push(RecordedSpan {
        id: SpanId::from_bytes([0x77; 8]),
        parent: None,
        started,
        ended: started,
        payload: UsageSpan::ClientPlan {
            requests_planned: 20,
        },
    });
    let body = export(&fixed_resource(), &[trace]);
    assert_eq!(spans_of(&body)[0]["status"]["code"], Value::from(0));
}

#[test]
fn a_status_never_carries_a_message() {
    // The message field is where a backend's error body would end up if anyone ever reached for
    // it. There must be no precedent for it in the encoder.
    let body = export(&fixed_resource(), &[fixed_trace()]);
    for span in spans_of(&body) {
        assert!(
            span["status"].get("message").is_none(),
            "a status carried a message"
        );
    }
}

#[test]
fn every_emitted_key_is_on_the_allowlist() {
    // The regression guard for the whole design. If a future span type invents a key, this fails
    // before it reaches anyone's backend.
    let permitted: Vec<&str> = AttributeKey::ALL.iter().map(|k| k.otel_name()).collect();
    let body = export(&fixed_resource(), &[fixed_trace()]);

    let mut seen = Vec::new();
    for attribute in body["resourceSpans"][0]["resource"]["attributes"]
        .as_array()
        .expect("resource attributes")
    {
        seen.push(attribute["key"].as_str().expect("string").to_owned());
    }
    for span in spans_of(&body) {
        for attribute in span["attributes"].as_array().expect("attributes") {
            seen.push(attribute["key"].as_str().expect("string").to_owned());
        }
    }

    assert!(!seen.is_empty());
    for key in seen {
        assert!(
            permitted.contains(&key.as_str()),
            "{key} is not allowlisted"
        );
    }
}

#[test]
fn the_scope_names_pessimals_own_instrumentation() {
    let body = export(&fixed_resource(), &[fixed_trace()]);
    assert_eq!(
        body["resourceSpans"][0]["scopeSpans"][0]["scope"]["name"],
        Value::String("pessimal.usage".to_owned())
    );
    assert_eq!(SCOPE_NAME, "pessimal.usage");
    assert_eq!(
        body["resourceSpans"][0]["scopeSpans"][0]["scope"]["version"],
        Value::String(SCOPE_VERSION.to_owned())
    );
}

#[test]
fn every_span_of_every_trace_is_exported_in_order() {
    let body = export(
        &fixed_resource(),
        &[fixed_trace(), fixed_trace(), UsageTrace::new(TraceId::new())],
    );
    let ids: Vec<&str> = spans_of(&body)
        .iter()
        .map(|s| s["spanId"].as_str().expect("string"))
        .collect();
    let two = "22".repeat(8);
    let three = "33".repeat(8);
    assert_eq!(ids, vec![&two, &three, &two, &three]);
}

#[test]
fn an_instant_whose_nanoseconds_do_not_fit_is_sent_as_zero() {
    assert_eq!(unix_nanos(nanos(5)), "5");
    let far = Timestamp::from_timestamp(9_223_372_037, 0).expect("an instant");
    assert_eq!(unix_nanos(far), "0");
}

#[test]
fn an_identifier_and_a_version_are_sent_as_strings() {
    let body = export(&fixed_resource(), &[]);
    let attributes = body["resourceSpans"][0]["resource"]["attributes"]
        .as_array()
        .expect("attributes")
        .clone();
    let find = |key: &str| {
        attributes
            .iter()
            .find(|a| a["key"] == key)
            .expect("present")["value"]
            .clone()
    };
    assert_eq!(
        find("service.instance.id")["stringValue"],
        "0199a0e4-0000-7000-8000-000000000001"
    );
    assert_eq!(find("service.version")["stringValue"], "0.1.0");
    assert_eq!(find("service.name")["stringValue"], "pessimal-client");
}
