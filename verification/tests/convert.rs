use std::mem::discriminant;

use pessimal::client::error::ClientError;
use pessimal::domain::error::CoreError;
use pessimal::domain::host::HostId;
use pessimal::domain::urn::Urn;
use pessimal::ffi::convert::{
    attributes_from_records, attributes_to_records, callback_fault, count_to_u32,
    datetime_to_millis,
    duration_to_seconds, host_id_from_string, host_id_to_string, millis_to_datetime,
    optional_datetime_to_millis, optional_millis_to_datetime, seconds_to_duration,
    urn_from_string, urn_to_string, AttributeRecord, FfiError,
};
use pessimal::text_map::TextMap;
use pessimal::time::{TimeDelta, Timestamp};

fn at() -> Timestamp {
    Timestamp::from_timestamp_millis(1_757_000_000_123).expect("a valid fixture instant")
}

/// Every [`ClientError`] variant, once, paired with the [`FfiError`] it must become. The fold
/// below names each variant, and the bitmask catches one forgotten in the list.
fn client_error_fixtures() -> Vec<(ClientError, FfiError)> {
    let fixtures = vec![
        (
            ClientError::InvalidTuning("interval".to_owned()),
            FfiError::InvalidTuning {
                message: "interval".to_owned(),
            },
        ),
        (
            ClientError::InvalidConfig("endpoint".to_owned()),
            FfiError::InvalidConfig {
                message: "endpoint".to_owned(),
            },
        ),
        (
            ClientError::InvalidRule("threshold".to_owned()),
            FfiError::InvalidRule {
                message: "threshold".to_owned(),
            },
        ),
        (
            ClientError::InvalidUrn("bad urn".to_owned()),
            FfiError::InvalidUrn {
                message: "bad urn".to_owned(),
            },
        ),
        (
            ClientError::InvalidTimeRange("bad range".to_owned()),
            FfiError::InvalidTimeRange {
                message: "bad range".to_owned(),
            },
        ),
        (
            ClientError::UnknownMetric("no.such.metric".to_owned()),
            FfiError::UnknownMetric {
                message: "no.such.metric".to_owned(),
            },
        ),
        (
            ClientError::RuleNotFound("missing".to_owned()),
            FfiError::RuleNotFound {
                message: "missing".to_owned(),
            },
        ),
        (
            ClientError::UnknownHost("web-9".to_owned()),
            FfiError::UnknownHost {
                message: "web-9".to_owned(),
            },
        ),
        (
            ClientError::Backend("500 from SigNoz".to_owned()),
            FfiError::Backend {
                message: "500 from SigNoz".to_owned(),
            },
        ),
        (
            ClientError::Unauthorized,
            FfiError::Unauthorized {
                message: "not authorised for the telemetry backend".to_owned(),
            },
        ),
        (
            ClientError::Unreachable("dns failure".to_owned()),
            FfiError::Unreachable {
                message: "dns failure".to_owned(),
            },
        ),
    ];

    let covered = fixtures
        .iter()
        .map(|(error, _)| match error {
            ClientError::InvalidTuning(_) => 0b0000_0000_0000_0001_u16,
            ClientError::InvalidConfig(_) => 0b0000_0000_0000_0010,
            ClientError::InvalidRule(_) => 0b0000_0000_0000_0100,
            ClientError::InvalidUrn(_) => 0b0000_0000_0000_1000,
            ClientError::InvalidTimeRange(_) => 0b0000_0000_0001_0000,
            ClientError::UnknownMetric(_) => 0b0000_0000_0010_0000,
            ClientError::RuleNotFound(_) => 0b0000_0000_0100_0000,
            ClientError::UnknownHost(_) => 0b0000_0000_1000_0000,
            ClientError::Backend(_) => 0b0000_0001_0000_0000,
            ClientError::Unauthorized => 0b0000_0010_0000_0000,
            ClientError::Unreachable(_) => 0b0000_0100_0000_0000,
        })
        .fold(0_u16, |seen, bit| seen | bit);
    assert_eq!(
        covered, 0b0000_0111_1111_1111,
        "the fixture list must name every ClientError variant exactly once"
    );

    fixtures
}

/// Every [`CoreError`] variant, once. Same construction, same reason.
fn core_error_fixtures() -> Vec<(CoreError, FfiError)> {
    let fixtures = vec![
        (
            CoreError::InvalidUrn("bad urn".to_owned()),
            FfiError::InvalidUrn {
                message: "bad urn".to_owned(),
            },
        ),
        (
            CoreError::InvalidRule("bad rule".to_owned()),
            FfiError::InvalidRule {
                message: "bad rule".to_owned(),
            },
        ),
        (
            CoreError::InvalidTimeRange("bad range".to_owned()),
            FfiError::InvalidTimeRange {
                message: "bad range".to_owned(),
            },
        ),
        (
            CoreError::UnknownMetric("no.such.metric".to_owned()),
            FfiError::UnknownMetric {
                message: "no.such.metric".to_owned(),
            },
        ),
        (
            CoreError::RuleNotFound("missing".to_owned()),
            FfiError::RuleNotFound {
                message: "missing".to_owned(),
            },
        ),
        (
            CoreError::Backend("500 from SigNoz".to_owned()),
            FfiError::Backend {
                message: "500 from SigNoz".to_owned(),
            },
        ),
        (
            CoreError::Unauthorized,
            FfiError::Unauthorized {
                message: "not authorised for the telemetry backend".to_owned(),
            },
        ),
        (
            CoreError::Unreachable("dns failure".to_owned()),
            FfiError::Unreachable {
                message: "dns failure".to_owned(),
            },
        ),
    ];

    let covered = fixtures
        .iter()
        .map(|(error, _)| match error {
            CoreError::InvalidUrn(_) => 0b0000_0001_u8,
            CoreError::InvalidRule(_) => 0b0000_0010,
            CoreError::InvalidTimeRange(_) => 0b0000_0100,
            CoreError::UnknownMetric(_) => 0b0000_1000,
            CoreError::RuleNotFound(_) => 0b0001_0000,
            CoreError::Backend(_) => 0b0010_0000,
            CoreError::Unauthorized => 0b0100_0000,
            CoreError::Unreachable(_) => 0b1000_0000,
        })
        .fold(0_u8, |seen, bit| seen | bit);
    assert_eq!(
        covered,
        u8::MAX,
        "the fixture list must name every CoreError variant exactly once"
    );

    fixtures
}

/// Every [`FfiError`] variant, once, so the `Display` test below cannot silently skip one.
fn every_ffi_error() -> Vec<FfiError> {
    let all = vec![
        FfiError::InvalidTuning {
            message: "tuning".to_owned(),
        },
        FfiError::InvalidConfig {
            message: "config".to_owned(),
        },
        FfiError::InvalidRule {
            message: "rule".to_owned(),
        },
        FfiError::InvalidUrn {
            message: "urn".to_owned(),
        },
        FfiError::InvalidTimeRange {
            message: "range".to_owned(),
        },
        FfiError::UnknownMetric {
            message: "metric".to_owned(),
        },
        FfiError::RuleNotFound {
            message: "rule-id".to_owned(),
        },
        FfiError::UnknownHost {
            message: "host".to_owned(),
        },
        FfiError::Backend {
            message: "backend".to_owned(),
        },
        FfiError::Unauthorized {
            message: "unauthorised".to_owned(),
        },
        FfiError::Unreachable {
            message: "unreachable".to_owned(),
        },
        FfiError::NotInitialized {
            message: "no session".to_owned(),
        },
        FfiError::Internal {
            message: "bridge fault".to_owned(),
        },
    ];

    let covered = all
        .iter()
        .map(|error| match error {
            FfiError::InvalidTuning { .. } => 0b0000_0000_0000_0001_u16,
            FfiError::InvalidConfig { .. } => 0b0000_0000_0000_0010,
            FfiError::InvalidRule { .. } => 0b0000_0000_0000_0100,
            FfiError::InvalidUrn { .. } => 0b0000_0000_0000_1000,
            FfiError::InvalidTimeRange { .. } => 0b0000_0000_0001_0000,
            FfiError::UnknownMetric { .. } => 0b0000_0000_0010_0000,
            FfiError::RuleNotFound { .. } => 0b0000_0000_0100_0000,
            FfiError::UnknownHost { .. } => 0b0000_0000_1000_0000,
            FfiError::Backend { .. } => 0b0000_0001_0000_0000,
            FfiError::Unauthorized { .. } => 0b0000_0010_0000_0000,
            FfiError::Unreachable { .. } => 0b0000_0100_0000_0000,
            FfiError::NotInitialized { .. } => 0b0000_1000_0000_0000,
            FfiError::Internal { .. } => 0b0001_0000_0000_0000,
        })
        .fold(0_u16, |seen, bit| seen | bit);
    assert_eq!(
        covered, 0b0001_1111_1111_1111,
        "the list must name every FfiError variant exactly once"
    );

    all
}

#[test]
fn every_client_error_variant_converts_to_its_ffi_counterpart() {
    for (error, expected) in client_error_fixtures() {
        let rendered = format!("{error:?}");
        assert_eq!(
            FfiError::from(error),
            expected,
            "converting a client error rendered as {rendered}"
        );
    }
}

/// A copy-paste slip that mapped two client errors onto one FFI variant would still satisfy
/// the fixture table above if the expectations were edited to match. Distinctness is the
/// property that actually matters: the Swift side routes on the variant, so two client
/// failures that collapse into one case are two banners the app can no longer tell apart.
#[test]
fn no_two_client_errors_collapse_onto_the_same_ffi_variant() {
    let variants: Vec<_> = client_error_fixtures()
        .into_iter()
        .map(|(error, _)| discriminant(&FfiError::from(error)))
        .collect();

    for (index, variant) in variants.iter().enumerate() {
        assert!(
            !variants[index + 1..].contains(variant),
            "two ClientError variants map to the same FfiError variant"
        );
    }
}

#[test]
fn every_core_error_variant_converts_to_its_ffi_counterpart() {
    for (error, expected) in core_error_fixtures() {
        let rendered = error.to_string();
        assert_eq!(
            FfiError::from(error),
            expected,
            "converting a core error rendered as {rendered}"
        );
    }
}

/// The client error that a domain error is restated as.
fn as_client(error: CoreError) -> ClientError {
    match error {
        CoreError::InvalidUrn(m) => ClientError::InvalidUrn(m),
        CoreError::InvalidRule(m) => ClientError::InvalidRule(m),
        CoreError::InvalidTimeRange(m) => ClientError::InvalidTimeRange(m),
        CoreError::UnknownMetric(m) => ClientError::UnknownMetric(m),
        CoreError::RuleNotFound(m) => ClientError::RuleNotFound(m),
        CoreError::Backend(m) => ClientError::Backend(m),
        CoreError::Unauthorized => ClientError::Unauthorized,
        CoreError::Unreachable(m) => ClientError::Unreachable(m),
    }
}

/// The conversion from a domain error and the route through a client error are separate, so
/// nothing but this test, and the law it samples, stops them drifting.
#[test]
fn the_direct_core_conversion_agrees_with_the_route_through_client_error() {
    for ((error, _), (again, _)) in core_error_fixtures()
        .into_iter()
        .zip(core_error_fixtures())
    {
        let rendered = format!("{error:?}");
        let direct = FfiError::from(error);
        let two_hop = FfiError::from(as_client(again));
        assert_eq!(direct, two_hop, "the two routes disagree for {rendered}");
    }
}

/// Every variant must render something a human can read: an empty banner is worse than a
/// wrong one, because it looks like the app has no opinion.
#[test]
fn every_ffi_error_renders_its_message() {
    for error in every_ffi_error() {
        let rendered = error.to_string();
        assert!(!rendered.is_empty(), "{error:?} renders as nothing");
        let message = match &error {
            FfiError::InvalidTuning { message }
            | FfiError::InvalidConfig { message }
            | FfiError::InvalidRule { message }
            | FfiError::InvalidUrn { message }
            | FfiError::InvalidTimeRange { message }
            | FfiError::UnknownMetric { message }
            | FfiError::RuleNotFound { message }
            | FfiError::UnknownHost { message }
            | FfiError::Backend { message }
            | FfiError::Unauthorized { message }
            | FfiError::Unreachable { message }
            | FfiError::NotInitialized { message }
            | FfiError::Internal { message } => message,
        };
        assert!(
            rendered.contains(message.as_str()),
            "{error:?} drops its message when rendered"
        );
    }
}

#[test]
fn an_instant_round_trips_through_epoch_millis() {
    let instant = at();
    assert_eq!(
        millis_to_datetime(datetime_to_millis(instant)).expect("a fixture instant is in range"),
        instant
    );
    assert_eq!(datetime_to_millis(instant), 1_757_000_000_123);
}

#[test]
fn an_out_of_range_instant_is_an_error_rather_than_a_panic() {
    for millis in [i64::MIN, i64::MAX] {
        let error = millis_to_datetime(millis).expect_err("out of range must not convert");
        assert!(
            matches!(error, FfiError::Internal { .. }),
            "{error:?} should be Internal: an unrepresentable instant is a bridge fault"
        );
    }
}

#[test]
fn an_optional_instant_keeps_the_difference_between_never_and_the_epoch() {
    assert_eq!(optional_datetime_to_millis(None), None);
    assert_eq!(
        optional_millis_to_datetime(None).expect("None converts"),
        None
    );

    let epoch = Timestamp::from_timestamp_millis(0).expect("the epoch is representable");
    assert_eq!(optional_datetime_to_millis(Some(epoch)), Some(0));
    assert_eq!(
        optional_millis_to_datetime(Some(0)).expect("the epoch converts"),
        Some(epoch)
    );

    assert!(optional_millis_to_datetime(Some(i64::MAX)).is_err());
}

#[test]
fn a_duration_round_trips_through_seconds() {
    for duration in [
        TimeDelta::seconds(0),
        TimeDelta::seconds(30),
        TimeDelta::seconds(300),
        TimeDelta::seconds(-90),
    ] {
        assert_eq!(
            seconds_to_duration(duration_to_seconds(duration)).expect("in range"),
            duration
        );
    }
}

#[test]
fn a_sub_second_duration_truncates_toward_zero() {
    assert_eq!(duration_to_seconds(TimeDelta::milliseconds(1_999)), 1);
    let back = Timestamp::from_timestamp_millis(0)
        .expect("the epoch")
        .signed_duration_since(Timestamp::from_timestamp_millis(1_999).expect("an instant"));
    assert_eq!(duration_to_seconds(back), -1);
}

#[test]
fn an_out_of_range_duration_is_an_error_rather_than_a_panic() {
    for seconds in [i64::MIN, i64::MAX] {
        let error = seconds_to_duration(seconds).expect_err("out of range must not convert");
        assert!(
            matches!(error, FfiError::Internal { .. }),
            "{error:?} should be Internal: an unrepresentable duration is a bridge fault"
        );
    }
}

#[test]
fn a_urn_round_trips_through_its_string() {
    let urn = Urn::new("prod", "agent", "host").expect("valid segments");
    assert_eq!(
        urn_from_string(&urn_to_string(&urn)).expect("its own rendering parses"),
        urn
    );
}

#[test]
fn an_unparseable_urn_carries_the_domains_own_message() {
    let error = urn_from_string("not-a-urn").expect_err("a bare word is not a URN");
    let FfiError::InvalidUrn { message } = &error else {
        panic!("{error:?} should be InvalidUrn");
    };
    assert!(
        message.contains("segments"),
        "the domain's message should survive, got {message}"
    );
}

#[test]
fn a_host_id_round_trips_through_its_string() {
    let id = HostId::new("web-1.eu-west-1");
    assert_eq!(host_id_from_string(host_id_to_string(&id)), id);
    assert_eq!(host_id_to_string(&id), "web-1.eu-west-1");
}

#[test]
fn attributes_round_trip_in_key_order() {
    let mut attributes = TextMap::new();
    attributes.insert("mountpoint".to_owned(), "/".to_owned());
    attributes.insert("device".to_owned(), "disk0s1".to_owned());
    attributes.insert("type".to_owned(), "apfs".to_owned());

    let records = attributes_to_records(&attributes);
    assert_eq!(
        records.iter().map(|r| r.key.as_str()).collect::<Vec<_>>(),
        ["device", "mountpoint", "type"],
        "records must come out in key order"
    );
    assert_eq!(attributes_from_records(records), attributes);
}

/// The determinism that diffing on screen depends on: whatever order the records come back in,
/// the next `to_records` produces the same `Vec`.
#[test]
fn records_from_swift_are_reordered_into_the_canonical_sequence() {
    let scrambled = || vec![
        AttributeRecord {
            key: "type".to_owned(),
            value: "apfs".to_owned(),
        },
        AttributeRecord {
            key: "device".to_owned(),
            value: "disk0s1".to_owned(),
        },
        AttributeRecord {
            key: "mountpoint".to_owned(),
            value: "/".to_owned(),
        },
    ];

    let canonical = attributes_to_records(&attributes_from_records(scrambled()));
    assert_eq!(
        canonical.iter().map(|r| r.key.as_str()).collect::<Vec<_>>(),
        ["device", "mountpoint", "type"]
    );

    let mut reversed = scrambled();
    reversed.reverse();
    assert_eq!(
        attributes_to_records(&attributes_from_records(reversed)),
        canonical,
        "the canonical sequence must not depend on the inbound order"
    );
}

#[test]
fn a_duplicated_attribute_key_keeps_the_last_value() {
    let records = vec![
        AttributeRecord {
            key: "device".to_owned(),
            value: "first".to_owned(),
        },
        AttributeRecord {
            key: "device".to_owned(),
            value: "last".to_owned(),
        },
    ];
    assert_eq!(
        attributes_from_records(records)
            .get("device")
            .map(String::as_str),
        Some("last")
    );
}

#[test]
fn an_empty_attribute_map_round_trips_as_an_empty_vec() {
    assert!(attributes_to_records(&TextMap::new()).is_empty());
    assert!(attributes_from_records(Vec::new()).is_empty());
}

#[test]
fn a_count_saturates_rather_than_wrapping_or_panicking() {
    assert_eq!(count_to_u32(0), 0);
    assert_eq!(count_to_u32(42), 42);
    assert_eq!(count_to_u32(u32::MAX as usize), u32::MAX);
    assert_eq!(count_to_u32(usize::MAX), u32::MAX);
}

#[test]
fn what_cannot_be_converted_is_named() {
    assert_eq!(
        millis_to_datetime(i64::MAX),
        Err(FfiError::Internal {
            message: "9223372036854775807 ms since the epoch is not a representable instant"
                .to_owned(),
        })
    );
    assert_eq!(
        seconds_to_duration(i64::MIN),
        Err(FfiError::Internal {
            message: "-9223372036854775808 s is not a representable duration".to_owned(),
        })
    );
}

#[test]
fn each_error_is_introduced_by_its_kind() {
    let rendered: Vec<String> = every_ffi_error().iter().map(FfiError::to_string).collect();
    let mut distinct = rendered.clone();
    distinct.sort();
    distinct.dedup();
    assert_eq!(distinct.len(), rendered.len());
    assert_eq!(
        CoreError::Unreachable("x".to_owned()).to_string(),
        "telemetry backend is unreachable: x"
    );
}

#[test]
fn an_unexpected_callback_error_becomes_internal() {
    let unexpected = uniffi::UnexpectedUniFFICallbackError::new("swift threw something else");
    assert_eq!(
        FfiError::from(unexpected),
        FfiError::Internal {
            message: "swift threw something else".to_owned(),
        }
    );
    assert_eq!(
        callback_fault("x".to_owned()),
        FfiError::Internal {
            message: "x".to_owned()
        }
    );
}
