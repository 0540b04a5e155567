use pessimal::client::error::ClientError;
use pessimal::client::settings::{
    SettingsEdit, SettingsSyncError, SettingsSyncStatus, SettingsSyncStep, SyncedSettings,
};
use pessimal::ffi::convert::FfiError;
use pessimal::ffi::settings_sync_records::{
    settings_sync_record_edits, sync_error_to_ffi, SettingsSyncEditRecord,
    SettingsSyncStatusRecord, SettingsSyncStepRecord, SyncedSettingsRecord,
};

const EXHAUSTED: &str = "no stamp is left";

fn record(
    environment: Option<&str>,
    poll_interval_seconds: Option<i64>,
    rules_json: Option<&str>,
) -> SyncedSettingsRecord {
    SyncedSettingsRecord {
        environment: environment.map(str::to_owned),
        poll_interval_seconds,
        rules_json: rules_json.map(str::to_owned),
    }
}

fn settings(environment: &str) -> SyncedSettings {
    SyncedSettings {
        environment: Some(environment.to_owned()),
        poll_interval_seconds: Some(30),
        rules_json: Some("[]".to_owned()),
    }
}

#[test]
fn synced_settings_cross_in_both_directions_unchanged() {
    let originals = || {
        [
            record(None, None, None),
            record(Some(""), Some(0), Some("")),
            record(Some("production"), Some(30), Some("[]")),
        ]
    };
    for (original, again) in originals().into_iter().zip(originals()) {
        let core = SyncedSettings::from(again);
        assert_eq!(core.environment, original.environment);
        assert_eq!(core.poll_interval_seconds, original.poll_interval_seconds);
        assert_eq!(core.rules_json, original.rules_json);
        assert_eq!(SyncedSettingsRecord::from(core), original);
    }
}

#[test]
fn every_status_crosses_with_its_payload() {
    let pairs = [
        (
            SettingsSyncStatus::UpToDate,
            SettingsSyncStatusRecord::UpToDate,
        ),
        (
            SettingsSyncStatus::PausedNewerFormat { format: 7 },
            SettingsSyncStatusRecord::PausedNewerFormat { format: 7 },
        ),
        (
            SettingsSyncStatus::RemoteReplaced,
            SettingsSyncStatusRecord::RemoteReplaced,
        ),
        (
            SettingsSyncStatus::RemoteUnreadable,
            SettingsSyncStatusRecord::RemoteUnreadable,
        ),
        (
            SettingsSyncStatus::TooLarge { bytes: 70_000 },
            SettingsSyncStatusRecord::TooLarge { bytes: 70_000 },
        ),
        (
            SettingsSyncStatus::BootstrapDeferred {
                message: "no rules".to_owned(),
            },
            SettingsSyncStatusRecord::BootstrapDeferred {
                message: "no rules".to_owned(),
            },
        ),
    ];
    for (core, expected) in pairs {
        assert_eq!(SettingsSyncStatusRecord::from(core), expected);
    }
}

#[test]
fn a_step_record_carries_every_field_of_cores_step() {
    let step = SettingsSyncStep {
        replica_document: Some("{\"é\":\"日本\\n\\\"\",\"tab\":\"\t\"}".to_owned()),
        publish_document: Some("{}".to_owned()),
        settings: settings("production"),
        status: SettingsSyncStatus::TooLarge { bytes: 70_000 },
        hidden_rule_count: 2,
        rejected: vec!["first".to_owned(), "second".to_owned()],
        replaced_digest: Some("00ff".to_owned()),
    };
    assert_eq!(
        SettingsSyncStepRecord::from(step),
        SettingsSyncStepRecord {
            replica_document: Some("{\"é\":\"日本\\n\\\"\",\"tab\":\"\t\"}".to_owned()),
            publish_document: Some("{}".to_owned()),
            settings: record(Some("production"), Some(30), Some("[]")),
            status: SettingsSyncStatusRecord::TooLarge { bytes: 70_000 },
            hidden_rule_count: 2,
            rejected: vec!["first".to_owned(), "second".to_owned()],
            replaced_digest: Some("00ff".to_owned()),
        }
    );
}

#[test]
fn documents_cross_byte_for_byte() {
    let text = "{\"format\":1,\"é\":\"日本\\n\"}";
    let edit = settings_sync_record_edits(
        Ok(SettingsEdit {
            replica_document: text.to_owned(),
            settings: settings("staging"),
        }),
        EXHAUSTED,
    )
    .expect("the edit is accepted");
    assert_eq!(
        edit,
        SettingsSyncEditRecord {
            replica_document: text.to_owned(),
            settings: record(Some("staging"), Some(30), Some("[]")),
        }
    );
}

#[test]
fn a_refused_edit_carries_cores_variant_and_message() {
    let cases = [
        (
            ClientError::InvalidConfig("environment".to_owned()),
            FfiError::InvalidConfig {
                message: "environment".to_owned(),
            },
        ),
        (
            ClientError::InvalidTuning("interval".to_owned()),
            FfiError::InvalidTuning {
                message: "interval".to_owned(),
            },
        ),
        (
            ClientError::InvalidRule("rules".to_owned()),
            FfiError::InvalidRule {
                message: "rules".to_owned(),
            },
        ),
    ];
    for (refusal, expected) in cases {
        let error = settings_sync_record_edits(Err(SettingsSyncError::Refused(refusal)), EXHAUSTED)
            .expect_err("the edit is refused");
        assert_eq!(error, expected);
    }
}

#[test]
fn exhausted_stamps_cross_as_an_internal_error() {
    let expected = || FfiError::Internal {
        message: EXHAUSTED.to_owned(),
    };
    assert_eq!(
        sync_error_to_ffi(SettingsSyncError::StampSpaceExhausted, EXHAUSTED),
        expected()
    );
    let error = settings_sync_record_edits(Err(SettingsSyncError::StampSpaceExhausted), EXHAUSTED)
        .expect_err("no stamp is left");
    assert_eq!(error, expected());
}
