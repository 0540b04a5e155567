//! Settings sync, in shapes that cross the boundary. The documents cross as the text
//! they were encoded in, and nothing here reads them.

use crate::client::settings::{
    SettingsEdit, SettingsSyncError, SettingsSyncStatus, SettingsSyncStep, SyncedSettings,
};
use crate::ffi::convert::FfiError;
use vstd::prelude::*;

verus! {

/// The three synced values as the device stores them. `None` is a value that is not
/// stored.
#[derive(Debug, Clone, PartialEq, Eq)]
pub struct SyncedSettingsRecord {
    pub environment: Option<String>,
    pub poll_interval_seconds: Option<i64>,
    /// A JSON array of alert rules.
    pub rules_json: Option<String>,
}

impl SyncedSettingsRecord {
    /// The record that restates some settings.
    pub open spec fn restating(settings: SyncedSettings) -> SyncedSettingsRecord {
        SyncedSettingsRecord {
            environment: settings.environment,
            poll_interval_seconds: settings.poll_interval_seconds,
            rules_json: settings.rules_json,
        }
    }

    /// The settings that a record restates.
    pub open spec fn restated(self) -> SyncedSettings {
        SyncedSettings {
            environment: self.environment,
            poll_interval_seconds: self.poll_interval_seconds,
            rules_json: self.rules_json,
        }
    }
}

impl vstd::std_specs::convert::FromSpecImpl<SyncedSettings> for SyncedSettingsRecord {
    open spec fn obeys_from_spec() -> bool {
        true
    }

    open spec fn from_spec(settings: SyncedSettings) -> SyncedSettingsRecord {
        SyncedSettingsRecord::restating(settings)
    }
}

impl From<SyncedSettings> for SyncedSettingsRecord {
    fn from(settings: SyncedSettings) -> SyncedSettingsRecord {
        SyncedSettingsRecord {
            environment: settings.environment,
            poll_interval_seconds: settings.poll_interval_seconds,
            rules_json: settings.rules_json,
        }
    }
}

impl vstd::std_specs::convert::FromSpecImpl<SyncedSettingsRecord> for SyncedSettings {
    open spec fn obeys_from_spec() -> bool {
        true
    }

    open spec fn from_spec(record: SyncedSettingsRecord) -> SyncedSettings {
        record.restated()
    }
}

impl From<SyncedSettingsRecord> for SyncedSettings {
    fn from(record: SyncedSettingsRecord) -> SyncedSettings {
        SyncedSettings {
            environment: record.environment,
            poll_interval_seconds: record.poll_interval_seconds,
            rules_json: record.rules_json,
        }
    }
}

/// Settings and their record restate each other.
pub proof fn synced_settings_records_round_trip(
    value: SyncedSettings,
    record: SyncedSettingsRecord,
)
    ensures
        SyncedSettingsRecord::restating(value).restated() == value,
        SyncedSettingsRecord::restating(record.restated()) == record,
{
}

/// What one sync round found.
#[derive(Debug, Clone, PartialEq, Eq)]
pub enum SettingsSyncStatusRecord {
    UpToDate,
    PausedNewerFormat { format: u64 },
    RemoteReplaced,
    RemoteUnreadable,
    TooLarge { bytes: u64 },
    BootstrapDeferred { message: String },
}

impl SettingsSyncStatusRecord {
    /// The record that restates a status.
    pub open spec fn restating(status: SettingsSyncStatus) -> SettingsSyncStatusRecord {
        match status {
            SettingsSyncStatus::UpToDate => SettingsSyncStatusRecord::UpToDate,
            SettingsSyncStatus::PausedNewerFormat { format } => {
                SettingsSyncStatusRecord::PausedNewerFormat { format }
            },
            SettingsSyncStatus::RemoteReplaced => SettingsSyncStatusRecord::RemoteReplaced,
            SettingsSyncStatus::RemoteUnreadable => SettingsSyncStatusRecord::RemoteUnreadable,
            SettingsSyncStatus::TooLarge { bytes } => SettingsSyncStatusRecord::TooLarge { bytes },
            SettingsSyncStatus::BootstrapDeferred { message } => {
                SettingsSyncStatusRecord::BootstrapDeferred { message }
            },
        }
    }
}

impl vstd::std_specs::convert::FromSpecImpl<SettingsSyncStatus> for SettingsSyncStatusRecord {
    open spec fn obeys_from_spec() -> bool {
        true
    }

    open spec fn from_spec(status: SettingsSyncStatus) -> SettingsSyncStatusRecord {
        SettingsSyncStatusRecord::restating(status)
    }
}

impl From<SettingsSyncStatus> for SettingsSyncStatusRecord {
    fn from(status: SettingsSyncStatus) -> SettingsSyncStatusRecord {
        match status {
            SettingsSyncStatus::UpToDate => SettingsSyncStatusRecord::UpToDate,
            SettingsSyncStatus::PausedNewerFormat { format } => {
                SettingsSyncStatusRecord::PausedNewerFormat { format }
            },
            SettingsSyncStatus::RemoteReplaced => SettingsSyncStatusRecord::RemoteReplaced,
            SettingsSyncStatus::RemoteUnreadable => SettingsSyncStatusRecord::RemoteUnreadable,
            SettingsSyncStatus::TooLarge { bytes } => SettingsSyncStatusRecord::TooLarge { bytes },
            SettingsSyncStatus::BootstrapDeferred { message } => {
                SettingsSyncStatusRecord::BootstrapDeferred { message }
            },
        }
    }
}

/// The decisions of one sync round.
#[derive(Debug, Clone, PartialEq, Eq)]
pub struct SettingsSyncStepRecord {
    /// The device's new merged copy. Persist it before anything else.
    pub replica_document: Option<String>,
    /// The text to write to the mailbox, if any.
    pub publish_document: Option<String>,
    /// The values to store and apply.
    pub settings: SyncedSettingsRecord,
    pub status: SettingsSyncStatusRecord,
    /// Live rules that are not applied.
    pub hidden_rule_count: u32,
    /// The reasons for synced values that were refused.
    pub rejected: Vec<String>,
    /// The digest to store once `publish_document` is written.
    pub replaced_digest: Option<String>,
}

impl SettingsSyncStepRecord {
    /// The record that restates a step.
    pub open spec fn restating(step: SettingsSyncStep) -> SettingsSyncStepRecord {
        SettingsSyncStepRecord {
            replica_document: step.replica_document,
            publish_document: step.publish_document,
            settings: SyncedSettingsRecord::restating(step.settings),
            status: SettingsSyncStatusRecord::restating(step.status),
            hidden_rule_count: step.hidden_rule_count,
            rejected: step.rejected,
            replaced_digest: step.replaced_digest,
        }
    }
}

impl vstd::std_specs::convert::FromSpecImpl<SettingsSyncStep> for SettingsSyncStepRecord {
    open spec fn obeys_from_spec() -> bool {
        true
    }

    open spec fn from_spec(step: SettingsSyncStep) -> SettingsSyncStepRecord {
        SettingsSyncStepRecord::restating(step)
    }
}

impl From<SettingsSyncStep> for SettingsSyncStepRecord {
    fn from(step: SettingsSyncStep) -> SettingsSyncStepRecord {
        SettingsSyncStepRecord {
            replica_document: step.replica_document,
            publish_document: step.publish_document,
            settings: SyncedSettingsRecord::from(step.settings),
            status: SettingsSyncStatusRecord::from(step.status),
            hidden_rule_count: step.hidden_rule_count,
            rejected: step.rejected,
            replaced_digest: step.replaced_digest,
        }
    }
}

/// The result of a local save.
#[derive(Debug, Clone, PartialEq, Eq)]
pub struct SettingsSyncEditRecord {
    /// The device's new merged copy. Persist it before anything else.
    pub replica_document: String,
    /// The values to store and apply.
    pub settings: SyncedSettingsRecord,
}

impl SettingsSyncEditRecord {
    /// The record that restates an edit.
    pub open spec fn restating(edit: SettingsEdit) -> SettingsSyncEditRecord {
        SettingsSyncEditRecord {
            replica_document: edit.replica_document,
            settings: SyncedSettingsRecord::restating(edit.settings),
        }
    }
}

impl vstd::std_specs::convert::FromSpecImpl<SettingsEdit> for SettingsSyncEditRecord {
    open spec fn obeys_from_spec() -> bool {
        true
    }

    open spec fn from_spec(edit: SettingsEdit) -> SettingsSyncEditRecord {
        SettingsSyncEditRecord::restating(edit)
    }
}

impl From<SettingsEdit> for SettingsSyncEditRecord {
    fn from(edit: SettingsEdit) -> SettingsSyncEditRecord {
        SettingsSyncEditRecord {
            replica_document: edit.replica_document,
            settings: SyncedSettingsRecord::from(edit.settings),
        }
    }
}

/// A failed save as the boundary's error: a refusal keeps its variant and message, and
/// running out of stamps is a fault, under the sentence the client core has for it.
pub fn sync_error_to_ffi(error: SettingsSyncError, exhausted: &str) -> (r: FfiError)
    ensures
        match error {
            SettingsSyncError::Refused(refusal) => r.restates_client(refusal),
            SettingsSyncError::StampSpaceExhausted => r is Internal && r.message_text()
                == exhausted@,
        },
{
    match error {
        SettingsSyncError::Refused(refusal) => FfiError::from(refusal),
        SettingsSyncError::StampSpaceExhausted => FfiError::Internal {
            message: exhausted.to_owned(),
        },
    }
}

/// The answer to a local save as the boundary carries it.
pub fn settings_sync_record_edits(
    answer: Result<SettingsEdit, SettingsSyncError>,
    exhausted: &str,
) -> (r: Result<SettingsSyncEditRecord, FfiError>)
    ensures
        match answer {
            Ok(edit) => r == Ok::<SettingsSyncEditRecord, FfiError>(
                SettingsSyncEditRecord::restating(edit),
            ),
            Err(SettingsSyncError::Refused(refusal)) => r matches Err(e) && e.restates_client(
                refusal,
            ),
            Err(SettingsSyncError::StampSpaceExhausted) => r matches Err(e) && e is Internal
                && e.message_text() == exhausted@,
        },
{
    match answer {
        Ok(edit) => Ok(SettingsSyncEditRecord::from(edit)),
        Err(error) => Err(sync_error_to_ffi(error, exhausted)),
    }
}

/// Settings cross under their own names, both ways.
pub proof fn synced_settings_keep_their_names(value: SyncedSettings, record: SyncedSettingsRecord)
    ensures
        SyncedSettingsRecord::restating(value).environment == value.environment,
        SyncedSettingsRecord::restating(value).poll_interval_seconds
            == value.poll_interval_seconds,
        SyncedSettingsRecord::restating(value).rules_json == value.rules_json,
        record.restated().environment == record.environment,
        record.restated().poll_interval_seconds == record.poll_interval_seconds,
        record.restated().rules_json == record.rules_json,
{
}

/// A status crosses as the kind it is, with what it carries.
pub proof fn sync_statuses_keep_their_kind(status: SettingsSyncStatus)
    ensures
        ({
            let record = SettingsSyncStatusRecord::restating(status);
            &&& record is UpToDate <==> status is UpToDate
            &&& record is PausedNewerFormat <==> status is PausedNewerFormat
            &&& record is RemoteReplaced <==> status is RemoteReplaced
            &&& record is RemoteUnreadable <==> status is RemoteUnreadable
            &&& record is TooLarge <==> status is TooLarge
            &&& record is BootstrapDeferred <==> status is BootstrapDeferred
            &&& status is PausedNewerFormat ==> record->format == status->format
            &&& status is TooLarge ==> record->bytes == status->bytes
            &&& status is BootstrapDeferred ==> record->message == status->message
        }),
{
}

/// A step and an edit cross under their own names: what the replica keeps is never what
/// is to be published.
pub proof fn sync_steps_keep_their_names(step: SettingsSyncStep, edit: SettingsEdit)
    ensures
        ({
            let record = SettingsSyncStepRecord::restating(step);
            &&& record.replica_document == step.replica_document
            &&& record.publish_document == step.publish_document
            &&& record.settings.restated() == step.settings
            &&& record.status == SettingsSyncStatusRecord::restating(step.status)
            &&& record.hidden_rule_count == step.hidden_rule_count
            &&& record.rejected == step.rejected
            &&& record.replaced_digest == step.replaced_digest
        }),
        SettingsSyncEditRecord::restating(edit).replica_document == edit.replica_document,
        SettingsSyncEditRecord::restating(edit).settings.restated() == edit.settings,
{
}

} // verus!
