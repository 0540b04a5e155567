//! Settings that devices share, and what one round of sharing decided.

use crate::client::error::ClientError;
use vstd::prelude::*;

verus! {

/// The three synced values as a device stores them. `None` is a value that is not
/// stored.
#[derive(Debug, Clone, PartialEq, Eq)]
pub struct SyncedSettings {
    pub environment: Option<String>,
    pub poll_interval_seconds: Option<i64>,
    pub rules_json: Option<String>,
}

/// What one sync round found.
#[derive(Debug, Clone, PartialEq, Eq)]
pub enum SettingsSyncStatus {
    UpToDate,
    PausedNewerFormat { format: u64 },
    RemoteReplaced,
    RemoteUnreadable,
    TooLarge { bytes: u64 },
    BootstrapDeferred { message: String },
}

/// The decisions of one sync round.
#[derive(Debug, Clone, PartialEq, Eq)]
pub struct SettingsSyncStep {
    pub replica_document: Option<String>,
    pub publish_document: Option<String>,
    pub settings: SyncedSettings,
    pub status: SettingsSyncStatus,
    pub hidden_rule_count: u32,
    pub rejected: Vec<String>,
    pub replaced_digest: Option<String>,
}

/// The result of a local save.
#[derive(Debug, Clone, PartialEq, Eq)]
pub struct SettingsEdit {
    pub replica_document: String,
    pub settings: SyncedSettings,
}

/// Why a local save failed.
#[derive(Debug, Clone, PartialEq, Eq)]
pub enum SettingsSyncError {
    /// An edited value was refused.
    Refused(ClientError),
    /// No stamp is left to order another edit.
    StampSpaceExhausted,
}

} // verus!
