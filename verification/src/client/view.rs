//! What the screens draw: a fleet, its hosts, their metrics and alerts, and how much
//! the picture deserves to be believed.

use crate::client::config::TuningWarning;
use crate::client::error::PollFailure;
use crate::client::fold::AlertPhase;
use crate::domain::alert::Comparator;
use crate::domain::host::{HostId, OsFamily};
use crate::domain::liveness::Liveness;
use crate::domain::metric::{MetricKind, MetricPoint, MetricUnit};
use crate::domain::urn::Urn;
use crate::number::Number;
use crate::text_map::TextMap;
use crate::time::{TimeDelta, Timestamp};
use vstd::prelude::*;

verus! {

/// How much attention something wants.
#[derive(Debug, Clone, Copy, PartialEq, Eq, Hash, Structural)]
pub enum Severity {
    Clear,
    Unknown,
    Warning,
    Critical,
}

/// Whether a metric's values are there, and why not.
#[derive(Debug, Clone, Copy, PartialEq, Eq, Hash, Structural)]
pub enum MetricAvailability {
    Present,
    NotReported,
    Unsupported,
    Unavailable,
}

/// Whether an agent's sampling works.
#[derive(Debug, Clone, Copy, PartialEq, Eq, Structural)]
pub enum CollectionHealth {
    Healthy,
    /// So many failures were added over so long.
    Failing { added: Number, over: TimeDelta },
    Unknown,
}

/// Whether an alert is still being judged on fresh samples.
#[derive(Debug, Clone, Copy, PartialEq, Eq, Structural)]
pub enum AlertEvidence {
    Fresh,
    Frozen { since: Timestamp },
}

/// How much a picture deserves to be believed at some instant.
#[allow(inconsistent_fields)]
#[derive(Debug, Clone, PartialEq, Eq)]
pub enum Freshness {
    Fresh { at: Timestamp },
    Idle { last_success: Timestamp },
    Degraded {
        last_success: Timestamp,
        consecutive_failures: u32,
        failure: Option<PollFailure>,
    },
    Unusable {
        last_success: Option<Timestamp>,
        consecutive_failures: u32,
        failure: Option<PollFailure>,
    },
}

/// What is fixed about a metric.
#[derive(Debug, Clone, PartialEq, Eq)]
pub struct MetricFacts {
    pub kind: MetricKind,
    pub display_name: String,
    pub unit: MetricUnit,
    pub is_rate: bool,
    pub alertable: bool,
}

/// What freshness is computed from.
#[derive(Debug, Clone, PartialEq, Eq)]
pub struct FreshnessInputs {
    pub as_of: Option<Timestamp>,
    pub last_clean_at: Option<Timestamp>,
    /// The last poll with a listed roster, whatever the series did.
    pub last_roster_at: Option<Timestamp>,
    pub consecutive_failures: u32,
    pub last_failure: Option<PollFailure>,
    pub polled_this_session: bool,
    pub tolerance: TimeDelta,
    pub budget: TimeDelta,
}

/// One charted series.
#[derive(Debug, Clone, PartialEq, Eq)]
pub struct MetricView {
    pub id: String,
    pub kind: MetricKind,
    pub unit: MetricUnit,
    pub display_name: String,
    pub label: Option<String>,
    pub attributes: TextMap,
    pub latest: Option<MetricPoint>,
    pub points: Vec<MetricPoint>,
    pub availability: MetricAvailability,
    pub is_rate: bool,
    pub expected_step: TimeDelta,
    pub resets: Vec<Timestamp>,
    pub fetched_at: Option<Timestamp>,
}

/// One host.
#[derive(Debug, Clone, PartialEq, Eq)]
pub struct HostView {
    pub id: HostId,
    pub os: OsFamily,
    pub agent_version: Option<String>,
    pub last_heartbeat: Option<Timestamp>,
    pub liveness: Liveness,
    pub liveness_at: Timestamp,
    pub severity: Severity,
    pub collection: CollectionHealth,
    pub metrics: Vec<MetricView>,
    pub firing_alerts: u32,
    pub pending_alerts: u32,
    pub in_current_roster: bool,
    pub id_is_placeholder: bool,
}

/// How many hosts stand where.
#[derive(Debug, Clone, Copy, PartialEq, Eq, Structural)]
pub struct FleetCounts {
    pub hosts: u32,
    pub alive: u32,
    pub stale: u32,
    pub down: u32,
    pub unknown: u32,
    pub firing_alerts: u32,
    pub pending_alerts: u32,
}

/// One alert on one host.
#[derive(Debug, Clone, PartialEq, Eq)]
pub struct AlertView {
    pub id: String,
    pub rule_id: Urn,
    pub rule_name: String,
    pub description: String,
    pub host: HostId,
    pub metric: MetricKind,
    pub comparator: Comparator,
    pub threshold: Number,
    pub phase: AlertPhase,
    pub severity: Severity,
    pub breaching_since: Option<Timestamp>,
    pub fires_at: Option<Timestamp>,
    pub latest_value: Option<Number>,
    pub series_label: Option<String>,
    pub evidence: AlertEvidence,
    pub is_rate: bool,
    pub invalid_reason: Option<String>,
}

/// The whole fleet.
#[derive(Debug, Clone, PartialEq, Eq)]
pub struct FleetView {
    pub backend_name: String,
    pub as_of: Option<Timestamp>,
    pub freshness: FreshnessInputs,
    pub severity: Severity,
    pub hosts: Vec<HostView>,
    pub alerts: Vec<AlertView>,
    pub counts: FleetCounts,
    pub warnings: Vec<TuningWarning>,
}

} // verus!
