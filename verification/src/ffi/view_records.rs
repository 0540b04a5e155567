//! What the screens draw, in shapes that cross the boundary.
//!
//! Every record is a restatement of a client value, field for field: instants as epoch
//! milliseconds, spans as whole seconds, names as strings.

use crate::client::error::PollFailure;
use crate::client::fold::AlertPhase;
use crate::client::view::{
    AlertEvidence, AlertView, CollectionHealth, FleetCounts, FleetView, Freshness,
    FreshnessInputs, HostView, MetricAvailability, MetricFacts, MetricView, Severity,
};
use crate::domain::host::OsFamily;
use crate::domain::liveness::Liveness;
use crate::domain::metric::{MetricPoint, MetricUnit};
use crate::ffi::config_records;
use crate::ffi::config_records::{
    warnings_to_records, ComparatorRecord, MetricKindRecord, TuningWarningRecord,
};
use crate::ffi::convert;
use crate::ffi::convert::{
    attributes_to_records, datetime_to_millis, duration_to_seconds, host_id_to_string,
    millis_to_datetime, optional_datetime_to_millis, optional_millis_to_datetime,
    seconds_to_duration, urn_to_string, AttributeRecord, FfiError,
};
use crate::ffi::fold_records;
use crate::ffi::fold_records::PollFailureRecord;
use crate::number::Number;
use crate::text;
use crate::text_map;
use crate::time::{TimeDelta, Timestamp};
use vstd::prelude::*;

verus! {

/// The unit a metric's values carry.
#[derive(Debug, Clone, Copy, PartialEq, Eq, Hash, Structural)]
pub enum MetricUnitRecord {
    Ratio,
    Bytes,
    Seconds,
    Count,
    Load,
}

impl MetricUnitRecord {
    /// The record that restates a value.
    pub open spec fn restating(value: MetricUnit) -> MetricUnitRecord {
        match value {
            MetricUnit::Ratio => MetricUnitRecord::Ratio,
            MetricUnit::Bytes => MetricUnitRecord::Bytes,
            MetricUnit::Seconds => MetricUnitRecord::Seconds,
            MetricUnit::Count => MetricUnitRecord::Count,
            MetricUnit::Load => MetricUnitRecord::Load,
        }
    }

    /// The value that a record restates.
    pub open spec fn restated(self) -> MetricUnit {
        match self {
            MetricUnitRecord::Ratio => MetricUnit::Ratio,
            MetricUnitRecord::Bytes => MetricUnit::Bytes,
            MetricUnitRecord::Seconds => MetricUnit::Seconds,
            MetricUnitRecord::Count => MetricUnit::Count,
            MetricUnitRecord::Load => MetricUnit::Load,
        }
    }
}

impl vstd::std_specs::convert::FromSpecImpl<MetricUnit> for MetricUnitRecord {
    open spec fn obeys_from_spec() -> bool {
        true
    }

    open spec fn from_spec(value: MetricUnit) -> MetricUnitRecord {
        MetricUnitRecord::restating(value)
    }
}

impl From<MetricUnit> for MetricUnitRecord {
    fn from(value: MetricUnit) -> MetricUnitRecord {
        match value {
            MetricUnit::Ratio => MetricUnitRecord::Ratio,
            MetricUnit::Bytes => MetricUnitRecord::Bytes,
            MetricUnit::Seconds => MetricUnitRecord::Seconds,
            MetricUnit::Count => MetricUnitRecord::Count,
            MetricUnit::Load => MetricUnitRecord::Load,
        }
    }
}

impl vstd::std_specs::convert::FromSpecImpl<MetricUnitRecord> for MetricUnit {
    open spec fn obeys_from_spec() -> bool {
        true
    }

    open spec fn from_spec(record: MetricUnitRecord) -> MetricUnit {
        record.restated()
    }
}

impl From<MetricUnitRecord> for MetricUnit {
    fn from(record: MetricUnitRecord) -> MetricUnit {
        match record {
            MetricUnitRecord::Ratio => MetricUnit::Ratio,
            MetricUnitRecord::Bytes => MetricUnit::Bytes,
            MetricUnitRecord::Seconds => MetricUnit::Seconds,
            MetricUnitRecord::Count => MetricUnit::Count,
            MetricUnitRecord::Load => MetricUnit::Load,
        }
    }
}

/// Every metric unit and its record restate each other.
pub proof fn metric_unit_records_round_trip(value: MetricUnit, record: MetricUnitRecord)
    ensures
        MetricUnitRecord::restating(value).restated() == value,
        MetricUnitRecord::restating(record.restated()) == record,
{
}

/// The operating system family a host runs.
#[derive(Debug, Clone, Copy, PartialEq, Eq, Hash, Structural)]
pub enum OsFamilyRecord {
    Linux,
    Darwin,
    Windows,
    Other,
}

impl OsFamilyRecord {
    /// The record that restates a value.
    pub open spec fn restating(value: OsFamily) -> OsFamilyRecord {
        match value {
            OsFamily::Linux => OsFamilyRecord::Linux,
            OsFamily::Darwin => OsFamilyRecord::Darwin,
            OsFamily::Windows => OsFamilyRecord::Windows,
            OsFamily::Other => OsFamilyRecord::Other,
        }
    }

    /// The value that a record restates.
    pub open spec fn restated(self) -> OsFamily {
        match self {
            OsFamilyRecord::Linux => OsFamily::Linux,
            OsFamilyRecord::Darwin => OsFamily::Darwin,
            OsFamilyRecord::Windows => OsFamily::Windows,
            OsFamilyRecord::Other => OsFamily::Other,
        }
    }
}

impl vstd::std_specs::convert::FromSpecImpl<OsFamily> for OsFamilyRecord {
    open spec fn obeys_from_spec() -> bool {
        true
    }

    open spec fn from_spec(value: OsFamily) -> OsFamilyRecord {
        OsFamilyRecord::restating(value)
    }
}

impl From<OsFamily> for OsFamilyRecord {
    fn from(value: OsFamily) -> OsFamilyRecord {
        match value {
            OsFamily::Linux => OsFamilyRecord::Linux,
            OsFamily::Darwin => OsFamilyRecord::Darwin,
            OsFamily::Windows => OsFamilyRecord::Windows,
            OsFamily::Other => OsFamilyRecord::Other,
        }
    }
}

impl vstd::std_specs::convert::FromSpecImpl<OsFamilyRecord> for OsFamily {
    open spec fn obeys_from_spec() -> bool {
        true
    }

    open spec fn from_spec(record: OsFamilyRecord) -> OsFamily {
        record.restated()
    }
}

impl From<OsFamilyRecord> for OsFamily {
    fn from(record: OsFamilyRecord) -> OsFamily {
        match record {
            OsFamilyRecord::Linux => OsFamily::Linux,
            OsFamilyRecord::Darwin => OsFamily::Darwin,
            OsFamilyRecord::Windows => OsFamily::Windows,
            OsFamilyRecord::Other => OsFamily::Other,
        }
    }
}

/// Every os family and its record restate each other.
pub proof fn os_family_records_round_trip(value: OsFamily, record: OsFamilyRecord)
    ensures
        OsFamilyRecord::restating(value).restated() == value,
        OsFamilyRecord::restating(record.restated()) == record,
{
}

/// How alive a host looks.
#[derive(Debug, Clone, Copy, PartialEq, Eq, Hash, Structural)]
pub enum LivenessRecord {
    Alive,
    Stale,
    Down,
    Unknown,
}

impl LivenessRecord {
    /// The record that restates a value.
    pub open spec fn restating(value: Liveness) -> LivenessRecord {
        match value {
            Liveness::Alive => LivenessRecord::Alive,
            Liveness::Stale => LivenessRecord::Stale,
            Liveness::Down => LivenessRecord::Down,
            Liveness::Unknown => LivenessRecord::Unknown,
        }
    }

    /// The value that a record restates.
    pub open spec fn restated(self) -> Liveness {
        match self {
            LivenessRecord::Alive => Liveness::Alive,
            LivenessRecord::Stale => Liveness::Stale,
            LivenessRecord::Down => Liveness::Down,
            LivenessRecord::Unknown => Liveness::Unknown,
        }
    }
}

impl vstd::std_specs::convert::FromSpecImpl<Liveness> for LivenessRecord {
    open spec fn obeys_from_spec() -> bool {
        true
    }

    open spec fn from_spec(value: Liveness) -> LivenessRecord {
        LivenessRecord::restating(value)
    }
}

impl From<Liveness> for LivenessRecord {
    fn from(value: Liveness) -> LivenessRecord {
        match value {
            Liveness::Alive => LivenessRecord::Alive,
            Liveness::Stale => LivenessRecord::Stale,
            Liveness::Down => LivenessRecord::Down,
            Liveness::Unknown => LivenessRecord::Unknown,
        }
    }
}

impl vstd::std_specs::convert::FromSpecImpl<LivenessRecord> for Liveness {
    open spec fn obeys_from_spec() -> bool {
        true
    }

    open spec fn from_spec(record: LivenessRecord) -> Liveness {
        record.restated()
    }
}

impl From<LivenessRecord> for Liveness {
    fn from(record: LivenessRecord) -> Liveness {
        match record {
            LivenessRecord::Alive => Liveness::Alive,
            LivenessRecord::Stale => Liveness::Stale,
            LivenessRecord::Down => Liveness::Down,
            LivenessRecord::Unknown => Liveness::Unknown,
        }
    }
}

/// Every liveness and its record restate each other.
pub proof fn liveness_records_round_trip(value: Liveness, record: LivenessRecord)
    ensures
        LivenessRecord::restating(value).restated() == value,
        LivenessRecord::restating(record.restated()) == record,
{
}

/// How much attention something wants.
#[derive(Debug, Clone, Copy, PartialEq, Eq, Hash, Structural)]
pub enum SeverityRecord {
    Clear,
    Unknown,
    Warning,
    Critical,
}

impl SeverityRecord {
    /// The record that restates a value.
    pub open spec fn restating(value: Severity) -> SeverityRecord {
        match value {
            Severity::Clear => SeverityRecord::Clear,
            Severity::Unknown => SeverityRecord::Unknown,
            Severity::Warning => SeverityRecord::Warning,
            Severity::Critical => SeverityRecord::Critical,
        }
    }

    /// The value that a record restates.
    pub open spec fn restated(self) -> Severity {
        match self {
            SeverityRecord::Clear => Severity::Clear,
            SeverityRecord::Unknown => Severity::Unknown,
            SeverityRecord::Warning => Severity::Warning,
            SeverityRecord::Critical => Severity::Critical,
        }
    }
}

impl vstd::std_specs::convert::FromSpecImpl<Severity> for SeverityRecord {
    open spec fn obeys_from_spec() -> bool {
        true
    }

    open spec fn from_spec(value: Severity) -> SeverityRecord {
        SeverityRecord::restating(value)
    }
}

impl From<Severity> for SeverityRecord {
    fn from(value: Severity) -> SeverityRecord {
        match value {
            Severity::Clear => SeverityRecord::Clear,
            Severity::Unknown => SeverityRecord::Unknown,
            Severity::Warning => SeverityRecord::Warning,
            Severity::Critical => SeverityRecord::Critical,
        }
    }
}

impl vstd::std_specs::convert::FromSpecImpl<SeverityRecord> for Severity {
    open spec fn obeys_from_spec() -> bool {
        true
    }

    open spec fn from_spec(record: SeverityRecord) -> Severity {
        record.restated()
    }
}

impl From<SeverityRecord> for Severity {
    fn from(record: SeverityRecord) -> Severity {
        match record {
            SeverityRecord::Clear => Severity::Clear,
            SeverityRecord::Unknown => Severity::Unknown,
            SeverityRecord::Warning => Severity::Warning,
            SeverityRecord::Critical => Severity::Critical,
        }
    }
}

/// Every severity and its record restate each other.
pub proof fn severity_records_round_trip(value: Severity, record: SeverityRecord)
    ensures
        SeverityRecord::restating(value).restated() == value,
        SeverityRecord::restating(record.restated()) == record,
{
}

/// Whether a metric's values are there, and why not.
#[derive(Debug, Clone, Copy, PartialEq, Eq, Hash, Structural)]
pub enum MetricAvailabilityRecord {
    Present,
    NotReported,
    Unsupported,
    Unavailable,
}

impl MetricAvailabilityRecord {
    /// The record that restates a value.
    pub open spec fn restating(value: MetricAvailability) -> MetricAvailabilityRecord {
        match value {
            MetricAvailability::Present => MetricAvailabilityRecord::Present,
            MetricAvailability::NotReported => MetricAvailabilityRecord::NotReported,
            MetricAvailability::Unsupported => MetricAvailabilityRecord::Unsupported,
            MetricAvailability::Unavailable => MetricAvailabilityRecord::Unavailable,
        }
    }

    /// The value that a record restates.
    pub open spec fn restated(self) -> MetricAvailability {
        match self {
            MetricAvailabilityRecord::Present => MetricAvailability::Present,
            MetricAvailabilityRecord::NotReported => MetricAvailability::NotReported,
            MetricAvailabilityRecord::Unsupported => MetricAvailability::Unsupported,
            MetricAvailabilityRecord::Unavailable => MetricAvailability::Unavailable,
        }
    }
}

impl vstd::std_specs::convert::FromSpecImpl<MetricAvailability> for MetricAvailabilityRecord {
    open spec fn obeys_from_spec() -> bool {
        true
    }

    open spec fn from_spec(value: MetricAvailability) -> MetricAvailabilityRecord {
        MetricAvailabilityRecord::restating(value)
    }
}

impl From<MetricAvailability> for MetricAvailabilityRecord {
    fn from(value: MetricAvailability) -> MetricAvailabilityRecord {
        match value {
            MetricAvailability::Present => MetricAvailabilityRecord::Present,
            MetricAvailability::NotReported => MetricAvailabilityRecord::NotReported,
            MetricAvailability::Unsupported => MetricAvailabilityRecord::Unsupported,
            MetricAvailability::Unavailable => MetricAvailabilityRecord::Unavailable,
        }
    }
}

impl vstd::std_specs::convert::FromSpecImpl<MetricAvailabilityRecord> for MetricAvailability {
    open spec fn obeys_from_spec() -> bool {
        true
    }

    open spec fn from_spec(record: MetricAvailabilityRecord) -> MetricAvailability {
        record.restated()
    }
}

impl From<MetricAvailabilityRecord> for MetricAvailability {
    fn from(record: MetricAvailabilityRecord) -> MetricAvailability {
        match record {
            MetricAvailabilityRecord::Present => MetricAvailability::Present,
            MetricAvailabilityRecord::NotReported => MetricAvailability::NotReported,
            MetricAvailabilityRecord::Unsupported => MetricAvailability::Unsupported,
            MetricAvailabilityRecord::Unavailable => MetricAvailability::Unavailable,
        }
    }
}

/// Every metric availability and its record restate each other.
pub proof fn metric_availability_records_round_trip(
    value: MetricAvailability,
    record: MetricAvailabilityRecord,
)
    ensures
        MetricAvailabilityRecord::restating(value).restated() == value,
        MetricAvailabilityRecord::restating(record.restated()) == record,
{
}

/// Where an alert stands.
#[derive(Debug, Clone, Copy, PartialEq, Eq, Hash, Structural)]
pub enum AlertPhaseRecord {
    Clear,
    Pending,
    Firing,
    NoData,
}

impl AlertPhaseRecord {
    /// The record that restates a value.
    pub open spec fn restating(value: AlertPhase) -> AlertPhaseRecord {
        match value {
            AlertPhase::Clear => AlertPhaseRecord::Clear,
            AlertPhase::Pending => AlertPhaseRecord::Pending,
            AlertPhase::Firing => AlertPhaseRecord::Firing,
            AlertPhase::NoData => AlertPhaseRecord::NoData,
        }
    }

    /// The value that a record restates.
    pub open spec fn restated(self) -> AlertPhase {
        match self {
            AlertPhaseRecord::Clear => AlertPhase::Clear,
            AlertPhaseRecord::Pending => AlertPhase::Pending,
            AlertPhaseRecord::Firing => AlertPhase::Firing,
            AlertPhaseRecord::NoData => AlertPhase::NoData,
        }
    }
}

impl vstd::std_specs::convert::FromSpecImpl<AlertPhase> for AlertPhaseRecord {
    open spec fn obeys_from_spec() -> bool {
        true
    }

    open spec fn from_spec(value: AlertPhase) -> AlertPhaseRecord {
        AlertPhaseRecord::restating(value)
    }
}

impl From<AlertPhase> for AlertPhaseRecord {
    fn from(value: AlertPhase) -> AlertPhaseRecord {
        match value {
            AlertPhase::Clear => AlertPhaseRecord::Clear,
            AlertPhase::Pending => AlertPhaseRecord::Pending,
            AlertPhase::Firing => AlertPhaseRecord::Firing,
            AlertPhase::NoData => AlertPhaseRecord::NoData,
        }
    }
}

impl vstd::std_specs::convert::FromSpecImpl<AlertPhaseRecord> for AlertPhase {
    open spec fn obeys_from_spec() -> bool {
        true
    }

    open spec fn from_spec(record: AlertPhaseRecord) -> AlertPhase {
        record.restated()
    }
}

impl From<AlertPhaseRecord> for AlertPhase {
    fn from(record: AlertPhaseRecord) -> AlertPhase {
        match record {
            AlertPhaseRecord::Clear => AlertPhase::Clear,
            AlertPhaseRecord::Pending => AlertPhase::Pending,
            AlertPhaseRecord::Firing => AlertPhase::Firing,
            AlertPhaseRecord::NoData => AlertPhase::NoData,
        }
    }
}

/// Every alert phase and its record restate each other.
pub proof fn alert_phase_records_round_trip(value: AlertPhase, record: AlertPhaseRecord)
    ensures
        AlertPhaseRecord::restating(value).restated() == value,
        AlertPhaseRecord::restating(record.restated()) == record,
{
}

/// One observation.
#[derive(Debug, Clone, Copy, PartialEq, Eq, Structural)]
pub struct MetricPointRecord {
    pub at_millis: i64,
    pub value: Number,
}

impl MetricPointRecord {
    /// The record that restates a point.
    pub open spec fn restating(point: MetricPoint) -> MetricPointRecord {
        MetricPointRecord { at_millis: convert::millis_of(point.at), value: point.value }
    }
}

impl vstd::std_specs::convert::FromSpecImpl<MetricPoint> for MetricPointRecord {
    open spec fn obeys_from_spec() -> bool {
        true
    }

    open spec fn from_spec(point: MetricPoint) -> MetricPointRecord {
        MetricPointRecord::restating(point)
    }
}

impl From<MetricPoint> for MetricPointRecord {
    fn from(point: MetricPoint) -> MetricPointRecord {
        MetricPointRecord { at_millis: datetime_to_millis(point.at), value: point.value }
    }
}

/// Whether an agent's sampling works.
#[derive(Debug, Clone, Copy, PartialEq, Eq, Structural)]
pub enum CollectionHealthRecord {
    Healthy,
    /// So many failures were added over so many seconds.
    Failing { added: Number, over_seconds: i64 },
    Unknown,
}

impl CollectionHealthRecord {
    /// The record that restates a health.
    pub open spec fn restating(health: CollectionHealth) -> CollectionHealthRecord {
        match health {
            CollectionHealth::Healthy => CollectionHealthRecord::Healthy,
            CollectionHealth::Failing { added, over } => CollectionHealthRecord::Failing {
                added,
                over_seconds: convert::seconds_of(over),
            },
            CollectionHealth::Unknown => CollectionHealthRecord::Unknown,
        }
    }

    /// Whether a health has everything that the record says.
    pub open spec fn describes(self, health: CollectionHealth) -> bool {
        &&& CollectionHealthRecord::restating(health) == self
        &&& health matches CollectionHealth::Failing { over, .. } ==> convert::lasts(
            over,
            self->over_seconds,
        )
    }
}

impl vstd::std_specs::convert::FromSpecImpl<CollectionHealth> for CollectionHealthRecord {
    open spec fn obeys_from_spec() -> bool {
        true
    }

    open spec fn from_spec(health: CollectionHealth) -> CollectionHealthRecord {
        CollectionHealthRecord::restating(health)
    }
}

impl From<CollectionHealth> for CollectionHealthRecord {
    fn from(health: CollectionHealth) -> CollectionHealthRecord {
        match health {
            CollectionHealth::Healthy => CollectionHealthRecord::Healthy,
            CollectionHealth::Failing { added, over } => CollectionHealthRecord::Failing {
                added,
                over_seconds: duration_to_seconds(over),
            },
            CollectionHealth::Unknown => CollectionHealthRecord::Unknown,
        }
    }
}

impl vstd::std_specs::convert::TryFromSpecImpl<CollectionHealthRecord> for CollectionHealth {
    open spec fn obeys_try_from_spec() -> bool {
        false
    }

    open spec fn try_from_spec(record: CollectionHealthRecord) -> Result<CollectionHealth, FfiError> {
        arbitrary()
    }
}

impl TryFrom<CollectionHealthRecord> for CollectionHealth {
    type Error = FfiError;

    fn try_from(record: CollectionHealthRecord) -> (r: Result<CollectionHealth, FfiError>)
        ensures
            r is Ok <==> (record matches CollectionHealthRecord::Failing { over_seconds, .. }
                ==> convert::is_seconds(over_seconds)),
            r matches Ok(health) ==> record.describes(health),
            r matches Err(e) ==> convert::is_seconds_error(e, record->over_seconds),
    {
        match record {
            CollectionHealthRecord::Healthy => Ok(CollectionHealth::Healthy),
            CollectionHealthRecord::Failing { added, over_seconds } => match seconds_to_duration(
                over_seconds,
            ) {
                Ok(over) => Ok(CollectionHealth::Failing { added, over }),
                Err(e) => Err(e),
            },
            CollectionHealthRecord::Unknown => Ok(CollectionHealth::Unknown),
        }
    }
}

/// Whether an alert is still being judged on fresh samples.
#[derive(Debug, Clone, Copy, PartialEq, Eq, Hash, Structural)]
pub enum AlertEvidenceRecord {
    Fresh,
    Frozen { since_millis: i64 },
}

impl AlertEvidenceRecord {
    /// The record that restates evidence.
    pub open spec fn restating(evidence: AlertEvidence) -> AlertEvidenceRecord {
        match evidence {
            AlertEvidence::Fresh => AlertEvidenceRecord::Fresh,
            AlertEvidence::Frozen { since } => AlertEvidenceRecord::Frozen {
                since_millis: convert::millis_of(since),
            },
        }
    }

    /// Whether evidence has everything that the record says.
    pub open spec fn describes(self, evidence: AlertEvidence) -> bool {
        &&& AlertEvidenceRecord::restating(evidence) == self
        &&& evidence matches AlertEvidence::Frozen { since } ==> convert::falls_on(
            since,
            self->since_millis,
        )
    }
}

impl vstd::std_specs::convert::FromSpecImpl<AlertEvidence> for AlertEvidenceRecord {
    open spec fn obeys_from_spec() -> bool {
        true
    }

    open spec fn from_spec(evidence: AlertEvidence) -> AlertEvidenceRecord {
        AlertEvidenceRecord::restating(evidence)
    }
}

impl From<AlertEvidence> for AlertEvidenceRecord {
    fn from(evidence: AlertEvidence) -> AlertEvidenceRecord {
        match evidence {
            AlertEvidence::Fresh => AlertEvidenceRecord::Fresh,
            AlertEvidence::Frozen { since } => AlertEvidenceRecord::Frozen {
                since_millis: datetime_to_millis(since),
            },
        }
    }
}

impl vstd::std_specs::convert::TryFromSpecImpl<AlertEvidenceRecord> for AlertEvidence {
    open spec fn obeys_try_from_spec() -> bool {
        false
    }

    open spec fn try_from_spec(record: AlertEvidenceRecord) -> Result<AlertEvidence, FfiError> {
        arbitrary()
    }
}

impl TryFrom<AlertEvidenceRecord> for AlertEvidence {
    type Error = FfiError;

    fn try_from(record: AlertEvidenceRecord) -> (r: Result<AlertEvidence, FfiError>)
        ensures
            r is Ok <==> (record matches AlertEvidenceRecord::Frozen { since_millis }
                ==> convert::is_millis(since_millis)),
            r matches Ok(evidence) ==> record.describes(evidence),
            r matches Err(e) ==> convert::is_millis_error(e, record->since_millis),
    {
        match record {
            AlertEvidenceRecord::Fresh => Ok(AlertEvidence::Fresh),
            AlertEvidenceRecord::Frozen { since_millis } => match millis_to_datetime(
                since_millis,
            ) {
                Ok(since) => Ok(AlertEvidence::Frozen { since }),
                Err(e) => Err(e),
            },
        }
    }
}

/// How much a picture deserves to be believed at some instant.
#[allow(inconsistent_fields)]
#[derive(Debug, Clone, PartialEq, Eq)]
pub enum FreshnessRecord {
    Fresh { at_millis: i64 },
    Idle { last_success_millis: i64 },
    Degraded {
        last_success_millis: i64,
        consecutive_failures: u32,
        failure: Option<PollFailureRecord>,
    },
    Unusable {
        last_success_millis: Option<i64>,
        consecutive_failures: u32,
        failure: Option<PollFailureRecord>,
    },
}

/// Whether a record that may be missing restates a failure that may be missing.
pub open spec fn restates_failure(
    record: Option<PollFailureRecord>,
    failure: Option<PollFailure>,
) -> bool {
    match failure {
        Some(failure) => record matches Some(record) && record.restates(failure),
        None => record is None,
    }
}

fn failure_to_record(failure: &Option<PollFailure>) -> (r: Option<PollFailureRecord>)
    ensures
        restates_failure(r, *failure),
{
    match failure {
        Some(failure) => Some(PollFailureRecord::from(failure)),
        None => None,
    }
}

/// Whether this is what reading a failure that may be missing comes to.
pub open spec fn reads_failure(
    record: Option<PollFailureRecord>,
    r: Result<Option<PollFailure>, FfiError>,
) -> bool {
    match record {
        None => r == Ok::<Option<PollFailure>, FfiError>(None),
        Some(record) => match r {
            Ok(failure) => failure matches Some(failure) && record.describes(failure),
            Err(e) => !convert::is_millis(record.at_millis) && convert::is_millis_error(
                e,
                record.at_millis,
            ),
        },
    }
}

fn failure_from_record(record: Option<PollFailureRecord>) -> (r: Result<
    Option<PollFailure>,
    FfiError,
>)
    ensures
        reads_failure(record, r),
        r is Ok <==> (record matches Some(record) ==> convert::is_millis(record.at_millis)),
{
    match record {
        None => Ok(None),
        Some(record) => match PollFailure::try_from(record) {
            Ok(failure) => Ok(Some(failure)),
            Err(e) => Err(e),
        },
    }
}

impl FreshnessRecord {
    /// Whether the record restates a freshness.
    pub open spec fn restates(self, freshness: Freshness) -> bool {
        match freshness {
            Freshness::Fresh { at } => self == (FreshnessRecord::Fresh {
                at_millis: convert::millis_of(at),
            }),
            Freshness::Idle { last_success } => self == (FreshnessRecord::Idle {
                last_success_millis: convert::millis_of(last_success),
            }),
            Freshness::Degraded { last_success, consecutive_failures, failure } => {
                &&& self matches FreshnessRecord::Degraded {
                    last_success_millis,
                    consecutive_failures: failures,
                    failure: record,
                }
                &&& last_success_millis == convert::millis_of(last_success)
                &&& failures == consecutive_failures
                &&& restates_failure(record, failure)
            },
            Freshness::Unusable { last_success, consecutive_failures, failure } => {
                &&& self matches FreshnessRecord::Unusable {
                    last_success_millis,
                    consecutive_failures: failures,
                    failure: record,
                }
                &&& last_success_millis == convert::optional_millis_of(last_success)
                &&& failures == consecutive_failures
                &&& restates_failure(record, failure)
            },
        }
    }

    /// Whether a freshness has everything that the record says.
    pub open spec fn describes(self, freshness: Freshness) -> bool {
        match self {
            FreshnessRecord::Fresh { at_millis } => freshness matches Freshness::Fresh { at }
                && convert::falls_on(at, at_millis),
            FreshnessRecord::Idle { last_success_millis } => {
                freshness matches Freshness::Idle { last_success } && convert::falls_on(
                    last_success,
                    last_success_millis,
                )
            },
            FreshnessRecord::Degraded { last_success_millis, consecutive_failures, failure } => {
                &&& freshness matches Freshness::Degraded {
                    last_success,
                    consecutive_failures: failures,
                    failure: read,
                }
                &&& convert::falls_on(last_success, last_success_millis)
                &&& failures == consecutive_failures
                &&& reads_failure(failure, Ok(read))
            },
            FreshnessRecord::Unusable { last_success_millis, consecutive_failures, failure } => {
                &&& freshness matches Freshness::Unusable {
                    last_success,
                    consecutive_failures: failures,
                    failure: read,
                }
                &&& convert::optionally_falls_on(last_success, last_success_millis)
                &&& failures == consecutive_failures
                &&& reads_failure(failure, Ok(read))
            },
        }
    }

    /// The milliseconds of the record that may be at no instant, in the order they are
    /// read.
    pub open spec fn instants(self) -> Seq<i64> {
        match self {
            FreshnessRecord::Fresh { at_millis } => seq![at_millis],
            FreshnessRecord::Idle { last_success_millis } => seq![last_success_millis],
            FreshnessRecord::Degraded { last_success_millis, failure, .. } => seq![
                last_success_millis,
            ] + failure_instants(failure),
            FreshnessRecord::Unusable { last_success_millis, failure, .. } => optional_instants(
                last_success_millis,
            ) + failure_instants(failure),
        }
    }
}

/// The milliseconds of a failure that may be missing.
pub open spec fn failure_instants(failure: Option<PollFailureRecord>) -> Seq<i64> {
    match failure {
        Some(failure) => seq![failure.at_millis],
        None => Seq::empty(),
    }
}

/// Milliseconds that may be missing.
pub open spec fn optional_instants(millis: Option<i64>) -> Seq<i64> {
    match millis {
        Some(millis) => seq![millis],
        None => Seq::empty(),
    }
}

/// Whether an error is that of the first milliseconds at no instant.
pub open spec fn is_first_error(error: FfiError, instants: Seq<i64>) -> bool {
    exists|i: int|
        {
            &&& 0 <= i < instants.len()
            &&& !convert::is_millis(#[trigger] instants[i])
            &&& convert::is_millis_error(error, instants[i])
            &&& forall|k: int| 0 <= k < i ==> convert::is_millis(#[trigger] instants[k])
        }
}

/// Whether every one of some milliseconds is at an instant.
pub open spec fn all_instants(instants: Seq<i64>) -> bool {
    forall|i: int| 0 <= i < instants.len() ==> convert::is_millis(#[trigger] instants[i])
}

impl vstd::std_specs::convert::FromSpecImpl<Freshness> for FreshnessRecord {
    open spec fn obeys_from_spec() -> bool {
        false
    }

    open spec fn from_spec(value: Freshness) -> FreshnessRecord {
        arbitrary()
    }
}

impl From<Freshness> for FreshnessRecord {
    fn from(value: Freshness) -> (r: FreshnessRecord)
        ensures
            r.restates(value),
    {
        match value {
            Freshness::Fresh { at } => FreshnessRecord::Fresh { at_millis: datetime_to_millis(at) },
            Freshness::Idle { last_success } => FreshnessRecord::Idle {
                last_success_millis: datetime_to_millis(last_success),
            },
            Freshness::Degraded { last_success, consecutive_failures, failure } => {
                FreshnessRecord::Degraded {
                    last_success_millis: datetime_to_millis(last_success),
                    consecutive_failures,
                    failure: failure_to_record(&failure),
                }
            },
            Freshness::Unusable { last_success, consecutive_failures, failure } => {
                FreshnessRecord::Unusable {
                    last_success_millis: optional_datetime_to_millis(last_success),
                    consecutive_failures,
                    failure: failure_to_record(&failure),
                }
            },
        }
    }
}

impl vstd::std_specs::convert::TryFromSpecImpl<FreshnessRecord> for Freshness {
    open spec fn obeys_try_from_spec() -> bool {
        false
    }

    open spec fn try_from_spec(record: FreshnessRecord) -> Result<Freshness, FfiError> {
        arbitrary()
    }
}

impl TryFrom<FreshnessRecord> for Freshness {
    type Error = FfiError;

    /// Reads the instants in their order. The first one that is none decides.
    fn try_from(record: FreshnessRecord) -> (r: Result<Freshness, FfiError>)
        ensures
            r is Ok <==> all_instants(record.instants()),
            r matches Ok(freshness) ==> record.describes(freshness),
            r matches Err(e) ==> is_first_error(e, record.instants()),
    {
        let ghost instants = record.instants();
        match record {
            FreshnessRecord::Fresh { at_millis } => match millis_to_datetime(at_millis) {
                Ok(at) => Ok(Freshness::Fresh { at }),
                Err(e) => {
                    assert(!convert::is_millis(instants[0]));
                    Err(e)
                },
            },
            FreshnessRecord::Idle { last_success_millis } => match millis_to_datetime(
                last_success_millis,
            ) {
                Ok(last_success) => Ok(Freshness::Idle { last_success }),
                Err(e) => {
                    assert(!convert::is_millis(instants[0]));
                    Err(e)
                },
            },
            FreshnessRecord::Degraded { last_success_millis, consecutive_failures, failure } => {
                assert(instants[0] == last_success_millis);
                assert(failure matches Some(f) ==> instants[1] == f.at_millis);
                let last_success = match millis_to_datetime(last_success_millis) {
                    Ok(at) => at,
                    Err(e) => {
                        assert(!convert::is_millis(instants[0]));
                        return Err(e);
                    },
                };
                match failure_from_record(failure) {
                    Ok(failure) => Ok(
                        Freshness::Degraded { last_success, consecutive_failures, failure },
                    ),
                    Err(e) => {
                        assert(!convert::is_millis(instants[1]));
                        Err(e)
                    },
                }
            },
            FreshnessRecord::Unusable { last_success_millis, consecutive_failures, failure } => {
                let ghost n = optional_instants(last_success_millis).len();
                assert(last_success_millis matches Some(m) ==> instants[0] == m);
                assert(failure matches Some(f) ==> instants[n as int] == f.at_millis);
                let last_success = match optional_millis_to_datetime(last_success_millis) {
                    Ok(at) => at,
                    Err(e) => {
                        assert(!convert::is_millis(instants[0]));
                        return Err(e);
                    },
                };
                match failure_from_record(failure) {
                    Ok(failure) => Ok(
                        Freshness::Unusable { last_success, consecutive_failures, failure },
                    ),
                    Err(e) => {
                        assert(!convert::is_millis(instants[n as int]));
                        Err(e)
                    },
                }
            },
        }
    }
}

/// What is fixed about a metric.
#[derive(Debug, Clone, PartialEq, Eq)]
pub struct MetricFactsRecord {
    pub kind: MetricKindRecord,
    pub display_name: String,
    pub unit: MetricUnitRecord,
    pub is_rate: bool,
    pub alertable: bool,
}

impl vstd::std_specs::convert::FromSpecImpl<MetricFacts> for MetricFactsRecord {
    open spec fn obeys_from_spec() -> bool {
        false
    }

    open spec fn from_spec(facts: MetricFacts) -> MetricFactsRecord {
        arbitrary()
    }
}

impl From<MetricFacts> for MetricFactsRecord {
    fn from(facts: MetricFacts) -> (r: MetricFactsRecord)
        ensures
            r.kind == MetricKindRecord::restating(facts.kind),
            r.display_name == facts.display_name,
            r.unit == MetricUnitRecord::restating(facts.unit),
            r.is_rate == facts.is_rate,
            r.alertable == facts.alertable,
    {
        MetricFactsRecord {
            kind: MetricKindRecord::from(facts.kind),
            display_name: facts.display_name,
            unit: MetricUnitRecord::from(facts.unit),
            is_rate: facts.is_rate,
            alertable: facts.alertable,
        }
    }
}

/// What freshness is computed from.
#[derive(Debug, Clone, PartialEq, Eq)]
pub struct FreshnessInputsRecord {
    pub as_of_millis: Option<i64>,
    pub last_clean_at_millis: Option<i64>,
    pub last_roster_at_millis: Option<i64>,
    pub consecutive_failures: u32,
    pub last_failure: Option<PollFailureRecord>,
    pub polled_this_session: bool,
    pub tolerance_seconds: i64,
    pub budget_seconds: i64,
}

impl FreshnessInputsRecord {
    /// Whether the record restates some inputs.
    pub open spec fn restates(self, inputs: FreshnessInputs) -> bool {
        &&& self.as_of_millis == convert::optional_millis_of(inputs.as_of)
        &&& self.last_clean_at_millis == convert::optional_millis_of(inputs.last_clean_at)
        &&& self.last_roster_at_millis == convert::optional_millis_of(inputs.last_roster_at)
        &&& self.consecutive_failures == inputs.consecutive_failures
        &&& restates_failure(self.last_failure, inputs.last_failure)
        &&& self.polled_this_session == inputs.polled_this_session
        &&& self.tolerance_seconds == convert::seconds_of(inputs.tolerance)
        &&& self.budget_seconds == convert::seconds_of(inputs.budget)
    }
}

impl vstd::std_specs::convert::FromSpecImpl<FreshnessInputs> for FreshnessInputsRecord {
    open spec fn obeys_from_spec() -> bool {
        false
    }

    open spec fn from_spec(inputs: FreshnessInputs) -> FreshnessInputsRecord {
        arbitrary()
    }
}

impl From<FreshnessInputs> for FreshnessInputsRecord {
    fn from(inputs: FreshnessInputs) -> (r: FreshnessInputsRecord)
        ensures
            r.restates(inputs),
    {
        FreshnessInputsRecord {
            as_of_millis: optional_datetime_to_millis(inputs.as_of),
            last_clean_at_millis: optional_datetime_to_millis(inputs.last_clean_at),
            last_roster_at_millis: optional_datetime_to_millis(inputs.last_roster_at),
            consecutive_failures: inputs.consecutive_failures,
            last_failure: failure_to_record(&inputs.last_failure),
            polled_this_session: inputs.polled_this_session,
            tolerance_seconds: duration_to_seconds(inputs.tolerance),
            budget_seconds: duration_to_seconds(inputs.budget),
        }
    }
}

/// One charted series.
#[derive(Debug, Clone, PartialEq, Eq)]
pub struct MetricViewRecord {
    pub id: String,
    pub kind: MetricKindRecord,
    pub unit: MetricUnitRecord,
    pub display_name: String,
    pub label: Option<String>,
    pub attributes: Vec<AttributeRecord>,
    pub latest: Option<MetricPointRecord>,
    pub points: Vec<MetricPointRecord>,
    pub availability: MetricAvailabilityRecord,
    pub is_rate: bool,
    pub expected_step_seconds: i64,
    pub resets_millis: Vec<i64>,
    pub fetched_at_millis: Option<i64>,
}

/// The record that restates a point that may be missing.
pub open spec fn optional_point(point: Option<MetricPoint>) -> Option<MetricPointRecord> {
    match point {
        Some(point) => Some(MetricPointRecord::restating(point)),
        None => None,
    }
}

/// The records that restate some points, in their order.
pub open spec fn point_records(points: Seq<MetricPoint>) -> Seq<MetricPointRecord> {
    Seq::new(points.len(), |i: int| MetricPointRecord::restating(points[i]))
}

/// Epoch milliseconds of some instants, in their order.
pub open spec fn all_millis(instants: Seq<Timestamp>) -> Seq<i64> {
    Seq::new(instants.len(), |i: int| convert::millis_of(instants[i]))
}

fn points_to_records(points: &Vec<MetricPoint>) -> (r: Vec<MetricPointRecord>)
    ensures
        r@ == point_records(points@),
{
    let mut out: Vec<MetricPointRecord> = Vec::new();
    let mut i: usize = 0;
    while i < points.len()
        invariant
            i <= points@.len(),
            out@ == point_records(points@).take(i as int),
        decreases points@.len() - i,
    {
        out.push(MetricPointRecord::from(points[i]));
        i += 1;
        assert(out@ =~= point_records(points@).take(i as int));
    }
    assert(out@ =~= point_records(points@));
    out
}

fn instants_to_millis(instants: &Vec<Timestamp>) -> (r: Vec<i64>)
    ensures
        r@ == all_millis(instants@),
{
    let mut out: Vec<i64> = Vec::new();
    let mut i: usize = 0;
    while i < instants.len()
        invariant
            i <= instants@.len(),
            out@ == all_millis(instants@).take(i as int),
        decreases instants@.len() - i,
    {
        out.push(datetime_to_millis(instants[i]));
        i += 1;
        assert(out@ =~= all_millis(instants@).take(i as int));
    }
    assert(out@ =~= all_millis(instants@));
    out
}

impl MetricViewRecord {
    /// Whether the record restates a series: its attributes in key order, its points
    /// and resets in their own.
    pub open spec fn restates(self, view: MetricView) -> bool {
        &&& self.id == view.id
        &&& self.kind == MetricKindRecord::restating(view.kind)
        &&& self.unit == MetricUnitRecord::restating(view.unit)
        &&& self.display_name == view.display_name
        &&& self.label == view.label
        &&& text_map::ascending(convert::record_pairs(self.attributes@))
        &&& text_map::map_of(convert::record_pairs(self.attributes@)) == view.attributes@
        &&& self.latest == optional_point(view.latest)
        &&& self.points@ == point_records(view.points@)
        &&& self.availability == MetricAvailabilityRecord::restating(view.availability)
        &&& self.is_rate == view.is_rate
        &&& self.expected_step_seconds == convert::seconds_of(view.expected_step)
        &&& self.resets_millis@ == all_millis(view.resets@)
        &&& self.fetched_at_millis == convert::optional_millis_of(view.fetched_at)
    }
}

impl vstd::std_specs::convert::FromSpecImpl<&MetricView> for MetricViewRecord {
    open spec fn obeys_from_spec() -> bool {
        false
    }

    open spec fn from_spec(view: &MetricView) -> MetricViewRecord {
        arbitrary()
    }
}

impl From<&MetricView> for MetricViewRecord {
    fn from(view: &MetricView) -> (r: MetricViewRecord)
        ensures
            r.restates(*view),
    {
        MetricViewRecord {
            id: view.id.clone(),
            kind: MetricKindRecord::from(view.kind),
            unit: MetricUnitRecord::from(view.unit),
            display_name: view.display_name.clone(),
            label: text::clone_optional(&view.label),
            attributes: attributes_to_records(&view.attributes),
            latest: match view.latest {
                Some(point) => Some(MetricPointRecord::from(point)),
                None => None,
            },
            points: points_to_records(&view.points),
            availability: MetricAvailabilityRecord::from(view.availability),
            is_rate: view.is_rate,
            expected_step_seconds: duration_to_seconds(view.expected_step),
            resets_millis: instants_to_millis(&view.resets),
            fetched_at_millis: optional_datetime_to_millis(view.fetched_at),
        }
    }
}

impl vstd::std_specs::convert::FromSpecImpl<MetricView> for MetricViewRecord {
    open spec fn obeys_from_spec() -> bool {
        false
    }

    open spec fn from_spec(view: MetricView) -> MetricViewRecord {
        arbitrary()
    }
}

impl From<MetricView> for MetricViewRecord {
    fn from(view: MetricView) -> (r: MetricViewRecord)
        ensures
            r.restates(view),
    {
        MetricViewRecord::from(&view)
    }
}

/// One host.
#[derive(Debug, Clone, PartialEq, Eq)]
pub struct HostViewRecord {
    pub id: String,
    pub os: OsFamilyRecord,
    pub agent_version: Option<String>,
    pub last_heartbeat_millis: Option<i64>,
    pub liveness: LivenessRecord,
    pub liveness_at_millis: i64,
    pub severity: SeverityRecord,
    pub collection: CollectionHealthRecord,
    pub metrics: Vec<MetricViewRecord>,
    pub firing_alerts: u32,
    pub pending_alerts: u32,
    pub in_current_roster: bool,
    pub id_is_placeholder: bool,
}

/// Whether records restate some series, one for one.
pub open spec fn restates_metrics(records: Seq<MetricViewRecord>, views: Seq<MetricView>) -> bool {
    &&& records.len() == views.len()
    &&& forall|i: int| 0 <= i < views.len() ==> (#[trigger] records[i]).restates(views[i])
}

impl HostViewRecord {
    /// Whether the record restates a host.
    pub open spec fn restates(self, view: HostView) -> bool {
        &&& self.id@ == view.id@
        &&& self.os == OsFamilyRecord::restating(view.os)
        &&& self.agent_version == view.agent_version
        &&& self.last_heartbeat_millis == convert::optional_millis_of(view.last_heartbeat)
        &&& self.liveness == LivenessRecord::restating(view.liveness)
        &&& self.liveness_at_millis == convert::millis_of(view.liveness_at)
        &&& self.severity == SeverityRecord::restating(view.severity)
        &&& self.collection == CollectionHealthRecord::restating(view.collection)
        &&& restates_metrics(self.metrics@, view.metrics@)
        &&& self.firing_alerts == view.firing_alerts
        &&& self.pending_alerts == view.pending_alerts
        &&& self.in_current_roster == view.in_current_roster
        &&& self.id_is_placeholder == view.id_is_placeholder
    }
}

/// The records of some series.
fn metrics_to_records(items: &Vec<MetricView>) -> (r: Vec<MetricViewRecord>)
    ensures
        r@.len() == items@.len(),
        forall|i: int| 0 <= i < items@.len() ==> (#[trigger] r@[i]).restates(items@[i]),
{
    let mut out: Vec<MetricViewRecord> = Vec::new();
    let mut n: usize = 0;
    while n < items.len()
        invariant
            n <= items@.len(),
            out@.len() == n,
            forall|i: int| 0 <= i < n ==> (#[trigger] out@[i]).restates(items@[i]),
        decreases items@.len() - n,
    {
        out.push(MetricViewRecord::from(&items[n]));
        n += 1;
    }
    out
}

impl vstd::std_specs::convert::FromSpecImpl<&HostView> for HostViewRecord {
    open spec fn obeys_from_spec() -> bool {
        false
    }

    open spec fn from_spec(view: &HostView) -> HostViewRecord {
        arbitrary()
    }
}

impl From<&HostView> for HostViewRecord {
    fn from(view: &HostView) -> (r: HostViewRecord)
        ensures
            r.restates(*view),
    {
        HostViewRecord {
            id: host_id_to_string(&view.id),
            os: OsFamilyRecord::from(view.os),
            agent_version: text::clone_optional(&view.agent_version),
            last_heartbeat_millis: optional_datetime_to_millis(view.last_heartbeat),
            liveness: LivenessRecord::from(view.liveness),
            liveness_at_millis: datetime_to_millis(view.liveness_at),
            severity: SeverityRecord::from(view.severity),
            collection: CollectionHealthRecord::from(view.collection),
            metrics: metrics_to_records(&view.metrics),
            firing_alerts: view.firing_alerts,
            pending_alerts: view.pending_alerts,
            in_current_roster: view.in_current_roster,
            id_is_placeholder: view.id_is_placeholder,
        }
    }
}

impl vstd::std_specs::convert::FromSpecImpl<HostView> for HostViewRecord {
    open spec fn obeys_from_spec() -> bool {
        false
    }

    open spec fn from_spec(view: HostView) -> HostViewRecord {
        arbitrary()
    }
}

impl From<HostView> for HostViewRecord {
    fn from(view: HostView) -> (r: HostViewRecord)
        ensures
            r.restates(view),
    {
        HostViewRecord::from(&view)
    }
}

/// How many hosts stand where.
#[derive(Debug, Clone, Copy, PartialEq, Eq, Structural)]
pub struct FleetCountsRecord {
    pub hosts: u32,
    pub alive: u32,
    pub stale: u32,
    pub down: u32,
    pub unknown: u32,
    pub firing_alerts: u32,
    pub pending_alerts: u32,
}

impl FleetCountsRecord {
    /// The record that restates some counts.
    pub open spec fn restating(counts: FleetCounts) -> FleetCountsRecord {
        FleetCountsRecord {
            hosts: counts.hosts,
            alive: counts.alive,
            stale: counts.stale,
            down: counts.down,
            unknown: counts.unknown,
            firing_alerts: counts.firing_alerts,
            pending_alerts: counts.pending_alerts,
        }
    }
}

impl vstd::std_specs::convert::FromSpecImpl<FleetCounts> for FleetCountsRecord {
    open spec fn obeys_from_spec() -> bool {
        true
    }

    open spec fn from_spec(counts: FleetCounts) -> FleetCountsRecord {
        FleetCountsRecord::restating(counts)
    }
}

impl From<FleetCounts> for FleetCountsRecord {
    fn from(counts: FleetCounts) -> FleetCountsRecord {
        FleetCountsRecord {
            hosts: counts.hosts,
            alive: counts.alive,
            stale: counts.stale,
            down: counts.down,
            unknown: counts.unknown,
            firing_alerts: counts.firing_alerts,
            pending_alerts: counts.pending_alerts,
        }
    }
}

/// One alert on one host.
#[derive(Debug, Clone, PartialEq, Eq)]
pub struct AlertViewRecord {
    pub id: String,
    pub rule_id: String,
    pub rule_name: String,
    pub description: String,
    pub host: String,
    pub metric: MetricKindRecord,
    pub comparator: ComparatorRecord,
    pub threshold: Number,
    pub phase: AlertPhaseRecord,
    pub severity: SeverityRecord,
    pub breaching_since_millis: Option<i64>,
    pub fires_at_millis: Option<i64>,
    pub latest_value: Option<Number>,
    pub series_label: Option<String>,
    pub evidence: AlertEvidenceRecord,
    pub is_rate: bool,
    pub invalid_reason: Option<String>,
}

impl AlertViewRecord {
    /// Whether the record restates an alert.
    pub open spec fn restates(self, view: AlertView) -> bool {
        &&& self.id == view.id
        &&& self.rule_id@ == view.rule_id@.rendered()
        &&& self.rule_name == view.rule_name
        &&& self.description == view.description
        &&& self.host@ == view.host@
        &&& self.metric == MetricKindRecord::restating(view.metric)
        &&& self.comparator == ComparatorRecord::restating(view.comparator)
        &&& self.threshold == view.threshold
        &&& self.phase == AlertPhaseRecord::restating(view.phase)
        &&& self.severity == SeverityRecord::restating(view.severity)
        &&& self.breaching_since_millis == convert::optional_millis_of(view.breaching_since)
        &&& self.fires_at_millis == convert::optional_millis_of(view.fires_at)
        &&& self.latest_value == view.latest_value
        &&& self.series_label == view.series_label
        &&& self.evidence == AlertEvidenceRecord::restating(view.evidence)
        &&& self.is_rate == view.is_rate
        &&& self.invalid_reason == view.invalid_reason
    }
}

impl vstd::std_specs::convert::FromSpecImpl<&AlertView> for AlertViewRecord {
    open spec fn obeys_from_spec() -> bool {
        false
    }

    open spec fn from_spec(view: &AlertView) -> AlertViewRecord {
        arbitrary()
    }
}

impl From<&AlertView> for AlertViewRecord {
    fn from(view: &AlertView) -> (r: AlertViewRecord)
        ensures
            r.restates(*view),
    {
        AlertViewRecord {
            id: view.id.clone(),
            rule_id: urn_to_string(&view.rule_id),
            rule_name: view.rule_name.clone(),
            description: view.description.clone(),
            host: host_id_to_string(&view.host),
            metric: MetricKindRecord::from(view.metric),
            comparator: ComparatorRecord::from(view.comparator),
            threshold: view.threshold,
            phase: AlertPhaseRecord::from(view.phase),
            severity: SeverityRecord::from(view.severity),
            breaching_since_millis: optional_datetime_to_millis(view.breaching_since),
            fires_at_millis: optional_datetime_to_millis(view.fires_at),
            latest_value: view.latest_value,
            series_label: text::clone_optional(&view.series_label),
            evidence: AlertEvidenceRecord::from(view.evidence),
            is_rate: view.is_rate,
            invalid_reason: text::clone_optional(&view.invalid_reason),
        }
    }
}

impl vstd::std_specs::convert::FromSpecImpl<AlertView> for AlertViewRecord {
    open spec fn obeys_from_spec() -> bool {
        false
    }

    open spec fn from_spec(view: AlertView) -> AlertViewRecord {
        arbitrary()
    }
}

impl From<AlertView> for AlertViewRecord {
    fn from(view: AlertView) -> (r: AlertViewRecord)
        ensures
            r.restates(view),
    {
        AlertViewRecord::from(&view)
    }
}

/// The whole fleet.
#[derive(Debug, Clone, PartialEq, Eq)]
pub struct FleetViewRecord {
    pub backend_name: String,
    pub as_of_millis: Option<i64>,
    pub freshness: FreshnessInputsRecord,
    pub severity: SeverityRecord,
    pub hosts: Vec<HostViewRecord>,
    pub alerts: Vec<AlertViewRecord>,
    pub counts: FleetCountsRecord,
    pub warnings: Vec<TuningWarningRecord>,
}

/// Whether records restate some hosts, one for one.
pub open spec fn restates_hosts(records: Seq<HostViewRecord>, views: Seq<HostView>) -> bool {
    &&& records.len() == views.len()
    &&& forall|i: int| 0 <= i < views.len() ==> (#[trigger] records[i]).restates(views[i])
}

/// Whether records restate some alerts, one for one.
pub open spec fn restates_alerts(records: Seq<AlertViewRecord>, views: Seq<AlertView>) -> bool {
    &&& records.len() == views.len()
    &&& forall|i: int| 0 <= i < views.len() ==> (#[trigger] records[i]).restates(views[i])
}

impl FleetViewRecord {
    /// Whether the record restates a fleet.
    pub open spec fn restates(self, view: FleetView) -> bool {
        &&& self.backend_name == view.backend_name
        &&& self.as_of_millis == convert::optional_millis_of(view.as_of)
        &&& self.freshness.restates(view.freshness)
        &&& self.severity == SeverityRecord::restating(view.severity)
        &&& restates_hosts(self.hosts@, view.hosts@)
        &&& restates_alerts(self.alerts@, view.alerts@)
        &&& self.counts == FleetCountsRecord::restating(view.counts)
        &&& self.warnings@ == config_records::warning_records(view.warnings@)
    }
}

/// The records of some hosts.
fn hosts_to_records(items: &Vec<HostView>) -> (r: Vec<HostViewRecord>)
    ensures
        r@.len() == items@.len(),
        forall|i: int| 0 <= i < items@.len() ==> (#[trigger] r@[i]).restates(items@[i]),
{
    let mut out: Vec<HostViewRecord> = Vec::new();
    let mut n: usize = 0;
    while n < items.len()
        invariant
            n <= items@.len(),
            out@.len() == n,
            forall|i: int| 0 <= i < n ==> (#[trigger] out@[i]).restates(items@[i]),
        decreases items@.len() - n,
    {
        out.push(HostViewRecord::from(&items[n]));
        n += 1;
    }
    out
}

/// The records of some alerts.
fn alerts_to_records(items: &Vec<AlertView>) -> (r: Vec<AlertViewRecord>)
    ensures
        r@.len() == items@.len(),
        forall|i: int| 0 <= i < items@.len() ==> (#[trigger] r@[i]).restates(items@[i]),
{
    let mut out: Vec<AlertViewRecord> = Vec::new();
    let mut n: usize = 0;
    while n < items.len()
        invariant
            n <= items@.len(),
            out@.len() == n,
            forall|i: int| 0 <= i < n ==> (#[trigger] out@[i]).restates(items@[i]),
        decreases items@.len() - n,
    {
        out.push(AlertViewRecord::from(&items[n]));
        n += 1;
    }
    out
}

impl vstd::std_specs::convert::FromSpecImpl<FleetView> for FleetViewRecord {
    open spec fn obeys_from_spec() -> bool {
        false
    }

    open spec fn from_spec(view: FleetView) -> FleetViewRecord {
        arbitrary()
    }
}

impl From<FleetView> for FleetViewRecord {
    fn from(view: FleetView) -> (r: FleetViewRecord)
        ensures
            r.restates(view),
    {
        FleetViewRecord {
            backend_name: view.backend_name,
            as_of_millis: optional_datetime_to_millis(view.as_of),
            freshness: FreshnessInputsRecord::from(view.freshness),
            severity: SeverityRecord::from(view.severity),
            hosts: hosts_to_records(&view.hosts),
            alerts: alerts_to_records(&view.alerts),
            counts: FleetCountsRecord::from(view.counts),
            warnings: warnings_to_records(&view.warnings),
        }
    }
}

/// A health measured over whole seconds survives its record.
pub proof fn health_survives_its_record(health: CollectionHealth, back: CollectionHealth)
    requires
        health matches CollectionHealth::Failing { over, .. } ==> convert::in_whole_seconds(over),
        CollectionHealthRecord::restating(health).describes(back),
    ensures
        health matches CollectionHealth::Failing { over, .. } ==> convert::is_seconds(
            convert::seconds_of(over),
        ),
        back == health,
{
    if let CollectionHealth::Failing { over, .. } = health {
        convert::seconds_recover_the_span(over, back->over);
    }
}

/// Evidence since a whole millisecond survives its record.
pub proof fn evidence_survives_its_record(evidence: AlertEvidence, back: AlertEvidence)
    requires
        evidence matches AlertEvidence::Frozen { since } ==> convert::on_a_millisecond(since),
        AlertEvidenceRecord::restating(evidence).describes(back),
    ensures
        evidence matches AlertEvidence::Frozen { since } ==> convert::is_millis(
            convert::millis_of(since),
        ),
        back == evidence,
{
    if let AlertEvidence::Frozen { since } = evidence {
        convert::millis_recover_the_instant(since, back->since);
    }
}

/// Whether every instant of a freshness is on a whole millisecond.
pub open spec fn freshness_on_milliseconds(freshness: Freshness) -> bool {
    match freshness {
        Freshness::Fresh { at } => convert::on_a_millisecond(at),
        Freshness::Idle { last_success } => convert::on_a_millisecond(last_success),
        Freshness::Degraded { last_success, failure, .. } => {
            &&& convert::on_a_millisecond(last_success)
            &&& failure matches Some(failure) ==> convert::on_a_millisecond(failure.at)
        },
        Freshness::Unusable { last_success, failure, .. } => {
            &&& convert::optionally_on_a_millisecond(last_success)
            &&& failure matches Some(failure) ==> convert::on_a_millisecond(failure.at)
        },
    }
}

/// A freshness on whole milliseconds survives its record, with the failure it carries:
/// every instant of the record can be read, and reading it gives the freshness back.
pub proof fn freshness_survives_its_record(
    freshness: Freshness,
    record: FreshnessRecord,
    back: Freshness,
)
    requires
        freshness_on_milliseconds(freshness),
        record.restates(freshness),
        record.describes(back),
    ensures
        all_instants(record.instants()),
        back == freshness,
{
    match (freshness, back) {
        (Freshness::Fresh { at: x }, Freshness::Fresh { at: y }) => {
            convert::millis_recover_the_instant(x, y);
        },
        (Freshness::Idle { last_success: x }, Freshness::Idle { last_success: y }) => {
            convert::millis_recover_the_instant(x, y);
        },
        (
            Freshness::Degraded { last_success: x, failure: f, .. },
            Freshness::Degraded { last_success: y, failure: g, .. },
        ) => {
            convert::millis_recover_the_instant(x, y);
            if f is Some {
                fold_records::failures_survive_their_records(
                    f->0,
                    record->Degraded_failure->0,
                    g->0,
                );
            }
        },
        (
            Freshness::Unusable { last_success: x, failure: f, .. },
            Freshness::Unusable { last_success: y, failure: g, .. },
        ) => {
            convert::optional_millis_recover_the_instant(x, y);
            if f is Some {
                fold_records::failures_survive_their_records(
                    f->0,
                    record->Unusable_failure->0,
                    g->0,
                );
            }
        },
        _ => {},
    }
}

/// A unit crosses the boundary under its own name, both ways.
pub proof fn metric_unit_records_keep_their_names(value: MetricUnit, record: MetricUnitRecord)
    ensures
        MetricUnitRecord::restating(value) == MetricUnitRecord::Ratio <==> value == MetricUnit::Ratio,
        record.restated() == MetricUnit::Ratio <==> record == MetricUnitRecord::Ratio,
        MetricUnitRecord::restating(value) == MetricUnitRecord::Bytes <==> value == MetricUnit::Bytes,
        record.restated() == MetricUnit::Bytes <==> record == MetricUnitRecord::Bytes,
        MetricUnitRecord::restating(value) == MetricUnitRecord::Seconds <==> value == MetricUnit::Seconds,
        record.restated() == MetricUnit::Seconds <==> record == MetricUnitRecord::Seconds,
        MetricUnitRecord::restating(value) == MetricUnitRecord::Count <==> value == MetricUnit::Count,
        record.restated() == MetricUnit::Count <==> record == MetricUnitRecord::Count,
        MetricUnitRecord::restating(value) == MetricUnitRecord::Load <==> value == MetricUnit::Load,
        record.restated() == MetricUnit::Load <==> record == MetricUnitRecord::Load,
{
}

/// A family of systems crosses the boundary under its own name, both ways.
pub proof fn os_family_records_keep_their_names(value: OsFamily, record: OsFamilyRecord)
    ensures
        OsFamilyRecord::restating(value) == OsFamilyRecord::Linux <==> value == OsFamily::Linux,
        record.restated() == OsFamily::Linux <==> record == OsFamilyRecord::Linux,
        OsFamilyRecord::restating(value) == OsFamilyRecord::Darwin <==> value == OsFamily::Darwin,
        record.restated() == OsFamily::Darwin <==> record == OsFamilyRecord::Darwin,
        OsFamilyRecord::restating(value) == OsFamilyRecord::Windows <==> value == OsFamily::Windows,
        record.restated() == OsFamily::Windows <==> record == OsFamilyRecord::Windows,
        OsFamilyRecord::restating(value) == OsFamilyRecord::Other <==> value == OsFamily::Other,
        record.restated() == OsFamily::Other <==> record == OsFamilyRecord::Other,
{
}

/// A judgement on a host crosses the boundary under its own name, both ways.
pub proof fn liveness_records_keep_their_names(value: Liveness, record: LivenessRecord)
    ensures
        LivenessRecord::restating(value) == LivenessRecord::Alive <==> value == Liveness::Alive,
        record.restated() == Liveness::Alive <==> record == LivenessRecord::Alive,
        LivenessRecord::restating(value) == LivenessRecord::Stale <==> value == Liveness::Stale,
        record.restated() == Liveness::Stale <==> record == LivenessRecord::Stale,
        LivenessRecord::restating(value) == LivenessRecord::Down <==> value == Liveness::Down,
        record.restated() == Liveness::Down <==> record == LivenessRecord::Down,
        LivenessRecord::restating(value) == LivenessRecord::Unknown <==> value == Liveness::Unknown,
        record.restated() == Liveness::Unknown <==> record == LivenessRecord::Unknown,
{
}

/// A severity crosses the boundary under its own name, both ways.
pub proof fn severity_records_keep_their_names(value: Severity, record: SeverityRecord)
    ensures
        SeverityRecord::restating(value) == SeverityRecord::Clear <==> value == Severity::Clear,
        record.restated() == Severity::Clear <==> record == SeverityRecord::Clear,
        SeverityRecord::restating(value) == SeverityRecord::Unknown <==> value == Severity::Unknown,
        record.restated() == Severity::Unknown <==> record == SeverityRecord::Unknown,
        SeverityRecord::restating(value) == SeverityRecord::Warning <==> value == Severity::Warning,
        record.restated() == Severity::Warning <==> record == SeverityRecord::Warning,
        SeverityRecord::restating(value) == SeverityRecord::Critical <==> value == Severity::Critical,
        record.restated() == Severity::Critical <==> record == SeverityRecord::Critical,
{
}

/// An availability crosses the boundary under its own name, both ways.
pub proof fn metric_availability_records_keep_their_names(value: MetricAvailability, record: MetricAvailabilityRecord)
    ensures
        MetricAvailabilityRecord::restating(value) == MetricAvailabilityRecord::Present <==> value == MetricAvailability::Present,
        record.restated() == MetricAvailability::Present <==> record == MetricAvailabilityRecord::Present,
        MetricAvailabilityRecord::restating(value) == MetricAvailabilityRecord::NotReported <==> value == MetricAvailability::NotReported,
        record.restated() == MetricAvailability::NotReported <==> record == MetricAvailabilityRecord::NotReported,
        MetricAvailabilityRecord::restating(value) == MetricAvailabilityRecord::Unsupported <==> value == MetricAvailability::Unsupported,
        record.restated() == MetricAvailability::Unsupported <==> record == MetricAvailabilityRecord::Unsupported,
        MetricAvailabilityRecord::restating(value) == MetricAvailabilityRecord::Unavailable <==> value == MetricAvailability::Unavailable,
        record.restated() == MetricAvailability::Unavailable <==> record == MetricAvailabilityRecord::Unavailable,
{
}

/// A phase crosses the boundary under its own name, both ways.
pub proof fn alert_phase_records_keep_their_names(value: AlertPhase, record: AlertPhaseRecord)
    ensures
        AlertPhaseRecord::restating(value) == AlertPhaseRecord::Clear <==> value == AlertPhase::Clear,
        record.restated() == AlertPhase::Clear <==> record == AlertPhaseRecord::Clear,
        AlertPhaseRecord::restating(value) == AlertPhaseRecord::Pending <==> value == AlertPhase::Pending,
        record.restated() == AlertPhase::Pending <==> record == AlertPhaseRecord::Pending,
        AlertPhaseRecord::restating(value) == AlertPhaseRecord::Firing <==> value == AlertPhase::Firing,
        record.restated() == AlertPhase::Firing <==> record == AlertPhaseRecord::Firing,
        AlertPhaseRecord::restating(value) == AlertPhaseRecord::NoData <==> value == AlertPhase::NoData,
        record.restated() == AlertPhase::NoData <==> record == AlertPhaseRecord::NoData,
{
}

/// A point crosses with its own value, at the millisecond it lies in.
pub proof fn point_records_say_what_their_points_say(point: MetricPoint)
    ensures
        MetricPointRecord::restating(point).value == point.value,
        MetricPointRecord::restating(point).at_millis == convert::millis_of(point.at),
        optional_point(Some(point)) == Some(MetricPointRecord::restating(point)),
        optional_point(None) is None,
{
}

/// Points and instants cross one for one, in their order.
pub proof fn points_cross_one_for_one(points: Seq<MetricPoint>, instants: Seq<Timestamp>)
    ensures
        point_records(points).len() == points.len(),
        forall|i: int|
            0 <= i < points.len() ==> {
                &&& (#[trigger] point_records(points)[i]).value == points[i].value
                &&& point_records(points)[i].at_millis == convert::millis_of(points[i].at)
            },
        all_millis(instants).len() == instants.len(),
        forall|i: int|
            0 <= i < instants.len() ==> #[trigger] all_millis(instants)[i] == convert::millis_of(
                instants[i],
            ),
{
}

/// A collection's health and an alert's evidence cross as the kind they are, with what
/// they carry.
pub proof fn health_and_evidence_keep_their_kind(added: Number, over: TimeDelta, since: Timestamp)
    ensures
        CollectionHealthRecord::restating(CollectionHealth::Healthy)
            == CollectionHealthRecord::Healthy,
        CollectionHealthRecord::restating(CollectionHealth::Unknown)
            == CollectionHealthRecord::Unknown,
        CollectionHealthRecord::restating(CollectionHealth::Failing { added, over }) == (
        CollectionHealthRecord::Failing { added, over_seconds: convert::seconds_of(over) }),
        AlertEvidenceRecord::restating(AlertEvidence::Fresh) == AlertEvidenceRecord::Fresh,
        AlertEvidenceRecord::restating(AlertEvidence::Frozen { since }) == (
        AlertEvidenceRecord::Frozen { since_millis: convert::millis_of(since) }),
{
}

/// A freshness crosses as the kind it is: fresh, idle, degraded or unusable.
pub proof fn freshness_records_keep_their_kind(record: FreshnessRecord, freshness: Freshness)
    requires
        record.restates(freshness) || record.describes(freshness),
    ensures
        record is Fresh <==> freshness is Fresh,
        record is Idle <==> freshness is Idle,
        record is Degraded <==> freshness is Degraded,
        record is Unusable <==> freshness is Unusable,
        freshness is Degraded ==> record->Degraded_consecutive_failures
            == freshness->Degraded_consecutive_failures,
        freshness is Unusable ==> record->Unusable_consecutive_failures
            == freshness->Unusable_consecutive_failures,
        freshness is Degraded ==> (record->Degraded_failure is Some
            <==> freshness->Degraded_failure is Some),
        freshness is Unusable ==> (record->Unusable_failure is Some
            <==> freshness->Unusable_failure is Some),
{
}

/// The record of a freshness holds its instants in milliseconds: when it was fresh, or
/// when the last success was.
pub proof fn freshness_records_say_when(record: FreshnessRecord, freshness: Freshness)
    requires
        record.restates(freshness),
    ensures
        freshness is Fresh ==> record->at_millis == convert::millis_of(freshness->at),
        freshness is Idle ==> record->Idle_last_success_millis == convert::millis_of(
            freshness->Idle_last_success,
        ),
        freshness is Degraded ==> record->Degraded_last_success_millis == convert::millis_of(
            freshness->Degraded_last_success,
        ),
        freshness is Unusable ==> record->Unusable_last_success_millis
            == convert::optional_millis_of(freshness->Unusable_last_success),
        freshness is Degraded && freshness->Degraded_failure is Some
            ==> record->Degraded_failure->0.restates(freshness->Degraded_failure->0),
        freshness is Unusable && freshness->Unusable_failure is Some
            ==> record->Unusable_failure->0.restates(freshness->Unusable_failure->0),
{
}

/// What freshness is judged by crosses under its own names.
pub proof fn freshness_inputs_keep_their_names(
    record: FreshnessInputsRecord,
    inputs: FreshnessInputs,
)
    requires
        record.restates(inputs),
    ensures
        record.as_of_millis == convert::optional_millis_of(inputs.as_of),
        record.last_clean_at_millis == convert::optional_millis_of(inputs.last_clean_at),
        record.last_roster_at_millis == convert::optional_millis_of(inputs.last_roster_at),
        record.consecutive_failures == inputs.consecutive_failures,
        record.last_failure is Some <==> inputs.last_failure is Some,
        inputs.last_failure is Some ==> record.last_failure->0.restates(inputs.last_failure->0),
        record.polled_this_session == inputs.polled_this_session,
        record.tolerance_seconds == convert::seconds_of(inputs.tolerance),
        record.budget_seconds == convert::seconds_of(inputs.budget),
{
}

/// What is shown of a metric crosses under its own names, its points and attributes
/// whole.
pub proof fn metric_views_keep_their_names(record: MetricViewRecord, view: MetricView)
    requires
        record.restates(view),
    ensures
        record.id@ == view.id@,
        record.kind.restated() == view.kind,
        record.unit.restated() == view.unit,
        record.display_name@ == view.display_name@,
        record.label == view.label,
        text_map::map_of(convert::record_pairs(record.attributes@)) == view.attributes@,
        record.latest is Some <==> view.latest is Some,
        view.latest is Some ==> record.latest->0.value == view.latest->0.value
            && record.latest->0.at_millis == convert::millis_of(view.latest->0.at),
        record.points@.len() == view.points@.len(),
        forall|i: int|
            0 <= i < view.points@.len() ==> (#[trigger] record.points@[i]).value
                == view.points@[i].value && record.points@[i].at_millis == convert::millis_of(
                view.points@[i].at,
            ),
        forall|i: int, j: int|
            0 <= i < j < record.attributes@.len() ==> text::before(
                (#[trigger] record.attributes@[i]).key@,
                (#[trigger] record.attributes@[j]).key@,
            ),
        record.availability.restated() == view.availability,
        record.is_rate == view.is_rate,
        record.expected_step_seconds == convert::seconds_of(view.expected_step),
        record.resets_millis@.len() == view.resets@.len(),
        forall|i: int|
            0 <= i < view.resets@.len() ==> #[trigger] record.resets_millis@[i]
                == convert::millis_of(view.resets@[i]),
        record.fetched_at_millis == convert::optional_millis_of(view.fetched_at),
{
    config_records::metric_kind_records_round_trip(view.kind, record.kind);
    let pairs = convert::record_pairs(record.attributes@);
    assert forall|i: int, j: int| 0 <= i < j < record.attributes@.len() implies text::before(
        (#[trigger] record.attributes@[i]).key@,
        (#[trigger] record.attributes@[j]).key@,
    ) by {
        assert(text::before(pairs[i].0, pairs[j].0));
    }
}

/// What is shown of a host crosses under its own names, with every one of its metrics.
pub proof fn host_views_keep_their_names(record: HostViewRecord, view: HostView)
    requires
        record.restates(view),
    ensures
        record.id@ == view.id@,
        record.os.restated() == view.os,
        record.agent_version == view.agent_version,
        record.last_heartbeat_millis == convert::optional_millis_of(view.last_heartbeat),
        record.liveness.restated() == view.liveness,
        record.liveness_at_millis == convert::millis_of(view.liveness_at),
        record.severity.restated() == view.severity,
        record.collection == CollectionHealthRecord::restating(view.collection),
        record.metrics@.len() == view.metrics@.len(),
        forall|i: int|
            0 <= i < view.metrics@.len() ==> (#[trigger] record.metrics@[i]).restates(
                view.metrics@[i],
            ),
        record.firing_alerts == view.firing_alerts,
        record.pending_alerts == view.pending_alerts,
        record.in_current_roster == view.in_current_roster,
        record.id_is_placeholder == view.id_is_placeholder,
{
}

/// Counts cross under their own names.
pub proof fn fleet_counts_keep_their_names(counts: FleetCounts)
    ensures
        FleetCountsRecord::restating(counts).hosts == counts.hosts,
        FleetCountsRecord::restating(counts).alive == counts.alive,
        FleetCountsRecord::restating(counts).stale == counts.stale,
        FleetCountsRecord::restating(counts).down == counts.down,
        FleetCountsRecord::restating(counts).unknown == counts.unknown,
        FleetCountsRecord::restating(counts).firing_alerts == counts.firing_alerts,
        FleetCountsRecord::restating(counts).pending_alerts == counts.pending_alerts,
{
}

/// What is shown of an alert crosses under its own names.
pub proof fn alert_views_keep_their_names(record: AlertViewRecord, view: AlertView)
    requires
        record.restates(view),
    ensures
        record.id@ == view.id@,
        record.rule_id@ == view.rule_id@.rendered(),
        record.rule_name@ == view.rule_name@,
        record.description@ == view.description@,
        record.host@ == view.host@,
        record.metric.restated() == view.metric,
        record.comparator.restated() == view.comparator,
        record.threshold == view.threshold,
        record.phase.restated() == view.phase,
        record.severity.restated() == view.severity,
        record.breaching_since_millis == convert::optional_millis_of(view.breaching_since),
        record.fires_at_millis == convert::optional_millis_of(view.fires_at),
        record.latest_value == view.latest_value,
        record.series_label == view.series_label,
        record.evidence is Fresh <==> view.evidence is Fresh,
        view.evidence is Frozen ==> record.evidence->since_millis == convert::millis_of(
            view.evidence->since,
        ),
        record.is_rate == view.is_rate,
        record.invalid_reason == view.invalid_reason,
{
    config_records::metric_kind_records_round_trip(view.metric, record.metric);
    config_records::comparator_records_round_trip(view.comparator, record.comparator);
}

/// What is shown of a fleet crosses under its own names, with every host, alert and
/// warning in its place.
pub proof fn fleet_views_keep_their_names(record: FleetViewRecord, view: FleetView)
    requires
        record.restates(view),
    ensures
        record.backend_name@ == view.backend_name@,
        record.as_of_millis == convert::optional_millis_of(view.as_of),
        record.freshness.restates(view.freshness),
        record.severity.restated() == view.severity,
        record.hosts@.len() == view.hosts@.len(),
        forall|i: int|
            0 <= i < view.hosts@.len() ==> (#[trigger] record.hosts@[i]).restates(view.hosts@[i]),
        record.alerts@.len() == view.alerts@.len(),
        forall|i: int|
            0 <= i < view.alerts@.len() ==> (#[trigger] record.alerts@[i]).restates(
                view.alerts@[i],
            ),
        record.counts == FleetCountsRecord::restating(view.counts),
        record.warnings@.len() == view.warnings@.len(),
        forall|i: int|
            0 <= i < view.warnings@.len() ==> (#[trigger] record.warnings@[i]).restated()
                == view.warnings@[i],
{
    config_records::warnings_cross_one_for_one(view.warnings@);
    assert forall|i: int| 0 <= i < view.warnings@.len() implies (
    #[trigger] record.warnings@[i]).restated() == view.warnings@[i] by {
        assert(record.warnings@[i] == config_records::warning_records(view.warnings@)[i]);
    }
}

/// An instant that cannot be read is told, and of several the first; where all can be
/// read there is nothing to tell.
pub proof fn the_first_unreadable_instant_is_told(error: FfiError, instants: Seq<i64>)
    ensures
        all_instants(instants) ==> !is_first_error(error, instants),
        instants.len() > 0 && !convert::is_millis(instants[0]) && is_first_error(error, instants)
            ==> convert::is_millis_error(error, instants[0]),
        all_instants(instants) <==> forall|i: int|
            0 <= i < instants.len() ==> -8_334_601_228_800_000 <= #[trigger] instants[i]
                <= 8_210_266_876_799_999,
{
    if instants.len() > 0 && !convert::is_millis(instants[0]) && is_first_error(error, instants) {
        let i = choose|i: int|
            {
                &&& 0 <= i < instants.len()
                &&& !convert::is_millis(#[trigger] instants[i])
                &&& convert::is_millis_error(error, instants[i])
                &&& forall|k: int| 0 <= k < i ==> convert::is_millis(#[trigger] instants[k])
            };
        assert(i == 0);
    }
    if all_instants(instants) {
        assert forall|i: int| 0 <= i < instants.len() implies -8_334_601_228_800_000
            <= #[trigger] instants[i] <= 8_210_266_876_799_999 by {
            assert(convert::is_millis(instants[i]));
        }
    }
}

/// The instants of a record are all those it holds, in the order they are read.
pub proof fn records_list_their_instants(record: FreshnessRecord)
    ensures
        record is Fresh ==> record.instants() == seq![record->at_millis],
        record is Idle ==> record.instants() == seq![record->Idle_last_success_millis],
        record is Degraded ==> record.instants()[0] == record->Degraded_last_success_millis,
        record is Degraded && record->Degraded_failure is Some ==> record.instants()[1]
            == record->Degraded_failure->0.at_millis,
        record is Unusable && record->Unusable_last_success_millis is Some ==> record.instants()[0]
            == record->Unusable_last_success_millis->0,
        record is Unusable && record->Unusable_failure is Some ==> record.instants().last()
            == record->Unusable_failure->0.at_millis,
{
}

/// A health, an evidence and a failure that were read from their records are what the
/// records say: the same kind, to the second or the millisecond.
pub proof fn what_is_read_is_what_was_recorded(
    health_record: CollectionHealthRecord,
    health: CollectionHealth,
    evidence_record: AlertEvidenceRecord,
    evidence: AlertEvidence,
    failure_record: Option<PollFailureRecord>,
    failure: Option<PollFailure>,
)
    requires
        health_record.describes(health),
        evidence_record.describes(evidence),
        reads_failure(failure_record, Ok(failure)),
    ensures
        health_record is Healthy <==> health is Healthy,
        health_record is Failing <==> health is Failing,
        health is Failing ==> health->added == health_record->added && health->over.total()
            == health_record->over_seconds * 1_000_000_000,
        evidence_record is Fresh <==> evidence is Fresh,
        evidence is Frozen ==> evidence->since.total() == evidence_record->since_millis * 1_000_000,
        failure_record is Some <==> failure is Some,
        failure is Some ==> failure->0.at.total() == failure_record->0.at_millis * 1_000_000
            && failure->0.message@ == failure_record->0.message@ && failure->0.kind
            == failure_record->0.kind.restated(),
{
}

/// A freshness that was read from a record lies at the record's very milliseconds.
pub proof fn freshness_is_read_at_its_millis(record: FreshnessRecord, freshness: Freshness)
    requires
        record.describes(freshness),
    ensures
        freshness is Fresh ==> freshness->at.total() == record->at_millis * 1_000_000,
        freshness is Idle ==> freshness->Idle_last_success.total()
            == record->Idle_last_success_millis * 1_000_000,
        freshness is Degraded ==> freshness->Degraded_last_success.total()
            == record->Degraded_last_success_millis * 1_000_000,
        freshness is Unusable ==> (freshness->Unusable_last_success is Some
            <==> record->Unusable_last_success_millis is Some),
        freshness is Unusable && freshness->Unusable_last_success is Some
            ==> freshness->Unusable_last_success->0.total()
            == record->Unusable_last_success_millis->0 * 1_000_000,
{
}

} // verus!
