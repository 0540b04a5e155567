//! What one poll produced, in shapes that cross the boundary: the result, the
//! transitions worth a notification, the advice that says when to come back, why a
//! request failed, and what a cold start salvaged.

use crate::client::error::{FailureSource, PollFailure, PollFailureKind};
use crate::client::fold;
use crate::client::fold::{AlertPhase, AlertTransition, PollAdvice, RestoreReport};
use crate::domain::metric::MetricKind;
use crate::domain::urn;
use crate::ffi::config_records::MetricKindRecord;
use crate::ffi::convert;
use crate::ffi::convert::{
    datetime_to_millis, duration_to_seconds, host_id_from_string, host_id_to_string,
    millis_to_datetime, optional_datetime_to_millis, optional_millis_to_datetime,
    seconds_to_duration, urn_from_string, urn_to_string, FfiError,
};
use crate::ffi::view_records;
use crate::ffi::view_records::{AlertPhaseRecord, FleetViewRecord};
use crate::time::TimeDelta;
use vstd::prelude::*;

verus! {

/// Why a request failed.
#[derive(Debug, Clone, Copy, PartialEq, Eq, Hash, Structural)]
pub enum PollFailureKindRecord {
    Unauthorized,
    Unreachable,
    Backend,
    Malformed,
}

impl PollFailureKindRecord {
    /// The record that restates a value.
    pub open spec fn restating(value: PollFailureKind) -> PollFailureKindRecord {
        match value {
            PollFailureKind::Unauthorized => PollFailureKindRecord::Unauthorized,
            PollFailureKind::Unreachable => PollFailureKindRecord::Unreachable,
            PollFailureKind::Backend => PollFailureKindRecord::Backend,
            PollFailureKind::Malformed => PollFailureKindRecord::Malformed,
        }
    }

    /// The value that a record restates.
    pub open spec fn restated(self) -> PollFailureKind {
        match self {
            PollFailureKindRecord::Unauthorized => PollFailureKind::Unauthorized,
            PollFailureKindRecord::Unreachable => PollFailureKind::Unreachable,
            PollFailureKindRecord::Backend => PollFailureKind::Backend,
            PollFailureKindRecord::Malformed => PollFailureKind::Malformed,
        }
    }
}

impl vstd::std_specs::convert::FromSpecImpl<PollFailureKind> for PollFailureKindRecord {
    open spec fn obeys_from_spec() -> bool {
        true
    }

    open spec fn from_spec(value: PollFailureKind) -> PollFailureKindRecord {
        PollFailureKindRecord::restating(value)
    }
}

impl From<PollFailureKind> for PollFailureKindRecord {
    fn from(value: PollFailureKind) -> PollFailureKindRecord {
        match value {
            PollFailureKind::Unauthorized => PollFailureKindRecord::Unauthorized,
            PollFailureKind::Unreachable => PollFailureKindRecord::Unreachable,
            PollFailureKind::Backend => PollFailureKindRecord::Backend,
            PollFailureKind::Malformed => PollFailureKindRecord::Malformed,
        }
    }
}

impl vstd::std_specs::convert::FromSpecImpl<PollFailureKindRecord> for PollFailureKind {
    open spec fn obeys_from_spec() -> bool {
        true
    }

    open spec fn from_spec(record: PollFailureKindRecord) -> PollFailureKind {
        record.restated()
    }
}

impl From<PollFailureKindRecord> for PollFailureKind {
    fn from(record: PollFailureKindRecord) -> PollFailureKind {
        match record {
            PollFailureKindRecord::Unauthorized => PollFailureKind::Unauthorized,
            PollFailureKindRecord::Unreachable => PollFailureKind::Unreachable,
            PollFailureKindRecord::Backend => PollFailureKind::Backend,
            PollFailureKindRecord::Malformed => PollFailureKind::Malformed,
        }
    }
}

/// Every poll failure kind and its record restate each other.
pub proof fn poll_failure_kind_records_round_trip(
    value: PollFailureKind,
    record: PollFailureKindRecord,
)
    ensures
        PollFailureKindRecord::restating(value).restated() == value,
        PollFailureKindRecord::restating(record.restated()) == record,
{
}

/// Which request failed.
#[derive(Debug, Clone, Copy, PartialEq, Eq, Structural)]
pub enum PollFailureSourceRecord {
    Roster,
    Series { metric: MetricKindRecord },
}

impl PollFailureSourceRecord {
    /// The record that restates a source.
    pub open spec fn restating(source: FailureSource) -> PollFailureSourceRecord {
        match source {
            FailureSource::Roster => PollFailureSourceRecord::Roster,
            FailureSource::Series { metric } => PollFailureSourceRecord::Series {
                metric: MetricKindRecord::restating(metric),
            },
        }
    }

    /// The source that a record restates.
    pub open spec fn restated(self) -> FailureSource {
        match self {
            PollFailureSourceRecord::Roster => FailureSource::Roster,
            PollFailureSourceRecord::Series { metric } => FailureSource::Series {
                metric: metric.restated(),
            },
        }
    }
}

impl vstd::std_specs::convert::FromSpecImpl<FailureSource> for PollFailureSourceRecord {
    open spec fn obeys_from_spec() -> bool {
        true
    }

    open spec fn from_spec(source: FailureSource) -> PollFailureSourceRecord {
        PollFailureSourceRecord::restating(source)
    }
}

impl From<FailureSource> for PollFailureSourceRecord {
    fn from(source: FailureSource) -> PollFailureSourceRecord {
        match source {
            FailureSource::Roster => PollFailureSourceRecord::Roster,
            FailureSource::Series { metric } => PollFailureSourceRecord::Series {
                metric: MetricKindRecord::from(metric),
            },
        }
    }
}

impl vstd::std_specs::convert::FromSpecImpl<PollFailureSourceRecord> for FailureSource {
    open spec fn obeys_from_spec() -> bool {
        true
    }

    open spec fn from_spec(record: PollFailureSourceRecord) -> FailureSource {
        record.restated()
    }
}

impl From<PollFailureSourceRecord> for FailureSource {
    fn from(record: PollFailureSourceRecord) -> FailureSource {
        match record {
            PollFailureSourceRecord::Roster => FailureSource::Roster,
            PollFailureSourceRecord::Series { metric } => FailureSource::Series {
                metric: MetricKind::from(metric),
            },
        }
    }
}

/// Every source and its record restate each other.
pub proof fn poll_failure_source_records_round_trip(
    value: FailureSource,
    record: PollFailureSourceRecord,
)
    ensures
        PollFailureSourceRecord::restating(value).restated() == value,
        PollFailureSourceRecord::restating(record.restated()) == record,
{
}

/// One request's failure, as data rather than as a thrown error.
#[derive(Debug, Clone, PartialEq, Eq)]
pub struct PollFailureRecord {
    pub kind: PollFailureKindRecord,
    pub source: PollFailureSourceRecord,
    pub message: String,
    pub at_millis: i64,
    /// Retrying cannot help, the user must change something.
    pub is_actionable: bool,
    /// Coming back later could plausibly succeed with nothing else changed.
    pub is_transient: bool,
}

impl PollFailureRecord {
    /// Whether the record restates a failure.
    pub open spec fn restates(self, failure: PollFailure) -> bool {
        &&& self.kind == PollFailureKindRecord::restating(failure.kind)
        &&& self.source == PollFailureSourceRecord::restating(failure.source)
        &&& self.message == failure.message
        &&& self.at_millis == convert::millis_of(failure.at)
        &&& self.is_actionable == failure.kind.actionable()
        &&& self.is_transient == failure.kind.transient()
    }

    /// Whether a failure has everything that the record says. What is derived from its
    /// kind is not read back.
    pub open spec fn describes(self, failure: PollFailure) -> bool {
        &&& failure.kind == self.kind.restated()
        &&& failure.source == self.source.restated()
        &&& failure.message == self.message
        &&& convert::falls_on(failure.at, self.at_millis)
    }
}

impl vstd::std_specs::convert::FromSpecImpl<&PollFailure> for PollFailureRecord {
    open spec fn obeys_from_spec() -> bool {
        false
    }

    open spec fn from_spec(failure: &PollFailure) -> PollFailureRecord {
        arbitrary()
    }
}

impl From<&PollFailure> for PollFailureRecord {
    fn from(failure: &PollFailure) -> (r: PollFailureRecord)
        ensures
            r.restates(*failure),
    {
        PollFailureRecord {
            kind: PollFailureKindRecord::from(failure.kind),
            source: PollFailureSourceRecord::from(failure.source),
            message: failure.message.clone(),
            at_millis: datetime_to_millis(failure.at),
            is_actionable: failure.kind.is_actionable(),
            is_transient: failure.kind.is_transient(),
        }
    }
}

impl vstd::std_specs::convert::FromSpecImpl<PollFailure> for PollFailureRecord {
    open spec fn obeys_from_spec() -> bool {
        false
    }

    open spec fn from_spec(failure: PollFailure) -> PollFailureRecord {
        arbitrary()
    }
}

impl From<PollFailure> for PollFailureRecord {
    fn from(failure: PollFailure) -> (r: PollFailureRecord)
        ensures
            r.restates(failure),
    {
        PollFailureRecord::from(&failure)
    }
}

impl vstd::std_specs::convert::TryFromSpecImpl<PollFailureRecord> for PollFailure {
    open spec fn obeys_try_from_spec() -> bool {
        false
    }

    open spec fn try_from_spec(record: PollFailureRecord) -> Result<PollFailure, FfiError> {
        arbitrary()
    }
}

impl TryFrom<PollFailureRecord> for PollFailure {
    type Error = FfiError;

    fn try_from(record: PollFailureRecord) -> (r: Result<PollFailure, FfiError>)
        ensures
            r is Ok <==> convert::is_millis(record.at_millis),
            r matches Ok(failure) ==> record.describes(failure),
            r matches Err(e) ==> convert::is_millis_error(e, record.at_millis),
    {
        match millis_to_datetime(record.at_millis) {
            Err(e) => Err(e),
            Ok(at) => Ok(
                PollFailure {
                    kind: PollFailureKind::from(record.kind),
                    source: FailureSource::from(record.source),
                    message: record.message,
                    at,
                },
            ),
        }
    }
}

/// Retrying and acting are not each other's negation: an answer that could not be read
/// asks for neither.
pub proof fn failures_split_three_ways(kind: PollFailureKind)
    ensures
        !(kind.actionable() && kind.transient()),
        kind == PollFailureKind::Malformed <==> !kind.actionable() && !kind.transient(),
{
}

/// An alert crossing a phase boundary.
#[derive(Debug, Clone, PartialEq, Eq)]
pub struct AlertTransitionRecord {
    /// The rule's URN as its canonical string.
    pub rule_id: String,
    pub rule_name: String,
    pub host_id: String,
    pub from: AlertPhaseRecord,
    pub to: AlertPhaseRecord,
    /// When the breach started, not when the alert fired.
    pub breaching_since_millis: Option<i64>,
    /// The poll instant the crossing was observed at.
    pub at_millis: i64,
    /// The edge worth a notification.
    pub is_fire: bool,
    /// The edge worth withdrawing one.
    pub is_resolve: bool,
}

impl AlertTransitionRecord {
    /// Whether the record restates a transition.
    pub open spec fn restates(self, transition: AlertTransition) -> bool {
        &&& convert::renders_urn(self.rule_id@, transition.rule_id@)
        &&& self.rule_name == transition.rule_name
        &&& self.host_id@ == transition.host@
        &&& self.from == AlertPhaseRecord::restating(transition.from)
        &&& self.to == AlertPhaseRecord::restating(transition.to)
        &&& self.breaching_since_millis == convert::optional_millis_of(
            transition.breaching_since,
        )
        &&& self.at_millis == convert::millis_of(transition.at)
        &&& self.is_fire == fold::fires(transition.from, transition.to)
        &&& self.is_resolve == fold::resolves(transition.from, transition.to)
    }

    /// Whether a transition has everything that the record says. What is derived from
    /// its phases is not read back.
    pub open spec fn describes(self, transition: AlertTransition) -> bool {
        &&& urn::parsed_urn(self.rule_id@) matches Ok(id)
        &&& transition.rule_id@ == id
        &&& transition.rule_name == self.rule_name
        &&& transition.host@ == self.host_id@
        &&& transition.from == self.from.restated()
        &&& transition.to == self.to.restated()
        &&& convert::optionally_falls_on(
            transition.breaching_since,
            self.breaching_since_millis,
        )
        &&& convert::falls_on(transition.at, self.at_millis)
    }

    /// The milliseconds of the record, in the order they are read.
    pub open spec fn instants(self) -> Seq<i64> {
        view_records::optional_instants(self.breaching_since_millis) + seq![self.at_millis]
    }
}

impl vstd::std_specs::convert::FromSpecImpl<&AlertTransition> for AlertTransitionRecord {
    open spec fn obeys_from_spec() -> bool {
        false
    }

    open spec fn from_spec(transition: &AlertTransition) -> AlertTransitionRecord {
        arbitrary()
    }
}

impl From<&AlertTransition> for AlertTransitionRecord {
    fn from(transition: &AlertTransition) -> (r: AlertTransitionRecord)
        ensures
            r.restates(*transition),
    {
        AlertTransitionRecord {
            rule_id: urn_to_string(&transition.rule_id),
            rule_name: transition.rule_name.clone(),
            host_id: host_id_to_string(&transition.host),
            from: AlertPhaseRecord::from(transition.from),
            to: AlertPhaseRecord::from(transition.to),
            breaching_since_millis: optional_datetime_to_millis(transition.breaching_since),
            at_millis: datetime_to_millis(transition.at),
            is_fire: transition.is_fire(),
            is_resolve: transition.is_resolve(),
        }
    }
}

impl vstd::std_specs::convert::FromSpecImpl<AlertTransition> for AlertTransitionRecord {
    open spec fn obeys_from_spec() -> bool {
        false
    }

    open spec fn from_spec(transition: AlertTransition) -> AlertTransitionRecord {
        arbitrary()
    }
}

impl From<AlertTransition> for AlertTransitionRecord {
    fn from(transition: AlertTransition) -> (r: AlertTransitionRecord)
        ensures
            r.restates(transition),
    {
        AlertTransitionRecord::from(&transition)
    }
}

impl vstd::std_specs::convert::TryFromSpecImpl<AlertTransitionRecord> for AlertTransition {
    open spec fn obeys_try_from_spec() -> bool {
        false
    }

    open spec fn try_from_spec(record: AlertTransitionRecord) -> Result<AlertTransition, FfiError> {
        arbitrary()
    }
}

impl TryFrom<AlertTransitionRecord> for AlertTransition {
    type Error = FfiError;

    /// Reads the URN first, then the instants in their order.
    fn try_from(record: AlertTransitionRecord) -> (r: Result<AlertTransition, FfiError>)
        ensures
            r is Ok <==> urn::parsed_urn(record.rule_id@) is Ok && view_records::all_instants(
                record.instants(),
            ),
            r matches Ok(transition) ==> record.describes(transition),
            r matches Err(e) ==> match urn::parsed_urn(record.rule_id@) {
                Err(message) => e is InvalidUrn && e.message_text() == message,
                Ok(_) => view_records::is_first_error(e, record.instants()),
            },
    {
        let ghost instants = record.instants();
        let ghost n = view_records::optional_instants(record.breaching_since_millis).len();
        assert(record.breaching_since_millis matches Some(m) ==> instants[0] == m);
        assert(instants[n as int] == record.at_millis);
        let rule_id = match urn_from_string(record.rule_id.as_str()) {
            Ok(id) => id,
            Err(e) => return Err(e),
        };
        let breaching_since = match optional_millis_to_datetime(record.breaching_since_millis) {
            Ok(at) => at,
            Err(e) => {
                assert(!convert::is_millis(instants[0]));
                return Err(e);
            },
        };
        let at = match millis_to_datetime(record.at_millis) {
            Ok(at) => at,
            Err(e) => {
                assert(!convert::is_millis(instants[n as int]));
                return Err(e);
            },
        };
        Ok(
            AlertTransition {
                rule_id,
                rule_name: record.rule_name,
                host: host_id_from_string(record.host_id),
                from: AlertPhase::from(record.from),
                to: AlertPhase::from(record.to),
                breaching_since,
                at,
            },
        )
    }
}

/// The records of some transitions, in their order.
pub fn transitions_to_records(transitions: &[AlertTransition]) -> (r: Vec<AlertTransitionRecord>)
    ensures
        r@.len() == transitions@.len(),
        forall|i: int|
            0 <= i < transitions@.len() ==> (#[trigger] r@[i]).restates(transitions@[i]),
{
    let mut out: Vec<AlertTransitionRecord> = Vec::new();
    let mut n: usize = 0;
    while n < transitions.len()
        invariant
            n <= transitions@.len(),
            out@.len() == n,
            forall|i: int| 0 <= i < n ==> (#[trigger] out@[i]).restates(transitions@[i]),
        decreases transitions@.len() - n,
    {
        out.push(AlertTransitionRecord::from(&transitions[n]));
        n += 1;
    }
    out
}

/// When to come back.
#[derive(Debug, Clone, PartialEq, Eq)]
pub enum PollAdviceRecord {
    Poll { after_seconds: i64 },
    Retry { after_seconds: i64, consecutive_failures: u32 },
    Stop { reason: PollFailureKindRecord, message: String },
}

impl PollAdviceRecord {
    /// The record that restates an advice.
    pub open spec fn restating(advice: PollAdvice) -> PollAdviceRecord {
        match advice {
            PollAdvice::Poll { after } => PollAdviceRecord::Poll {
                after_seconds: convert::seconds_of(after),
            },
            PollAdvice::Retry { after, consecutive_failures } => PollAdviceRecord::Retry {
                after_seconds: convert::seconds_of(after),
                consecutive_failures,
            },
            PollAdvice::Stop { reason, message } => PollAdviceRecord::Stop {
                reason: PollFailureKindRecord::restating(reason),
                message,
            },
        }
    }

    /// The seconds that the record waits, where it waits at all.
    pub open spec fn wait(self) -> Option<i64> {
        match self {
            PollAdviceRecord::Poll { after_seconds } => Some(after_seconds),
            PollAdviceRecord::Retry { after_seconds, .. } => Some(after_seconds),
            PollAdviceRecord::Stop { .. } => None,
        }
    }

    /// Whether an advice has everything that the record says.
    pub open spec fn describes(self, advice: PollAdvice) -> bool {
        &&& PollAdviceRecord::restating(advice) == self
        &&& advised_wait(advice) matches Some(after) ==> convert::lasts(after, self.wait()->0)
    }
}

/// How long an advice waits, where it waits at all.
pub open spec fn advised_wait(advice: PollAdvice) -> Option<TimeDelta> {
    match advice {
        PollAdvice::Poll { after } => Some(after),
        PollAdvice::Retry { after, .. } => Some(after),
        PollAdvice::Stop { .. } => None,
    }
}

impl vstd::std_specs::convert::FromSpecImpl<&PollAdvice> for PollAdviceRecord {
    open spec fn obeys_from_spec() -> bool {
        false
    }

    open spec fn from_spec(advice: &PollAdvice) -> PollAdviceRecord {
        arbitrary()
    }
}

impl From<&PollAdvice> for PollAdviceRecord {
    fn from(advice: &PollAdvice) -> (r: PollAdviceRecord)
        ensures
            r == PollAdviceRecord::restating(*advice),
    {
        match advice {
            PollAdvice::Poll { after } => PollAdviceRecord::Poll {
                after_seconds: duration_to_seconds(*after),
            },
            PollAdvice::Retry { after, consecutive_failures } => PollAdviceRecord::Retry {
                after_seconds: duration_to_seconds(*after),
                consecutive_failures: *consecutive_failures,
            },
            PollAdvice::Stop { reason, message } => PollAdviceRecord::Stop {
                reason: PollFailureKindRecord::from(*reason),
                message: message.clone(),
            },
        }
    }
}

impl vstd::std_specs::convert::FromSpecImpl<PollAdvice> for PollAdviceRecord {
    open spec fn obeys_from_spec() -> bool {
        false
    }

    open spec fn from_spec(advice: PollAdvice) -> PollAdviceRecord {
        arbitrary()
    }
}

impl From<PollAdvice> for PollAdviceRecord {
    fn from(advice: PollAdvice) -> (r: PollAdviceRecord)
        ensures
            r == PollAdviceRecord::restating(advice),
    {
        PollAdviceRecord::from(&advice)
    }
}

impl vstd::std_specs::convert::TryFromSpecImpl<PollAdviceRecord> for PollAdvice {
    open spec fn obeys_try_from_spec() -> bool {
        false
    }

    open spec fn try_from_spec(record: PollAdviceRecord) -> Result<PollAdvice, FfiError> {
        arbitrary()
    }
}

impl TryFrom<PollAdviceRecord> for PollAdvice {
    type Error = FfiError;

    fn try_from(record: PollAdviceRecord) -> (r: Result<PollAdvice, FfiError>)
        ensures
            r is Ok <==> (record.wait() matches Some(seconds) ==> convert::is_seconds(seconds)),
            r matches Ok(advice) ==> record.describes(advice),
            r matches Err(e) ==> convert::is_seconds_error(e, record.wait()->0),
    {
        match record {
            PollAdviceRecord::Poll { after_seconds } => match seconds_to_duration(after_seconds) {
                Ok(after) => Ok(PollAdvice::Poll { after }),
                Err(e) => Err(e),
            },
            PollAdviceRecord::Retry { after_seconds, consecutive_failures } => {
                match seconds_to_duration(after_seconds) {
                    Ok(after) => Ok(PollAdvice::Retry { after, consecutive_failures }),
                    Err(e) => Err(e),
                }
            },
            PollAdviceRecord::Stop { reason, message } => Ok(
                PollAdvice::Stop { reason: PollFailureKind::from(reason), message },
            ),
        }
    }
}

/// What a cold start could and could not salvage.
#[derive(Debug, Clone, Copy, PartialEq, Eq, Structural)]
pub struct RestoreReportRecord {
    /// The cache's schema version did not match and everything was discarded.
    pub discarded_incompatible: bool,
    /// The cache was not valid JSON.
    pub discarded_unreadable: bool,
    pub hosts_restored: u32,
    pub evaluations_restored: u32,
    /// When the cache was written. `None`, not `0`, for one that never polled.
    pub saved_as_of_millis: Option<i64>,
}

impl RestoreReportRecord {
    /// The record that restates a report.
    pub open spec fn restating(report: RestoreReport) -> RestoreReportRecord {
        RestoreReportRecord {
            discarded_incompatible: report.discarded_incompatible,
            discarded_unreadable: report.discarded_unreadable,
            hosts_restored: report.hosts_restored,
            evaluations_restored: report.evaluations_restored,
            saved_as_of_millis: convert::optional_millis_of(report.saved_as_of),
        }
    }

    /// Whether a report has everything that the record says.
    pub open spec fn describes(self, report: RestoreReport) -> bool {
        &&& RestoreReportRecord::restating(report) == self
        &&& convert::optionally_falls_on(report.saved_as_of, self.saved_as_of_millis)
    }
}

impl vstd::std_specs::convert::FromSpecImpl<RestoreReport> for RestoreReportRecord {
    open spec fn obeys_from_spec() -> bool {
        true
    }

    open spec fn from_spec(report: RestoreReport) -> RestoreReportRecord {
        RestoreReportRecord::restating(report)
    }
}

impl From<RestoreReport> for RestoreReportRecord {
    fn from(report: RestoreReport) -> RestoreReportRecord {
        RestoreReportRecord {
            discarded_incompatible: report.discarded_incompatible,
            discarded_unreadable: report.discarded_unreadable,
            hosts_restored: report.hosts_restored,
            evaluations_restored: report.evaluations_restored,
            saved_as_of_millis: optional_datetime_to_millis(report.saved_as_of),
        }
    }
}

impl vstd::std_specs::convert::TryFromSpecImpl<RestoreReportRecord> for RestoreReport {
    open spec fn obeys_try_from_spec() -> bool {
        false
    }

    open spec fn try_from_spec(record: RestoreReportRecord) -> Result<RestoreReport, FfiError> {
        arbitrary()
    }
}

impl TryFrom<RestoreReportRecord> for RestoreReport {
    type Error = FfiError;

    fn try_from(record: RestoreReportRecord) -> (r: Result<RestoreReport, FfiError>)
        ensures
            r is Ok <==> (record.saved_as_of_millis matches Some(m) ==> convert::is_millis(m)),
            r matches Ok(report) ==> record.describes(report),
            r matches Err(e) ==> convert::is_millis_error(e, record.saved_as_of_millis->0),
    {
        match optional_millis_to_datetime(record.saved_as_of_millis) {
            Err(e) => Err(e),
            Ok(saved_as_of) => Ok(
                RestoreReport {
                    discarded_incompatible: record.discarded_incompatible,
                    discarded_unreadable: record.discarded_unreadable,
                    hosts_restored: record.hosts_restored,
                    evaluations_restored: record.evaluations_restored,
                    saved_as_of,
                },
            ),
        }
    }
}

/// What one poll produced.
#[derive(Debug, Clone, PartialEq, Eq)]
pub struct PollResult {
    pub view: FleetViewRecord,
    pub transitions: Vec<AlertTransitionRecord>,
    pub advice: PollAdviceRecord,
    /// Another poll was in flight, so this one did nothing.
    pub skipped: bool,
}

impl PollResult {
    /// The result of a poll that ran.
    pub fn folded(
        view: FleetViewRecord,
        transitions: Vec<AlertTransitionRecord>,
        advice: PollAdviceRecord,
    ) -> (r: PollResult)
        ensures
            r == (PollResult { view, transitions, advice, skipped: false }),
    {
        PollResult { view, transitions, advice, skipped: false }
    }

    /// The result of a poll that found another one in flight: it crossed nothing, so it
    /// carries no transitions.
    pub fn skipped_in_flight(view: FleetViewRecord, advice: PollAdviceRecord) -> (r: PollResult)
        ensures
            r.view == view,
            r.transitions@ == Seq::<AlertTransitionRecord>::empty(),
            r.advice == advice,
            r.skipped,
    {
        PollResult { view, transitions: Vec::new(), advice, skipped: true }
    }
}

/// A failure on a whole millisecond survives its record.
pub proof fn failures_survive_their_records(
    failure: PollFailure,
    record: PollFailureRecord,
    back: PollFailure,
)
    requires
        convert::on_a_millisecond(failure.at),
        record.restates(failure),
        record.describes(back),
    ensures
        convert::is_millis(record.at_millis),
        back == failure,
{
    convert::millis_recover_the_instant(failure.at, back.at);
}

/// A transition on whole milliseconds survives its record, up to a URN that reads back
/// as another one.
pub proof fn transitions_survive_their_records(
    transition: AlertTransition,
    record: AlertTransitionRecord,
    back: AlertTransition,
)
    requires
        transition.rule_id@.rereads(),
        convert::optionally_on_a_millisecond(transition.breaching_since),
        convert::on_a_millisecond(transition.at),
        record.restates(transition),
        record.describes(back),
    ensures
        view_records::all_instants(record.instants()),
        back.rule_id@ == transition.rule_id@,
        back.rule_name == transition.rule_name,
        back.host@ == transition.host@,
        back.from == transition.from,
        back.to == transition.to,
        back.breaching_since == transition.breaching_since,
        back.at == transition.at,
{
    convert::optional_millis_recover_the_instant(transition.breaching_since, back.breaching_since);
    convert::millis_recover_the_instant(transition.at, back.at);
}

/// An advice in whole seconds survives its record.
pub proof fn advice_survives_its_record(advice: PollAdvice, back: PollAdvice)
    requires
        advised_wait(advice) matches Some(after) ==> convert::in_whole_seconds(after),
        PollAdviceRecord::restating(advice).describes(back),
    ensures
        PollAdviceRecord::restating(advice).wait() matches Some(seconds) ==> convert::is_seconds(
            seconds,
        ),
        back == advice,
{
    if advised_wait(advice) is Some {
        convert::seconds_recover_the_span(advised_wait(advice)->0, advised_wait(back)->0);
    }
}

/// A report of a cache saved on a whole millisecond, or never, survives its record.
pub proof fn restore_reports_survive(report: RestoreReport, back: RestoreReport)
    requires
        convert::optionally_on_a_millisecond(report.saved_as_of),
        RestoreReportRecord::restating(report).describes(back),
    ensures
        RestoreReportRecord::restating(report).saved_as_of_millis matches Some(millis)
            ==> convert::is_millis(millis),
        back == report,
{
    convert::optional_millis_recover_the_instant(report.saved_as_of, back.saved_as_of);
}

/// A kind of failure crosses the boundary under its own name, both ways.
pub proof fn poll_failure_kind_records_keep_their_names(value: PollFailureKind, record: PollFailureKindRecord)
    ensures
        PollFailureKindRecord::restating(value) == PollFailureKindRecord::Unauthorized <==> value == PollFailureKind::Unauthorized,
        record.restated() == PollFailureKind::Unauthorized <==> record == PollFailureKindRecord::Unauthorized,
        PollFailureKindRecord::restating(value) == PollFailureKindRecord::Unreachable <==> value == PollFailureKind::Unreachable,
        record.restated() == PollFailureKind::Unreachable <==> record == PollFailureKindRecord::Unreachable,
        PollFailureKindRecord::restating(value) == PollFailureKindRecord::Backend <==> value == PollFailureKind::Backend,
        record.restated() == PollFailureKind::Backend <==> record == PollFailureKindRecord::Backend,
        PollFailureKindRecord::restating(value) == PollFailureKindRecord::Malformed <==> value == PollFailureKind::Malformed,
        record.restated() == PollFailureKind::Malformed <==> record == PollFailureKindRecord::Malformed,
{
}

/// Where a failure came from crosses as what it is: the roster, or the series of a
/// metric under its own name.
pub proof fn failure_sources_keep_their_metric(metric: MetricKind)
    ensures
        PollFailureSourceRecord::restating(FailureSource::Roster)
            == PollFailureSourceRecord::Roster,
        PollFailureSourceRecord::restating(FailureSource::Series { metric }) == (
        PollFailureSourceRecord::Series { metric: MetricKindRecord::restating(metric) }),
{
}

/// The record of a failure holds its kind, source, message and instant, and says that
/// it is the user's to mend exactly where a credential was refused, and that it may
/// pass by itself exactly where the backend was unreachable or ailing.
pub proof fn failure_records_keep_their_names(record: PollFailureRecord, failure: PollFailure)
    requires
        record.restates(failure),
    ensures
        record.kind.restated() == failure.kind,
        record.source.restated() == failure.source,
        record.message@ == failure.message@,
        record.at_millis == convert::millis_of(failure.at),
        record.is_actionable <==> record.kind == PollFailureKindRecord::Unauthorized,
        record.is_transient <==> record.kind == PollFailureKindRecord::Unreachable || record.kind
            == PollFailureKindRecord::Backend,
{
    poll_failure_source_records_round_trip(failure.source, record.source);
}

/// A failure that was read from a record is the one the record says, at its very
/// millisecond.
pub proof fn failures_are_what_their_records_say(record: PollFailureRecord, failure: PollFailure)
    requires
        record.describes(failure),
    ensures
        PollFailureKindRecord::restating(failure.kind) == record.kind,
        PollFailureSourceRecord::restating(failure.source) == record.source,
        failure.message@ == record.message@,
        failure.at.total() == record.at_millis * 1_000_000,
{
    poll_failure_source_records_round_trip(failure.source, record.source);
}

/// The record of a transition holds its rule, its host, both phases and its instants,
/// and says that it fired exactly where it came to firing from another phase, and that
/// it resolved exactly where it came from firing to clear.
pub proof fn transition_records_keep_their_names(
    record: AlertTransitionRecord,
    transition: AlertTransition,
)
    requires
        record.restates(transition),
    ensures
        record.rule_id@ == transition.rule_id@.rendered(),
        record.rule_name@ == transition.rule_name@,
        record.host_id@ == transition.host@,
        record.from.restated() == transition.from,
        record.to.restated() == transition.to,
        record.breaching_since_millis == convert::optional_millis_of(transition.breaching_since),
        record.at_millis == convert::millis_of(transition.at),
        record.is_fire <==> record.to == AlertPhaseRecord::Firing && record.from
            != AlertPhaseRecord::Firing,
        record.is_resolve <==> record.from == AlertPhaseRecord::Firing && record.to
            == AlertPhaseRecord::Clear,
{
}

/// A transition that was read from a record is the one the record says.
pub proof fn transitions_are_what_their_records_say(
    record: AlertTransitionRecord,
    transition: AlertTransition,
)
    requires
        record.describes(transition),
    ensures
        urn::parsed_urn(record.rule_id@) is Ok,
        urn::parsed_urn(record.rule_id@)->Ok_0 == transition.rule_id@,
        transition.rule_name@ == record.rule_name@,
        transition.host@ == record.host_id@,
        AlertPhaseRecord::restating(transition.from) == record.from,
        AlertPhaseRecord::restating(transition.to) == record.to,
        transition.breaching_since is Some <==> record.breaching_since_millis is Some,
        transition.breaching_since is Some ==> transition.breaching_since->0.total()
            == record.breaching_since_millis->0 * 1_000_000,
        transition.at.total() == record.at_millis * 1_000_000,
{
}

/// Advice crosses as what it is: to poll, to retry or to stop, with its wait in whole
/// seconds, how many failures there were, or the reason.
pub proof fn advice_keeps_its_kind(
    after: TimeDelta,
    consecutive_failures: u32,
    reason: PollFailureKind,
    message: String,
)
    ensures
        PollAdviceRecord::restating(PollAdvice::Poll { after }) == (PollAdviceRecord::Poll {
            after_seconds: convert::seconds_of(after),
        }),
        PollAdviceRecord::restating(PollAdvice::Retry { after, consecutive_failures }) == (
        PollAdviceRecord::Retry {
            after_seconds: convert::seconds_of(after),
            consecutive_failures,
        }),
        PollAdviceRecord::restating(PollAdvice::Stop { reason, message }) == (
        PollAdviceRecord::Stop { reason: PollFailureKindRecord::restating(reason), message }),
{
}

/// What a restore salvaged crosses under its own names.
pub proof fn restore_reports_keep_their_names(report: RestoreReport)
    ensures
        RestoreReportRecord::restating(report).discarded_incompatible
            == report.discarded_incompatible,
        RestoreReportRecord::restating(report).discarded_unreadable == report.discarded_unreadable,
        RestoreReportRecord::restating(report).hosts_restored == report.hosts_restored,
        RestoreReportRecord::restating(report).evaluations_restored == report.evaluations_restored,
        RestoreReportRecord::restating(report).saved_as_of_millis == convert::optional_millis_of(
            report.saved_as_of,
        ),
{
}

/// Advice and reports that were read from their records are what the records say: the
/// same kind, with the wait to the second and the instant to the millisecond.
pub proof fn advice_and_reports_are_what_their_records_say(
    advice_record: PollAdviceRecord,
    advice: PollAdvice,
    report_record: RestoreReportRecord,
    report: RestoreReport,
)
    requires
        advice_record.describes(advice),
        report_record.describes(report),
    ensures
        advice_record is Poll <==> advice is Poll,
        advice_record is Retry <==> advice is Retry,
        advice_record is Stop <==> advice is Stop,
        advice is Poll ==> advice->Poll_after.total() == advice_record->Poll_after_seconds
            * 1_000_000_000,
        advice is Retry ==> advice->Retry_after.total() == advice_record->Retry_after_seconds
            * 1_000_000_000 && advice->consecutive_failures == advice_record->consecutive_failures,
        advice is Stop ==> advice->message == advice_record->message && advice->reason
            == advice_record->reason.restated(),
        report.hosts_restored == report_record.hosts_restored,
        report.evaluations_restored == report_record.evaluations_restored,
        report.discarded_incompatible == report_record.discarded_incompatible,
        report.discarded_unreadable == report_record.discarded_unreadable,
        report.saved_as_of is Some <==> report_record.saved_as_of_millis is Some,
        report.saved_as_of is Some ==> report.saved_as_of->0.total()
            == report_record.saved_as_of_millis->0 * 1_000_000,
{
}

/// The instants of a transition's record are its breach's, if it has one, and its own.
pub proof fn transitions_list_their_instants(record: AlertTransitionRecord)
    ensures
        record.breaching_since_millis is None ==> record.instants() == seq![record.at_millis],
        record.breaching_since_millis is Some ==> record.instants() == seq![
            record.breaching_since_millis->0,
            record.at_millis,
        ],
{
    if record.breaching_since_millis is None {
        assert(record.instants() =~= seq![record.at_millis]);
    } else {
        assert(record.instants() =~= seq![record.breaching_since_millis->0, record.at_millis]);
    }
}

} // verus!
