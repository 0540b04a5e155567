//! The "test connection" answer, in shapes that cross the boundary.

use crate::client::error::{FailureSource, PollFailure, PollFailureKind};
use crate::client::probe::BackendProbe;
use crate::domain::host;
use crate::domain::metric::MetricKind;
use crate::ffi::config_records::hosts_to_strings;
use crate::ffi::convert;
use crate::ffi::convert::{datetime_to_millis, FfiError};
use crate::text;
use vstd::prelude::*;

verus! {

/// Why a probe failed, coarse enough for a settings screen to route on.
#[derive(Debug, Clone, Copy, PartialEq, Eq, Structural)]
pub enum ProbeFailureKind {
    Unauthorized,
    Unreachable,
    Backend,
    Malformed,
}

impl ProbeFailureKind {
    /// The record that restates a value.
    pub open spec fn restating(value: PollFailureKind) -> ProbeFailureKind {
        match value {
            PollFailureKind::Unauthorized => ProbeFailureKind::Unauthorized,
            PollFailureKind::Unreachable => ProbeFailureKind::Unreachable,
            PollFailureKind::Backend => ProbeFailureKind::Backend,
            PollFailureKind::Malformed => ProbeFailureKind::Malformed,
        }
    }

    /// The value that a record restates.
    pub open spec fn restated(self) -> PollFailureKind {
        match self {
            ProbeFailureKind::Unauthorized => PollFailureKind::Unauthorized,
            ProbeFailureKind::Unreachable => PollFailureKind::Unreachable,
            ProbeFailureKind::Backend => PollFailureKind::Backend,
            ProbeFailureKind::Malformed => PollFailureKind::Malformed,
        }
    }
}

impl vstd::std_specs::convert::FromSpecImpl<PollFailureKind> for ProbeFailureKind {
    open spec fn obeys_from_spec() -> bool {
        true
    }

    open spec fn from_spec(value: PollFailureKind) -> ProbeFailureKind {
        ProbeFailureKind::restating(value)
    }
}

impl From<PollFailureKind> for ProbeFailureKind {
    fn from(value: PollFailureKind) -> ProbeFailureKind {
        match value {
            PollFailureKind::Unauthorized => ProbeFailureKind::Unauthorized,
            PollFailureKind::Unreachable => ProbeFailureKind::Unreachable,
            PollFailureKind::Backend => ProbeFailureKind::Backend,
            PollFailureKind::Malformed => ProbeFailureKind::Malformed,
        }
    }
}

impl vstd::std_specs::convert::FromSpecImpl<ProbeFailureKind> for PollFailureKind {
    open spec fn obeys_from_spec() -> bool {
        true
    }

    open spec fn from_spec(record: ProbeFailureKind) -> PollFailureKind {
        record.restated()
    }
}

impl From<ProbeFailureKind> for PollFailureKind {
    fn from(record: ProbeFailureKind) -> PollFailureKind {
        match record {
            ProbeFailureKind::Unauthorized => PollFailureKind::Unauthorized,
            ProbeFailureKind::Unreachable => PollFailureKind::Unreachable,
            ProbeFailureKind::Backend => PollFailureKind::Backend,
            ProbeFailureKind::Malformed => PollFailureKind::Malformed,
        }
    }
}

/// Every kind of failure and its mirror restate each other.
pub proof fn probe_failure_kinds_round_trip(value: PollFailureKind, kind: ProbeFailureKind)
    ensures
        ProbeFailureKind::restating(value).restated() == value,
        ProbeFailureKind::restating(kind.restated()) == kind,
{
}

/// Which request failed. A metric is named by its OTel instrument name.
#[derive(Debug, Clone, PartialEq, Eq)]
pub enum ProbeFailedRequest {
    /// The list of hosts.
    Roster,
    /// One metric query.
    Series { metric_otel_name: String },
}

impl ProbeFailedRequest {
    /// Whether the request restates a source.
    pub open spec fn restates(self, source: FailureSource) -> bool {
        match source {
            FailureSource::Roster => self is Roster,
            FailureSource::Series { metric } => {
                &&& self matches ProbeFailedRequest::Series { metric_otel_name }
                &&& metric_otel_name@ == metric.name_text()
            },
        }
    }
}

impl vstd::std_specs::convert::FromSpecImpl<FailureSource> for ProbeFailedRequest {
    open spec fn obeys_from_spec() -> bool {
        false
    }

    open spec fn from_spec(source: FailureSource) -> ProbeFailedRequest {
        arbitrary()
    }
}

impl From<FailureSource> for ProbeFailedRequest {
    fn from(source: FailureSource) -> (r: ProbeFailedRequest)
        ensures
            r.restates(source),
    {
        match source {
            FailureSource::Roster => ProbeFailedRequest::Roster,
            FailureSource::Series { metric } => ProbeFailedRequest::Series {
                metric_otel_name: metric.otel_name().to_owned(),
            },
        }
    }
}

impl vstd::std_specs::convert::TryFromSpecImpl<ProbeFailedRequest> for FailureSource {
    open spec fn obeys_try_from_spec() -> bool {
        false
    }

    open spec fn try_from_spec(record: ProbeFailedRequest) -> Result<FailureSource, FfiError> {
        arbitrary()
    }
}

impl TryFrom<ProbeFailedRequest> for FailureSource {
    type Error = FfiError;

    /// Fails only because a string can name a metric that is not modelled.
    fn try_from(record: ProbeFailedRequest) -> (r: Result<FailureSource, FfiError>)
        ensures
            match r {
                Ok(source) => record.restates(source),
                Err(e) => {
                    &&& record matches ProbeFailedRequest::Series { metric_otel_name }
                    &&& forall|metric: MetricKind| #[trigger]
                        metric.name_text() != metric_otel_name@
                    &&& e is UnknownMetric
                    &&& e.message_text() == metric_otel_name@
                },
            },
    {
        match record {
            ProbeFailedRequest::Roster => Ok(FailureSource::Roster),
            ProbeFailedRequest::Series { metric_otel_name } => match MetricKind::from_otel_name(
                metric_otel_name.as_str(),
            ) {
                Ok(metric) => Ok(FailureSource::Series { metric }),
                Err(e) => Err(FfiError::from(e)),
            },
        }
    }
}

/// One failed request inside a probe.
#[derive(Debug, Clone, PartialEq, Eq)]
pub struct ProbeFailureRecord {
    pub kind: ProbeFailureKind,
    pub request: ProbeFailedRequest,
    pub message: String,
    pub at_millis: i64,
    /// Retrying cannot help, the user must change something.
    pub actionable: bool,
}

impl ProbeFailureRecord {
    /// Whether the record restates a failure.
    pub open spec fn restates(self, failure: PollFailure) -> bool {
        &&& self.kind == ProbeFailureKind::restating(failure.kind)
        &&& self.request.restates(failure.source)
        &&& self.message == failure.message
        &&& self.at_millis == convert::millis_of(failure.at)
        &&& self.actionable == failure.kind.actionable()
    }
}

impl vstd::std_specs::convert::FromSpecImpl<PollFailure> for ProbeFailureRecord {
    open spec fn obeys_from_spec() -> bool {
        false
    }

    open spec fn from_spec(failure: PollFailure) -> ProbeFailureRecord {
        arbitrary()
    }
}

impl From<PollFailure> for ProbeFailureRecord {
    fn from(failure: PollFailure) -> (r: ProbeFailureRecord)
        ensures
            r.restates(failure),
    {
        ProbeFailureRecord {
            kind: ProbeFailureKind::from(failure.kind),
            request: ProbeFailedRequest::from(failure.source),
            message: failure.message,
            at_millis: datetime_to_millis(failure.at),
            actionable: failure.kind.is_actionable(),
        }
    }
}

/// What a "test connection" learned.
#[derive(Debug, Clone, PartialEq, Eq)]
pub struct BackendProbeRecord {
    pub backend_name: String,
    /// Something answered and the credentials worked.
    pub connected: bool,
    pub failure: Option<ProbeFailureRecord>,
    pub hosts_seen: u32,
    /// A few host ids, in the order they came.
    pub sample_hosts: Vec<String>,
    pub window_start_millis: i64,
    pub window_end_millis: i64,
    /// Connected, and at least one host seen.
    pub usable: bool,
    /// The one line a settings screen shows.
    pub message: String,
}

impl BackendProbeRecord {
    /// Whether the record restates a probe, under a line.
    pub open spec fn restates(self, probe: BackendProbe, message: String) -> bool {
        &&& self.backend_name == probe.backend_name
        &&& self.connected == probe.connected
        &&& match probe.failure {
            Some(failure) => self.failure matches Some(record) && record.restates(failure),
            None => self.failure is None,
        }
        &&& self.hosts_seen == probe.hosts_seen
        &&& text::views(self.sample_hosts@) == host::host_names(probe.sample_hosts@)
        &&& self.window_start_millis == convert::millis_of(probe.window.spec_start())
        &&& self.window_end_millis == convert::millis_of(probe.window.spec_end())
        &&& self.usable == probe.usable()
        &&& self.message == message
    }

    /// The record of a probe, under the line that the client core wrote for it.
    pub fn from_probe(probe: BackendProbe, message: String) -> (r: BackendProbeRecord)
        ensures
            r.restates(probe, message),
    {
        let usable = probe.is_usable();
        let sample_hosts = hosts_to_strings(&probe.sample_hosts);
        BackendProbeRecord {
            backend_name: probe.backend_name,
            connected: probe.connected,
            failure: match probe.failure {
                Some(failure) => Some(ProbeFailureRecord::from(failure)),
                None => None,
            },
            hosts_seen: probe.hosts_seen,
            sample_hosts,
            window_start_millis: datetime_to_millis(probe.window.start()),
            window_end_millis: datetime_to_millis(probe.window.end()),
            usable,
            message,
        }
    }
}

/// A request and its source determine each other: the instrument name of a metric is
/// its own.
pub proof fn probe_requests_name_their_source(
    request: ProbeFailedRequest,
    a: FailureSource,
    b: FailureSource,
)
    requires
        request.restates(a),
        request.restates(b),
    ensures
        a == b,
{
    match (a, b) {
        (FailureSource::Series { metric: x }, FailureSource::Series { metric: y }) => {
            crate::domain::metric::metric_names_are_unique(x, y);
        },
        _ => {},
    }
}

/// A kind of failure crosses the boundary under its own name, both ways.
pub proof fn probe_failure_kinds_keep_their_names(value: PollFailureKind, record: ProbeFailureKind)
    ensures
        ProbeFailureKind::restating(value) == ProbeFailureKind::Unauthorized <==> value == PollFailureKind::Unauthorized,
        record.restated() == PollFailureKind::Unauthorized <==> record == ProbeFailureKind::Unauthorized,
        ProbeFailureKind::restating(value) == ProbeFailureKind::Unreachable <==> value == PollFailureKind::Unreachable,
        record.restated() == PollFailureKind::Unreachable <==> record == ProbeFailureKind::Unreachable,
        ProbeFailureKind::restating(value) == ProbeFailureKind::Backend <==> value == PollFailureKind::Backend,
        record.restated() == PollFailureKind::Backend <==> record == ProbeFailureKind::Backend,
        ProbeFailureKind::restating(value) == ProbeFailureKind::Malformed <==> value == PollFailureKind::Malformed,
        record.restated() == PollFailureKind::Malformed <==> record == ProbeFailureKind::Malformed,
{
}

/// A failed request is named as what it asked for: the roster, or the series under its
/// metric's name on the wire.
pub proof fn failed_requests_say_what_they_asked_for(
    request: ProbeFailedRequest,
    source: FailureSource,
)
    requires
        request.restates(source),
    ensures
        request is Roster <==> source == FailureSource::Roster,
        request is Series <==> source is Series,
        source is Series ==> request->metric_otel_name@ == source->metric.name_text(),
{
}

/// The record of a probe's failure holds its kind, request, message and instant, and
/// calls on the user exactly where a credential was refused.
pub proof fn probe_failures_keep_their_names(record: ProbeFailureRecord, failure: PollFailure)
    requires
        record.restates(failure),
    ensures
        record.kind.restated() == failure.kind,
        record.request.restates(failure.source),
        record.message@ == failure.message@,
        record.at_millis == convert::millis_of(failure.at),
        record.actionable <==> record.kind == ProbeFailureKind::Unauthorized,
{
}

/// The record of a probe holds what the probe found under its own names, and calls the
/// backend usable exactly where it answered and showed a host.
pub proof fn probe_records_keep_their_names(
    record: BackendProbeRecord,
    probe: BackendProbe,
    message: String,
)
    requires
        record.restates(probe, message),
    ensures
        record.backend_name@ == probe.backend_name@,
        record.connected == probe.connected,
        record.failure is Some <==> probe.failure is Some,
        probe.failure is Some ==> record.failure->0.restates(probe.failure->0),
        record.hosts_seen == probe.hosts_seen,
        record.sample_hosts@.len() == probe.sample_hosts@.len(),
        forall|i: int|
            0 <= i < probe.sample_hosts@.len() ==> (#[trigger] record.sample_hosts@[i])@
                == probe.sample_hosts@[i]@,
        record.window_start_millis == convert::millis_of(probe.window.spec_start()),
        record.window_end_millis == convert::millis_of(probe.window.spec_end()),
        record.usable <==> record.connected && record.hosts_seen != 0,
        record.message@ == message@,
{
    let names = text::views(record.sample_hosts@);
    assert(names.len() == probe.sample_hosts@.len());
    assert forall|i: int| 0 <= i < probe.sample_hosts@.len() implies (
    #[trigger] record.sample_hosts@[i])@ == probe.sample_hosts@[i]@ by {
        assert(names[i] == host::host_names(probe.sample_hosts@)[i]);
    }
}

} // verus!
