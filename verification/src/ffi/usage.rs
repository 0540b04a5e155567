//! Usage reporting, as an app's session sees it: whether a reporter exists, what a poll
//! is reported as, and when a batch is due.

use crate::client::error::PollFailureKind;
use crate::client::view::{FleetView, FreshnessInputs};
use crate::ffi::convert::count_to_u32;
use crate::ident;
use crate::ident::Uuid;
use crate::otlp::destination;
use crate::otlp::destination::Destination;
use crate::otlp::sink;
use crate::otlp::sink::{Diagnostics, Report, UsageSink};
use crate::text;
use crate::text_map::TextMap;
use crate::time::Timestamp;
use crate::usage::attribute;
use crate::usage::attribute::{BackendKind, DeviceClass, Outcome, Platform};
use crate::usage::consent;
use crate::usage::consent::{Consent, DenialReason};
use crate::usage::encode;
use crate::usage::resource;
use crate::usage::resource::{Service, UsageResource};
use crate::usage::span::{TraceId, UsageSpan, UsageTrace};
use std::collections::VecDeque;
use vstd::prelude::*;

verus! {

/// Traces buffered before a flush is due.
pub const BATCH_TRACES: usize = 10;

/// Hard ceiling on buffered traces. The oldest are dropped, and the drops are counted.
pub const MAX_BUFFERED_TRACES: usize = 64;

/// Which platform the client is running on.
#[derive(Debug, Clone, Copy, PartialEq, Eq, Structural)]
pub enum UsagePlatformRecord {
    Ios,
    Macos,
    Linux,
    Windows,
}

impl UsagePlatformRecord {
    /// The value that a record restates.
    pub open spec fn restated(self) -> Platform {
        match self {
            UsagePlatformRecord::Ios => Platform::Ios,
            UsagePlatformRecord::Macos => Platform::Macos,
            UsagePlatformRecord::Linux => Platform::Linux,
            UsagePlatformRecord::Windows => Platform::Windows,
        }
    }
}

impl vstd::std_specs::convert::FromSpecImpl<UsagePlatformRecord> for Platform {
    open spec fn obeys_from_spec() -> bool {
        true
    }

    open spec fn from_spec(record: UsagePlatformRecord) -> Platform {
        record.restated()
    }
}

impl From<UsagePlatformRecord> for Platform {
    fn from(record: UsagePlatformRecord) -> Platform {
        match record {
            UsagePlatformRecord::Ios => Platform::Ios,
            UsagePlatformRecord::Macos => Platform::Macos,
            UsagePlatformRecord::Linux => Platform::Linux,
            UsagePlatformRecord::Windows => Platform::Windows,
        }
    }
}

/// Coarse device shape.
#[derive(Debug, Clone, Copy, PartialEq, Eq, Structural)]
pub enum UsageDeviceClassRecord {
    Phone,
    Tablet,
    Mac,
    Server,
}

impl UsageDeviceClassRecord {
    /// The value that a record restates.
    pub open spec fn restated(self) -> DeviceClass {
        match self {
            UsageDeviceClassRecord::Phone => DeviceClass::Phone,
            UsageDeviceClassRecord::Tablet => DeviceClass::Tablet,
            UsageDeviceClassRecord::Mac => DeviceClass::Mac,
            UsageDeviceClassRecord::Server => DeviceClass::Server,
        }
    }
}

impl vstd::std_specs::convert::FromSpecImpl<UsageDeviceClassRecord> for DeviceClass {
    open spec fn obeys_from_spec() -> bool {
        true
    }

    open spec fn from_spec(record: UsageDeviceClassRecord) -> DeviceClass {
        record.restated()
    }
}

impl From<UsageDeviceClassRecord> for DeviceClass {
    fn from(record: UsageDeviceClassRecord) -> DeviceClass {
        match record {
            UsageDeviceClassRecord::Phone => DeviceClass::Phone,
            UsageDeviceClassRecord::Tablet => DeviceClass::Tablet,
            UsageDeviceClassRecord::Mac => DeviceClass::Mac,
            UsageDeviceClassRecord::Server => DeviceClass::Server,
        }
    }
}

/// Why reporting is off.
#[derive(Debug, Clone, Copy, PartialEq, Eq, Structural)]
pub enum UsageDenialReasonRecord {
    OptedOut,
    DoNotTrack,
    ContinuousIntegration,
    NoDestination,
}

impl UsageDenialReasonRecord {
    /// The record that restates a value.
    pub open spec fn restating(value: DenialReason) -> UsageDenialReasonRecord {
        match value {
            DenialReason::OptedOut => UsageDenialReasonRecord::OptedOut,
            DenialReason::DoNotTrack => UsageDenialReasonRecord::DoNotTrack,
            DenialReason::ContinuousIntegration => UsageDenialReasonRecord::ContinuousIntegration,
            DenialReason::NoDestination => UsageDenialReasonRecord::NoDestination,
        }
    }
}

impl vstd::std_specs::convert::FromSpecImpl<DenialReason> for UsageDenialReasonRecord {
    open spec fn obeys_from_spec() -> bool {
        true
    }

    open spec fn from_spec(value: DenialReason) -> UsageDenialReasonRecord {
        UsageDenialReasonRecord::restating(value)
    }
}

impl From<DenialReason> for UsageDenialReasonRecord {
    fn from(value: DenialReason) -> UsageDenialReasonRecord {
        match value {
            DenialReason::OptedOut => UsageDenialReasonRecord::OptedOut,
            DenialReason::DoNotTrack => UsageDenialReasonRecord::DoNotTrack,
            DenialReason::ContinuousIntegration => UsageDenialReasonRecord::ContinuousIntegration,
            DenialReason::NoDestination => UsageDenialReasonRecord::NoDestination,
        }
    }
}

/// What the app passes in so a reporter can be built, or, just as validly, not built.
#[derive(Clone)]
pub struct UsageReportingRecord {
    /// OTLP/HTTP base URL, no signal path. Empty when this build was given none.
    pub endpoint: String,
    /// Ingestion key. Empty when this build was given none.
    pub ingestion_key: String,
    /// The user's switch. `true` means do not report.
    pub opted_out: bool,
    pub platform: UsagePlatformRecord,
    pub device_class: UsageDeviceClassRecord,
    /// Dropped unless it parses as a dotted numeric version.
    pub app_version: String,
    pub app_build: Option<u32>,
    /// Trimmed to major and minor, and dropped unless numeric.
    pub os_version: String,
}

/// Counters a settings screen can show, plus why reporting is off if it is.
#[derive(Debug, Clone, Copy, PartialEq, Eq, Structural)]
pub struct UsageDiagnosticsRecord {
    pub enabled: bool,
    pub denial: Option<UsageDenialReasonRecord>,
    /// Reports the backend accepted.
    pub sent: u64,
    /// Reports the backend refused.
    pub rejected: u64,
    /// Reports that got no answer at all.
    pub failed: u64,
    /// Spans in accepted reports.
    pub spans_reported: u64,
    /// Traces waiting for the next flush.
    pub buffered: u64,
    /// Traces discarded because the buffer was full.
    pub dropped: u64,
}

impl UsageDiagnosticsRecord {
    /// What a session with no reporter answers. Carries the reason.
    pub fn disabled(denial: Option<UsageDenialReasonRecord>) -> (r: UsageDiagnosticsRecord)
        ensures
            r == (UsageDiagnosticsRecord {
                enabled: false,
                denial,
                sent: 0,
                rejected: 0,
                failed: 0,
                spans_reported: 0,
                buffered: 0,
                dropped: 0,
            }),
    {
        UsageDiagnosticsRecord {
            enabled: false,
            denial,
            sent: 0,
            rejected: 0,
            failed: 0,
            spans_reported: 0,
            buffered: 0,
            dropped: 0,
        }
    }
}

/// Buffers traces and counts what becomes of them. It exists only when consent allowed
/// it to: there is no disabled reporter to forget to check.
pub struct UsageReporter {
    pub sink: UsageSink,
    pub buffer: VecDeque<UsageTrace>,
    /// Traces discarded because the buffer was full. Wraps around.
    pub dropped: u64,
}

/// Where a record's reports would go.
pub open spec fn record_destination(record: UsageReportingRecord) -> destination::DestinationView {
    destination::tidied(
        record.endpoint@,
        destination::INGESTION_KEY_HEADER@,
        record.ingestion_key@,
    )
}

/// The answer to whether a record's reports may be sent.
pub open spec fn record_consent(record: UsageReportingRecord, env: consent::Env) -> Consent {
    consent::resolved(record.opted_out, record_destination(record).usable(), env)
}

/// Why there is no reporter for a record, if there is none: consent is denied, or there
/// is nothing to send with.
pub open spec fn refusal(
    record: UsageReportingRecord,
    env: consent::Env,
    transport: bool,
) -> Option<UsageDenialReasonRecord> {
    match record_consent(record, env) {
        Consent::Denied(denial) => Some(UsageDenialReasonRecord::restating(denial)),
        Consent::Granted => if transport {
            None
        } else {
            Some(UsageDenialReasonRecord::NoDestination)
        },
    }
}

/// Where consent is denied, having a transport makes no difference: it is asked for only
/// once consent is granted, so none need be built before.
pub proof fn consent_comes_before_transport(record: UsageReportingRecord, env: consent::Env)
    ensures
        refusal(record, env, true) != refusal(record, env, false) <==> record_consent(record, env)
            == Consent::Granted,
{
}

impl UsageReportingRecord {
    /// Whether this record's reports may be sent. A transport is built only where they
    /// may.
    pub fn consent(&self, env: &TextMap) -> (r: Consent)
        ensures
            r == record_consent(*self, env@),
    {
        let destination = Destination::from_bundle(
            self.endpoint.as_str(),
            self.ingestion_key.as_str(),
        );
        Consent::resolve(self.opted_out, destination.is_some(), env)
    }
}

/// Whether a resource describes the process that a record is about.
pub open spec fn describes_process(
    resource: UsageResource,
    record: UsageReportingRecord,
    instance: Uuid,
) -> bool {
    &&& resource.service == Service::Client
    &&& resource.platform == record.platform.restated()
    &&& resource.device_class == record.device_class.restated()
    &&& resource.instance == instance
    &&& resource::version_text(resource.version) == attribute::version_of(
        record.app_version@,
        3,
    )
    &&& resource.build == record.app_build
    &&& resource::version_text(resource.os_version) == attribute::version_of(
        record.os_version@,
        2,
    )
}

impl UsageReporter {
    /// Whether the buffer is within its ceiling.
    pub open spec fn bounded(self) -> bool {
        self.buffer@.len() <= MAX_BUFFERED_TRACES
    }

    /// A reporter, if consent and a destination both allow one, or why not. `env` is
    /// the environment, `instance` the process's own id, and `transport` whether there
    /// is an HTTP client to send with, which matters only where
    /// [`UsageReportingRecord::consent`] is granted. A platform without one is a build
    /// that cannot report, not a session that cannot start.
    pub fn build(
        record: &UsageReportingRecord,
        env: &TextMap,
        instance: Uuid,
        transport: bool,
    ) -> (r: (Option<UsageReporter>, Option<UsageDenialReasonRecord>))
        ensures
            r.0 is Some <==> r.1 is None,
            r.1 == refusal(*record, env@, transport),
            r.0 matches Some(reporter) ==> {
                &&& reporter.bounded()
                &&& reporter.buffer@ == Seq::<UsageTrace>::empty()
                &&& reporter.dropped == 0
                &&& reporter.sink.destination@ == record_destination(*record)
                &&& describes_process(reporter.sink.resource, *record, instance)
                &&& reporter.sink.diagnostics == (Diagnostics {
                    sent: 0,
                    rejected: 0,
                    failed: 0,
                    spans_reported: 0,
                })
            },
    {
        let destination = Destination::from_bundle(
            record.endpoint.as_str(),
            record.ingestion_key.as_str(),
        );
        let consent = Consent::resolve(record.opted_out, destination.is_some(), env);
        match (consent, destination) {
            (Consent::Granted, Some(destination)) => {
                if !transport {
                    return (None, Some(UsageDenialReasonRecord::NoDestination));
                }
                let resource = UsageResource::new(
                    Service::Client,
                    Platform::from(record.platform),
                    DeviceClass::from(record.device_class),
                    instance,
                    record.app_version.as_str(),
                    record.app_build,
                    record.os_version.as_str(),
                );
                (
                    Some(
                        UsageReporter {
                            sink: UsageSink::new(destination, resource),
                            buffer: VecDeque::new(),
                            dropped: 0,
                        },
                    ),
                    None,
                )
            },
            (Consent::Denied(reason), _) => (None, Some(UsageDenialReasonRecord::from(reason))),
            (Consent::Granted, None) => (None, Some(UsageDenialReasonRecord::NoDestination)),
        }
    }

    /// Buffers one trace, and says whether that filled a batch. A trace without spans is
    /// not worth a place. A full buffer gives up its oldest trace.
    pub fn record(&mut self, trace: UsageTrace) -> (r: bool)
        requires
            old(self).bounded(),
        ensures
            final(self).bounded(),
            final(self).sink == old(self).sink,
            trace.spans@.len() == 0 ==> {
                &&& !r
                &&& final(self).buffer@ == old(self).buffer@
                &&& final(self).dropped == old(self).dropped
            },
            trace.spans@.len() > 0 ==> {
                &&& final(self).buffer@ == kept(old(self).buffer@.push(trace))
                &&& final(self).dropped == sink::wrapped_sum(
                    old(self).dropped,
                    (old(self).buffer@.len() + 1 - final(self).buffer@.len()) as u64,
                )
                &&& r == (final(self).buffer@.len() >= BATCH_TRACES)
            },
    {
        if trace.is_empty() {
            return false;
        }
        let ghost grown = self.buffer@.push(trace);
        self.buffer.push_back(trace);
        assert(self.buffer@ =~= grown);
        if self.buffer.len() > MAX_BUFFERED_TRACES {
            let _ = self.buffer.pop_front();
            self.dropped = self.dropped.wrapping_add(1);
            assert(self.buffer@ =~= kept(grown));
        }
        self.buffer.len() >= BATCH_TRACES
    }

    /// Takes everything buffered out, and hands over the report to send: a slow send does
    /// not block the next poll from buffering, and a failed one drops rather than
    /// retrying. Nothing buffered is nothing to send.
    pub fn flush(&mut self) -> (r: Option<Report>)
        requires
            encode::span_count(old(self).buffer@) <= u64::MAX,
        ensures
            r is None <==> encode::span_count(old(self).buffer@) == 0,
            r matches Some(report) ==> old(self).sink.reports(report, old(self).buffer@),
            final(self).buffer@ == Seq::<UsageTrace>::empty(),
            final(self).bounded(),
            final(self).sink == old(self).sink,
            final(self).dropped == old(self).dropped,
    {
        let batch = self.drain();
        self.sink.prepare(batch.as_slice())
    }

    fn drain(&mut self) -> (r: Vec<UsageTrace>)
        ensures
            r@ == old(self).buffer@,
            final(self).buffer@ == Seq::<UsageTrace>::empty(),
            final(self).bounded(),
            final(self).sink == old(self).sink,
            final(self).dropped == old(self).dropped,
    {
        let mut batch: Vec<UsageTrace> = Vec::new();
        let ghost all = self.buffer@;
        let ghost sink = self.sink;
        let ghost dropped = self.dropped;
        while self.buffer.len() > 0
            invariant
                batch@ + self.buffer@ == all,
                self.sink == sink,
                self.dropped == dropped,
            decreases self.buffer@.len(),
        {
            let ghost rest = self.buffer@;
            let ghost taken = batch@;
            match self.buffer.pop_front() {
                Some(trace) => {
                    batch.push(trace);
                    assert(batch@ + self.buffer@ =~= taken + rest);
                },
                None => {
                    return batch;
                },
            }
        }
        assert(batch@ =~= all);
        batch
    }

    /// The counters, for a settings screen.
    pub fn diagnostics(&self) -> (r: UsageDiagnosticsRecord)
        ensures
            r == (UsageDiagnosticsRecord {
                enabled: true,
                denial: None,
                sent: self.sink.diagnostics.sent,
                rejected: self.sink.diagnostics.rejected,
                failed: self.sink.diagnostics.failed,
                spans_reported: self.sink.diagnostics.spans_reported,
                buffered: self.buffer@.len() as u64,
                dropped: self.dropped,
            }),
    {
        let snapshot = self.sink.diagnostics();
        UsageDiagnosticsRecord {
            enabled: true,
            denial: None,
            sent: snapshot.sent,
            rejected: snapshot.rejected,
            failed: snapshot.failed,
            spans_reported: snapshot.spans_reported,
            buffered: self.buffer.len() as u64,
            dropped: self.dropped,
        }
    }
}

/// The newest traces, as many as there is room for.
pub open spec fn kept(traces: Seq<UsageTrace>) -> Seq<UsageTrace> {
    if traces.len() > MAX_BUFFERED_TRACES {
        traces.skip(traces.len() - MAX_BUFFERED_TRACES)
    } else {
        traces
    }
}

/// The buffer gives up the oldest and never the newest: the trace just recorded is
/// always the last one kept.
pub proof fn newest_traces_stay(buffer: Seq<UsageTrace>, trace: UsageTrace)
    requires
        buffer.len() <= MAX_BUFFERED_TRACES,
    ensures
        kept(buffer.push(trace)).len() > 0,
        kept(buffer.push(trace)).last() == trace,
        kept(buffer.push(trace)).len() <= MAX_BUFFERED_TRACES,
{
}

/// How a poll ended, from what its view is fresh by.
pub open spec fn outcome_of(freshness: FreshnessInputs) -> Outcome {
    if freshness.consecutive_failures == 0 {
        Outcome::Success
    } else if freshness.as_of is Some && freshness.last_roster_at == freshness.as_of {
        Outcome::Partial
    } else {
        match freshness.last_failure {
            None => Outcome::BackendError,
            Some(failure) => match failure.kind {
                PollFailureKind::Unauthorized => Outcome::Unauthorized,
                PollFailureKind::Unreachable => Outcome::Unreachable,
                PollFailureKind::Malformed => Outcome::DecodeError,
                PollFailureKind::Backend => Outcome::BackendError,
            },
        }
    }
}

/// What a backend said never travels: two polls that differ in their failures' messages,
/// sources and instants alone end alike.
pub proof fn messages_do_not_travel(a: FreshnessInputs, b: FreshnessInputs)
    requires
        a.consecutive_failures == b.consecutive_failures,
        a.as_of == b.as_of,
        a.last_roster_at == b.last_roster_at,
        a.last_failure is Some <==> b.last_failure is Some,
        a.last_failure is Some ==> a.last_failure->0.kind == b.last_failure->0.kind,
    ensures
        outcome_of(a) == outcome_of(b),
{
}

/// A count as a `u32`, saturating.
pub open spec fn saturated(count: int) -> u32 {
    if count > u32::MAX {
        u32::MAX
    } else {
        count as u32
    }
}

/// Builds the trace for one completed poll: one root span. It reads only counts and
/// kinds off the view, never a message. `firing` is how many alerts fire.
pub fn poll_trace(
    view: &FleetView,
    firing: usize,
    rules: u32,
    backend: BackendKind,
    started: Timestamp,
    ended: Timestamp,
) -> (r: UsageTrace)
    ensures
        ident::is_version_7(r.trace_id@),
        r.spans@.len() == 1,
        r.spans@[0].parent is None,
        r.spans@[0].started == started,
        r.spans@[0].ended == ended,
        r.spans@[0].payload == (UsageSpan::ClientPoll {
            outcome: outcome_of(view.freshness),
            backend,
            hosts: saturated(view.hosts@.len() as int),
            rules,
            alerts_firing: saturated(firing as int),
        }),
{
    let mut trace = UsageTrace::new(TraceId::new());
    let _ = trace.record(
        UsageSpan::ClientPoll {
            outcome: poll_outcome(view),
            backend,
            hosts: count_to_u32(view.hosts.len()),
            rules,
            alerts_firing: count_to_u32(firing),
        },
        None,
        started,
        ended,
    );
    trace
}

/// How this poll ended, from the view it produced. A roster listed at this poll's
/// instant means that only some series failed.
pub fn poll_outcome(view: &FleetView) -> (r: Outcome)
    ensures
        r == outcome_of(view.freshness),
{
    let freshness = &view.freshness;
    if freshness.consecutive_failures == 0 {
        return Outcome::Success;
    }
    if let Some(as_of) = freshness.as_of {
        if let Some(listed) = freshness.last_roster_at {
            if listed == as_of {
                return Outcome::Partial;
            }
        }
    }
    match &freshness.last_failure {
        None => Outcome::BackendError,
        Some(failure) => match failure.kind {
            PollFailureKind::Unauthorized => Outcome::Unauthorized,
            PollFailureKind::Unreachable => Outcome::Unreachable,
            PollFailureKind::Malformed => Outcome::DecodeError,
            PollFailureKind::Backend => Outcome::BackendError,
        },
    }
}

/// The kind of backend behind a display name, whatever the case of its letters.
pub open spec fn kind_of_backend(name: Seq<char>) -> BackendKind {
    let name = text::lowered(name);
    if name == "signoz"@ {
        BackendKind::Signoz
    } else if name == "clickstack"@ || name == "hyperdx"@ {
        BackendKind::Clickstack
    } else if name == "honeycomb"@ {
        BackendKind::Honeycomb
    } else {
        BackendKind::Otlp
    }
}

/// Maps a backend's display name to an allowlisted kind: an adapter named anything at
/// all becomes one of four known values, so no name can travel as an attribute.
pub fn backend_kind_from_name(name: &str) -> (r: BackendKind)
    ensures
        r == kind_of_backend(name@),
{
    let name = text::to_lower(name);
    let name = name.as_str();
    if text::same(name, "signoz") {
        BackendKind::Signoz
    } else if text::same(name, "clickstack") || text::same(name, "hyperdx") {
        BackendKind::Clickstack
    } else if text::same(name, "honeycomb") {
        BackendKind::Honeycomb
    } else {
        BackendKind::Otlp
    }
}

/// Every platform, device class and reason crosses the boundary under its own name.
pub proof fn usage_records_keep_their_names(
    platform: UsagePlatformRecord,
    device: UsageDeviceClassRecord,
    reason: DenialReason,
)
    ensures
        platform.restated() == Platform::Ios <==> platform == UsagePlatformRecord::Ios,
        platform.restated() == Platform::Macos <==> platform == UsagePlatformRecord::Macos,
        platform.restated() == Platform::Linux <==> platform == UsagePlatformRecord::Linux,
        platform.restated() == Platform::Windows <==> platform == UsagePlatformRecord::Windows,
        device.restated() == DeviceClass::Phone <==> device == UsageDeviceClassRecord::Phone,
        device.restated() == DeviceClass::Tablet <==> device == UsageDeviceClassRecord::Tablet,
        device.restated() == DeviceClass::Mac <==> device == UsageDeviceClassRecord::Mac,
        device.restated() == DeviceClass::Server <==> device == UsageDeviceClassRecord::Server,
        UsageDenialReasonRecord::restating(reason) == UsageDenialReasonRecord::OptedOut <==> reason
            == DenialReason::OptedOut,
        UsageDenialReasonRecord::restating(reason) == UsageDenialReasonRecord::DoNotTrack
            <==> reason == DenialReason::DoNotTrack,
        UsageDenialReasonRecord::restating(reason)
            == UsageDenialReasonRecord::ContinuousIntegration <==> reason
            == DenialReason::ContinuousIntegration,
        UsageDenialReasonRecord::restating(reason) == UsageDenialReasonRecord::NoDestination
            <==> reason == DenialReason::NoDestination,
{
}

/// There is a reporter exactly where the record's endpoint and key make a destination,
/// the user has not opted out, the environment does not object, and there is something
/// to send with. Where there is none, the reason is consent's, or that there is nothing
/// to send with.
pub proof fn reporters_need_consent_and_transport(
    record: UsageReportingRecord,
    env: consent::Env,
    transport: bool,
)
    ensures
        ({
            let to = destination::tidied(
                record.endpoint@,
                "signoz-ingestion-key"@,
                record.ingestion_key@,
            );
            let answer = consent::resolved(record.opted_out, to.usable(), env);
            &&& record_destination(record) == to
            &&& refusal(record, env, transport) is None <==> answer == Consent::Granted && transport
            &&& record.opted_out ==> refusal(record, env, transport) is Some
            &&& !to.usable() ==> refusal(record, env, transport) == Some(
                UsageDenialReasonRecord::NoDestination,
            )
            &&& to.usable() && record.opted_out ==> refusal(record, env, transport) == Some(
                UsageDenialReasonRecord::OptedOut,
            )
            &&& answer == Consent::Denied(DenialReason::DoNotTrack) ==> refusal(
                record,
                env,
                transport,
            ) == Some(UsageDenialReasonRecord::DoNotTrack)
            &&& answer == Consent::Denied(DenialReason::ContinuousIntegration) ==> refusal(
                record,
                env,
                transport,
            ) == Some(UsageDenialReasonRecord::ContinuousIntegration)
            &&& answer == Consent::Granted && !transport ==> refusal(record, env, transport)
                == Some(UsageDenialReasonRecord::NoDestination)
        }),
{
}

/// A client's resource is the process its record is about: its own instance, platform,
/// device class and build, three parts of its version and two of its system's.
pub proof fn resources_describe_their_process(
    resource: UsageResource,
    record: UsageReportingRecord,
    instance: Uuid,
)
    requires
        describes_process(resource, record, instance),
    ensures
        resource.service == Service::Client,
        resource.instance == instance,
        resource.platform == record.platform.restated(),
        resource.device_class == record.device_class.restated(),
        resource.build == record.app_build,
        resource.version is Some <==> attribute::version_of(record.app_version@, 3) is Some,
        resource.version is Some ==> Some(resource.version->0@) == attribute::version_of(
            record.app_version@,
            3,
        ),
        resource.os_version is Some <==> attribute::version_of(record.os_version@, 2) is Some,
        resource.os_version is Some ==> Some(resource.os_version->0@) == attribute::version_of(
            record.os_version@,
            2,
        ),
{
}

/// A buffer with room keeps every trace in its order; a full one, of 64, gives up its
/// oldest trace for the new one, and no other. A batch is due at ten.
pub proof fn full_buffers_give_up_their_oldest(buffer: Seq<UsageTrace>, trace: UsageTrace)
    ensures
        buffer.len() < 64 ==> kept(buffer.push(trace)) == buffer.push(trace),
        buffer.len() == 64 ==> kept(buffer.push(trace)) == buffer.skip(1).push(trace),
        BATCH_TRACES == 10,
{
    if buffer.len() == 64 {
        assert(buffer.push(trace).skip(1) =~= buffer.skip(1).push(trace));
    }
}

/// A poll went well exactly where no failure stands, and partly where its roster was
/// listed at the view's own instant. Otherwise the last failure says how it ended, and
/// one of unknown kind is the backend's.
pub proof fn polls_end_as_their_failures_say(freshness: FreshnessInputs)
    ensures
        ({
            let outcome = outcome_of(freshness);
            let failed = freshness.consecutive_failures != 0;
            let listed = freshness.as_of is Some && freshness.last_roster_at is Some
                && freshness.as_of->0 == freshness.last_roster_at->0;
            let because = |kind: PollFailureKind|
                freshness.last_failure is Some && freshness.last_failure->0.kind == kind;
            &&& outcome == Outcome::Success <==> !failed
            &&& outcome == Outcome::Partial <==> failed && listed
            &&& outcome == Outcome::Unauthorized <==> failed && !listed && because(
                PollFailureKind::Unauthorized,
            )
            &&& outcome == Outcome::Unreachable <==> failed && !listed && because(
                PollFailureKind::Unreachable,
            )
            &&& outcome == Outcome::DecodeError <==> failed && !listed && because(
                PollFailureKind::Malformed,
            )
            &&& outcome == Outcome::BackendError <==> failed && !listed && (
            freshness.last_failure is None || because(PollFailureKind::Backend))
        }),
{
}

/// A count is itself as far as it fits, and the greatest that fits beyond.
pub proof fn counts_stop_at_the_top(count: int)
    requires
        count >= 0,
    ensures
        count <= 4_294_967_295 ==> saturated(count) == count,
        count > 4_294_967_295 ==> saturated(count) == 4_294_967_295,
{
}

/// A backend's kind is read from its name, whatever the case: HyperDX is ClickStack, and
/// a name that is none of these is plain OTLP.
pub proof fn backends_go_by_their_names(name: Seq<char>)
    ensures
        ({
            let word = text::lowered(name);
            let kind = kind_of_backend(name);
            &&& kind == BackendKind::Signoz <==> word == "signoz"@
            &&& kind == BackendKind::Clickstack <==> word == "clickstack"@ || word == "hyperdx"@
            &&& kind == BackendKind::Honeycomb <==> word == "honeycomb"@
            &&& kind == BackendKind::Otlp <==> word != "signoz"@ && word != "clickstack"@ && word
                != "hyperdx"@ && word != "honeycomb"@
        }),
{
    reveal_strlit("signoz");
    reveal_strlit("clickstack");
    reveal_strlit("hyperdx");
    reveal_strlit("honeycomb");
    assert("signoz"@.len() == 6 && "clickstack"@.len() == 10 && "hyperdx"@.len() == 7
        && "honeycomb"@.len() == 9);
}

} // verus!
