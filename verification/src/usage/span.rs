//! Spans, and the trace they hang together in.

use crate::ident;
use crate::ident::Uuid;
use crate::text;
use crate::time::Timestamp;
use crate::usage::attribute;
use crate::usage::attribute::{
    Attribute, AttributeKey, AttributeView, BackendKind, HttpStatusClass, Outcome, ValueView,
};
use vstd::prelude::*;

verus! {

/// A 16-byte trace id.
#[derive(Debug, Clone, Copy, PartialEq, Eq)]
pub struct TraceId([u8; 16]);

/// An 8-byte span id.
#[derive(Debug, Clone, Copy, PartialEq, Eq, Hash)]
pub struct SpanId([u8; 8]);

impl View for TraceId {
    type V = Seq<u8>;

    closed spec fn view(&self) -> Seq<u8> {
        self.0@
    }
}

impl View for SpanId {
    type V = Seq<u8>;

    closed spec fn view(&self) -> Seq<u8> {
        self.0@
    }
}

impl TraceId {
    /// A new id, minted from a UUIDv7.
    pub fn new() -> (r: TraceId)
        ensures
            ident::is_version_7(r@),
    {
        TraceId(Uuid::now_v7().bytes)
    }

    /// The id with these bytes.
    pub fn from_bytes(bytes: [u8; 16]) -> (r: TraceId)
        ensures
            r@ == bytes@,
    {
        TraceId(bytes)
    }

    /// Lowercase hex, which is what OTLP/JSON wants.
    pub fn hex(&self) -> (r: String)
        ensures
            r@ == text::hex(self@),
    {
        text::hex_of(self.0.as_slice())
    }
}

impl SpanId {
    /// A new id: the trailing eight bytes of a fresh UUIDv7.
    pub fn new() -> (r: SpanId)
        ensures
            r@.len() == 8,
            r@[0] / 64 == 2,
    {
        SpanId::trailing(Uuid::now_v7())
    }

    /// The trailing eight bytes of a UUID. The leading eight of a UUIDv7 are its
    /// millisecond timestamp, so that two spans started in the same millisecond
    /// would collide; the trailing bytes are the random ones.
    pub fn trailing(id: Uuid) -> (r: SpanId)
        ensures
            r@ == id.bytes@.subrange(8, 16),
    {
        let b = id.bytes;
        let r = SpanId([b[8], b[9], b[10], b[11], b[12], b[13], b[14], b[15]]);
        assert(r@ =~= id.bytes@.subrange(8, 16));
        r
    }

    /// The id with these bytes.
    pub fn from_bytes(bytes: [u8; 8]) -> (r: SpanId)
        ensures
            r@ == bytes@,
    {
        SpanId(bytes)
    }

    /// Lowercase hex.
    pub fn hex(&self) -> (r: String)
        ensures
            r@ == text::hex(self@),
    {
        text::hex_of(self.0.as_slice())
    }
}

impl Default for TraceId {
    fn default() -> (r: TraceId)
        ensures
            ident::is_version_7(r@),
    {
        TraceId::new()
    }
}

impl Default for SpanId {
    fn default() -> (r: SpanId)
        ensures
            r@.len() == 8,
            r@[0] / 64 == 2,
    {
        SpanId::new()
    }
}

/// An id in hex has two characters to the byte, each a digit or a letter from `a`
/// to `f`.
pub proof fn hex_is_lowercase(bytes: Seq<u8>, i: int)
    requires
        0 <= i < 2 * bytes.len(),
    ensures
        text::hex(bytes).len() == 2 * bytes.len(),
        ({
            let c = text::hex(bytes)[i];
            ('0' <= c && c <= '9') || ('a' <= c && c <= 'f')
        }),
{
    let b = bytes[i / 2] as int;
    assert(0 <= b / 16 < 16 && 0 <= b % 16 < 16);
}

/// OTLP's span kind, narrowed to the two values Pessimal produces.
#[derive(Debug, Clone, Copy, PartialEq, Eq, Structural)]
pub enum SpanKind {
    /// Work inside the process.
    Internal,
    /// An outbound call to the operator's backend.
    Client,
}

impl SpanKind {
    /// OTLP's integer for a kind.
    pub open spec fn number(self) -> u8 {
        match self {
            SpanKind::Internal => 1,
            SpanKind::Client => 3,
        }
    }

    /// OTLP's integer encoding.
    pub fn code(self) -> (r: u8)
        ensures
            r == self.number(),
    {
        match self {
            SpanKind::Internal => 1,
            SpanKind::Client => 3,
        }
    }
}

/// What happened. Every field is an allowlisted enum or a count: there is no
/// variant carrying a message, a URL or a host name.
#[derive(Debug, Clone, Copy, PartialEq, Eq, Structural)]
pub enum UsageSpan {
    /// One complete poll cycle. The root of a client trace.
    ClientPoll {
        outcome: Outcome,
        backend: BackendKind,
        hosts: u32,
        rules: u32,
        alerts_firing: u32,
    },
    /// Deciding what to request.
    ClientPlan { requests_planned: u32 },
    /// One request to the operator's backend.
    ClientGather {
        outcome: Outcome,
        status_class: Option<HttpStatusClass>,
        series_returned: u32,
    },
    /// Folding responses into a view, and evaluating alert rules.
    ClientFold { outcome: Outcome, alerts_firing: u32 },
    /// The settings screen's "test connection".
    ClientProbe { outcome: Outcome, status_class: Option<HttpStatusClass> },
}

/// The class of an HTTP status as an attribute, where there is one.
pub open spec fn status_entry(class: Option<HttpStatusClass>) -> Seq<AttributeView> {
    match class {
        Some(class) => seq![attribute::counted(AttributeKey::HttpStatusClass, class@ as u32)],
        None => Seq::empty(),
    }
}

/// An outcome as an attribute.
pub open spec fn outcome_entry(outcome: Outcome) -> AttributeView {
    attribute::word(AttributeKey::Outcome, outcome.as_text())
}

impl UsageSpan {
    /// The span's name, as characters.
    pub open spec fn name_text(self) -> Seq<char> {
        match self {
            UsageSpan::ClientPoll { .. } => "pessimal.client.poll"@,
            UsageSpan::ClientPlan { .. } => "pessimal.client.plan"@,
            UsageSpan::ClientGather { .. } => "pessimal.client.gather"@,
            UsageSpan::ClientFold { .. } => "pessimal.client.fold"@,
            UsageSpan::ClientProbe { .. } => "pessimal.client.probe"@,
        }
    }

    /// Whether the span is a call to the operator's backend.
    pub open spec fn span_kind(self) -> SpanKind {
        match self {
            UsageSpan::ClientGather { .. } => SpanKind::Client,
            UsageSpan::ClientProbe { .. } => SpanKind::Client,
            _ => SpanKind::Internal,
        }
    }

    /// The outcome a span reports. Planning reports none.
    pub open spec fn reported(self) -> Option<Outcome> {
        match self {
            UsageSpan::ClientPoll { outcome, .. } => Some(outcome),
            UsageSpan::ClientPlan { .. } => None,
            UsageSpan::ClientGather { outcome, .. } => Some(outcome),
            UsageSpan::ClientFold { outcome, .. } => Some(outcome),
            UsageSpan::ClientProbe { outcome, .. } => Some(outcome),
        }
    }

    /// What a span says of what happened.
    pub open spec fn entries(self) -> Seq<AttributeView> {
        match self {
            UsageSpan::ClientPoll { outcome, backend, hosts, rules, alerts_firing } => seq![
                outcome_entry(outcome),
                attribute::word(AttributeKey::BackendKind, backend.as_text()),
                attribute::counted(AttributeKey::HostsCount, hosts),
                attribute::counted(AttributeKey::RulesCount, rules),
                attribute::counted(AttributeKey::AlertsFiring, alerts_firing),
            ],
            UsageSpan::ClientPlan { requests_planned } => seq![
                attribute::counted(AttributeKey::RequestsPlanned, requests_planned),
            ],
            UsageSpan::ClientGather { outcome, status_class, series_returned } => seq![
                outcome_entry(outcome),
                attribute::counted(AttributeKey::SeriesReturned, series_returned),
            ] + status_entry(status_class),
            UsageSpan::ClientFold { outcome, alerts_firing } => seq![
                outcome_entry(outcome),
                attribute::counted(AttributeKey::AlertsFiring, alerts_firing),
            ],
            UsageSpan::ClientProbe { outcome, status_class } => seq![outcome_entry(outcome)]
                + status_entry(status_class),
        }
    }

    /// The span's name.
    pub fn name(&self) -> (r: &'static str)
        ensures
            r@ == self.name_text(),
    {
        match self {
            UsageSpan::ClientPoll { .. } => "pessimal.client.poll",
            UsageSpan::ClientPlan { .. } => "pessimal.client.plan",
            UsageSpan::ClientGather { .. } => "pessimal.client.gather",
            UsageSpan::ClientFold { .. } => "pessimal.client.fold",
            UsageSpan::ClientProbe { .. } => "pessimal.client.probe",
        }
    }

    /// The span's kind.
    pub fn kind(&self) -> (r: SpanKind)
        ensures
            r == self.span_kind(),
    {
        match self {
            UsageSpan::ClientGather { .. } | UsageSpan::ClientProbe { .. } => SpanKind::Client,
            _ => SpanKind::Internal,
        }
    }

    /// The outcome this span reports, where it reports one. It drives the span's
    /// status code.
    pub fn outcome(&self) -> (r: Option<Outcome>)
        ensures
            r == self.reported(),
    {
        match self {
            UsageSpan::ClientPoll { outcome, .. } => Some(*outcome),
            UsageSpan::ClientPlan { .. } => None,
            UsageSpan::ClientGather { outcome, .. } => Some(*outcome),
            UsageSpan::ClientFold { outcome, .. } => Some(*outcome),
            UsageSpan::ClientProbe { outcome, .. } => Some(*outcome),
        }
    }

    /// What the span says of what happened.
    pub fn attributes(&self) -> (r: Vec<Attribute>)
        ensures
            attribute::attribute_views(r@) == self.entries(),
    {
        let mut out: Vec<Attribute> = Vec::new();
        match self {
            UsageSpan::ClientPoll { outcome, backend, hosts, rules, alerts_firing } => {
                out.push(Attribute::enumerated(AttributeKey::Outcome, outcome.as_str()));
                out.push(Attribute::enumerated(AttributeKey::BackendKind, backend.as_str()));
                out.push(Attribute::count(AttributeKey::HostsCount, *hosts));
                out.push(Attribute::count(AttributeKey::RulesCount, *rules));
                out.push(Attribute::count(AttributeKey::AlertsFiring, *alerts_firing));
            },
            UsageSpan::ClientPlan { requests_planned } => {
                out.push(Attribute::count(AttributeKey::RequestsPlanned, *requests_planned));
            },
            UsageSpan::ClientGather { outcome, status_class, series_returned } => {
                out.push(Attribute::enumerated(AttributeKey::Outcome, outcome.as_str()));
                out.push(Attribute::count(AttributeKey::SeriesReturned, *series_returned));
                if let Some(class) = status_class {
                    out.push(
                        Attribute::count(AttributeKey::HttpStatusClass, class.digit() as u32),
                    );
                }
            },
            UsageSpan::ClientFold { outcome, alerts_firing } => {
                out.push(Attribute::enumerated(AttributeKey::Outcome, outcome.as_str()));
                out.push(Attribute::count(AttributeKey::AlertsFiring, *alerts_firing));
            },
            UsageSpan::ClientProbe { outcome, status_class } => {
                out.push(Attribute::enumerated(AttributeKey::Outcome, outcome.as_str()));
                if let Some(class) = status_class {
                    out.push(
                        Attribute::count(AttributeKey::HttpStatusClass, class.digit() as u32),
                    );
                }
            },
        }
        assert(attribute::attribute_views(out@) =~= self.entries());
        out
    }
}

/// Whether a span may say this: a count, an outcome's word, or a backend's word.
pub open spec fn is_span_entry(entry: AttributeView) -> bool {
    match entry.value {
        ValueView::Count(_) => true,
        ValueView::Enumerated(word) => {
            ||| entry.key == AttributeKey::Outcome && exists|o: Outcome| #[trigger] o.as_text() == word
            ||| entry.key == AttributeKey::BackendKind && exists|b: BackendKind| #[trigger]
                b.as_text() == word
        },
        _ => false,
    }
}

/// Spans say nothing but counts and words of the fixed vocabulary: no text that
/// came in at run time can be among what they say.
pub proof fn spans_say_only_what_is_allowed(span: UsageSpan, i: int)
    requires
        0 <= i < span.entries().len(),
    ensures
        is_span_entry(span.entries()[i]),
{
    match span {
        UsageSpan::ClientPoll { outcome, backend, .. } => {
            assert(outcome.as_text() == outcome.as_text());
            assert(backend.as_text() == backend.as_text());
        },
        UsageSpan::ClientPlan { .. } => {},
        UsageSpan::ClientGather { outcome, .. } => {
            assert(outcome.as_text() == outcome.as_text());
        },
        UsageSpan::ClientFold { outcome, .. } => {
            assert(outcome.as_text() == outcome.as_text());
        },
        UsageSpan::ClientProbe { outcome, .. } => {
            assert(outcome.as_text() == outcome.as_text());
        },
    }
}

/// A span with its place in the tree and its timings.
#[derive(Debug, Clone, Copy, PartialEq, Eq)]
pub struct RecordedSpan {
    pub id: SpanId,
    /// `None` for the root. Encoded by omitting `parentSpanId`.
    pub parent: Option<SpanId>,
    pub started: Timestamp,
    pub ended: Timestamp,
    pub payload: UsageSpan,
}

/// One trace: a root span and its descendants.
#[derive(Debug, Clone, PartialEq, Eq)]
pub struct UsageTrace {
    pub trace_id: TraceId,
    pub spans: Vec<RecordedSpan>,
}

impl UsageTrace {
    /// A trace without spans.
    pub fn new(trace_id: TraceId) -> (r: UsageTrace)
        ensures
            r.trace_id == trace_id,
            r.spans@ == Seq::<RecordedSpan>::empty(),
    {
        UsageTrace { trace_id, spans: Vec::new() }
    }

    /// Appends a span and hands back its id, so a caller can parent the next one to
    /// it. It takes the timings rather than reading a clock.
    pub fn record(
        &mut self,
        payload: UsageSpan,
        parent: Option<SpanId>,
        started: Timestamp,
        ended: Timestamp,
    ) -> (r: SpanId)
        ensures
            r@.len() == 8,
            r@[0] / 64 == 2,
            final(self).trace_id == old(self).trace_id,
            final(self).spans@ == old(self).spans@.push(
                RecordedSpan { id: r, parent, started, ended, payload },
            ),
    {
        let id = SpanId::new();
        self.spans.push(RecordedSpan { id, parent, started, ended, payload });
        id
    }

    /// Whether there is no span.
    pub fn is_empty(&self) -> (r: bool)
        ensures
            r == (self.spans@.len() == 0),
    {
        self.spans.len() == 0
    }
}

/// Whether some attributes hold a count under a key.
pub open spec fn counts(entries: Seq<AttributeView>, key: AttributeKey, count: u32) -> bool {
    entries.contains(AttributeView { key, value: ValueView::Count(count) })
}

/// Whether some attributes hold a word under a key.
pub open spec fn says(entries: Seq<AttributeView>, key: AttributeKey, word: Seq<char>) -> bool {
    entries.contains(AttributeView { key, value: ValueView::Enumerated(word) })
}

/// A poll's span says how it ended, against which kind of backend, and how many hosts,
/// rules and firing alerts there were: these five, each under its own key.
pub proof fn poll_spans_say_their_five(
    outcome: Outcome,
    backend: BackendKind,
    hosts: u32,
    rules: u32,
    alerts_firing: u32,
)
    ensures
        ({
            let span = UsageSpan::ClientPoll { outcome, backend, hosts, rules, alerts_firing };
            let entries = span.entries();
            &&& entries.len() == 5
            &&& says(entries, AttributeKey::Outcome, outcome.as_text())
            &&& says(entries, AttributeKey::BackendKind, backend.as_text())
            &&& counts(entries, AttributeKey::HostsCount, hosts)
            &&& counts(entries, AttributeKey::RulesCount, rules)
            &&& counts(entries, AttributeKey::AlertsFiring, alerts_firing)
            &&& span.name_text() == "pessimal.client.poll"@
            &&& span.reported() == Some(outcome)
            &&& span.span_kind() == SpanKind::Internal
        }),
{
    let span = UsageSpan::ClientPoll { outcome, backend, hosts, rules, alerts_firing };
    let entries = span.entries();
    assert(entries[0].key == AttributeKey::Outcome && entries[1].key == AttributeKey::BackendKind);
    assert(entries[2].key == AttributeKey::HostsCount && entries[3].key
        == AttributeKey::RulesCount);
    assert(entries[4].key == AttributeKey::AlertsFiring);
}

/// The spans of planning and folding say how many requests were planned, and how the
/// fold ended with how many alerts firing. Both are internal.
pub proof fn plan_and_fold_spans_say_their_counts(
    requests_planned: u32,
    outcome: Outcome,
    alerts_firing: u32,
)
    ensures
        ({
            let plan = UsageSpan::ClientPlan { requests_planned };
            let fold = UsageSpan::ClientFold { outcome, alerts_firing };
            &&& plan.entries().len() == 1
            &&& counts(plan.entries(), AttributeKey::RequestsPlanned, requests_planned)
            &&& plan.name_text() == "pessimal.client.plan"@
            &&& plan.reported() is None
            &&& plan.span_kind() == SpanKind::Internal
            &&& fold.entries().len() == 2
            &&& says(fold.entries(), AttributeKey::Outcome, outcome.as_text())
            &&& counts(fold.entries(), AttributeKey::AlertsFiring, alerts_firing)
            &&& fold.name_text() == "pessimal.client.fold"@
            &&& fold.reported() == Some(outcome)
            &&& fold.span_kind() == SpanKind::Internal
        }),
{
    let plan = UsageSpan::ClientPlan { requests_planned };
    let fold = UsageSpan::ClientFold { outcome, alerts_firing };
    assert(plan.entries()[0].key == AttributeKey::RequestsPlanned);
    assert(fold.entries()[0].key == AttributeKey::Outcome);
    assert(fold.entries()[1].key == AttributeKey::AlertsFiring);
}

/// The spans that call a backend say how the call ended and, where there was a status,
/// its class; gathering says how many series came back. Both are calls of a client.
pub proof fn calling_spans_say_their_status(
    outcome: Outcome,
    status_class: Option<HttpStatusClass>,
    series_returned: u32,
)
    ensures
        ({
            let gather = UsageSpan::ClientGather { outcome, status_class, series_returned };
            let probe = UsageSpan::ClientProbe { outcome, status_class };
            let more = if status_class is Some {
                1int
            } else {
                0
            };
            &&& gather.entries().len() == 2 + more
            &&& says(gather.entries(), AttributeKey::Outcome, outcome.as_text())
            &&& counts(gather.entries(), AttributeKey::SeriesReturned, series_returned)
            &&& gather.name_text() == "pessimal.client.gather"@
            &&& gather.reported() == Some(outcome)
            &&& gather.span_kind() == SpanKind::Client
            &&& probe.entries().len() == 1 + more
            &&& says(probe.entries(), AttributeKey::Outcome, outcome.as_text())
            &&& probe.name_text() == "pessimal.client.probe"@
            &&& probe.reported() == Some(outcome)
            &&& probe.span_kind() == SpanKind::Client
            &&& status_class is Some ==> {
                &&& counts(
                    gather.entries(),
                    AttributeKey::HttpStatusClass,
                    status_class->0@ as u32,
                )
                &&& counts(probe.entries(), AttributeKey::HttpStatusClass, status_class->0@ as u32)
            }
        }),
{
    let gather = UsageSpan::ClientGather { outcome, status_class, series_returned };
    let probe = UsageSpan::ClientProbe { outcome, status_class };
    assert(gather.entries()[0].key == AttributeKey::Outcome);
    assert(gather.entries()[1].key == AttributeKey::SeriesReturned);
    assert(probe.entries()[0].key == AttributeKey::Outcome);
    if status_class is Some {
        assert(gather.entries()[2].key == AttributeKey::HttpStatusClass);
        assert(probe.entries()[1].key == AttributeKey::HttpStatusClass);
    }
}

/// The kind of a span is OTLP's number for it: 1 for internal work, 3 for a call.
pub proof fn span_kinds_have_their_numbers(kind: SpanKind)
    ensures
        kind.number() == 1 <==> kind == SpanKind::Internal,
        kind.number() == 3 <==> kind == SpanKind::Client,
{
}

/// A span's attributes are counts, outcomes and kinds of backend: any word among them is
/// one of a fixed few, under the key it belongs to.
pub proof fn span_words_come_from_a_fixed_few(span: UsageSpan, i: int)
    requires
        0 <= i < span.entries().len(),
    ensures
        span.entries()[i].value is Count || span.entries()[i].value is Enumerated,
        span.entries()[i].value matches ValueView::Enumerated(word) ==> {
            ||| span.entries()[i].key == AttributeKey::Outcome && (word == "ok"@ || word
                == "partial"@ || word == "unreachable"@ || word == "unauthorized"@ || word
                == "backend_error"@ || word == "decode_error"@ || word == "cancelled"@)
            ||| span.entries()[i].key == AttributeKey::BackendKind && (word == "otlp"@ || word
                == "signoz"@ || word == "clickstack"@ || word == "honeycomb"@)
        },
{
}

} // verus!
