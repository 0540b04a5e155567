//! OTLP/HTTP JSON encoding for traces.
//!
//! OTLP/JSON is not plain ProtoJSON. The deviations that matter:
//!
//! * `traceId` and `spanId` are lowercase hex;
//! * 64-bit fields (`startTimeUnixNano`, `endTimeUnixNano`, `intValue`) are decimal
//!   strings;
//! * `kind` and `status.code` are integers;
//! * a root span omits `parentSpanId`.

use crate::ident;
use crate::json;
use crate::json::{Json, JsonView};
use crate::text;
use crate::time::Timestamp;
use crate::usage::attribute;
use crate::usage::attribute::{
    Attribute, AttributeKey, AttributeValue, AttributeView, Outcome, ValueView,
};
use crate::usage::resource::UsageResource;
use crate::usage::span::{RecordedSpan, UsageTrace};
use vstd::prelude::*;

verus! {

/// The instrumentation scope every Pessimal usage span is reported under.
pub const SCOPE_NAME: &'static str = "pessimal.usage";

/// The version of the instrumentation scope: that of this package.
pub const SCOPE_VERSION: &'static str = "0.1.0";

const STATUS_UNSET: u8 = 0;

const STATUS_OK: u8 = 1;

const STATUS_ERROR: u8 = 2;

/// A JSON string.
pub open spec fn string(s: Seq<char>) -> JsonView {
    JsonView::Text(s)
}

/// A JSON object with one field.
pub open spec fn single(key: Seq<char>, value: JsonView) -> JsonView {
    JsonView::Object(seq![(key, value)])
}

/// What an attribute holds, as OTLP's `AnyValue`.
pub open spec fn value_json(value: ValueView) -> JsonView {
    match value {
        ValueView::Enumerated(word) => single("stringValue"@, string(word)),
        ValueView::Count(count) => single("intValue"@, string(text::numeral(count as nat))),
        ValueView::Version(version) => single("stringValue"@, string(version)),
        ValueView::Identifier(id) => single("stringValue"@, string(ident::uuid_text(id))),
    }
}

/// An attribute, as OTLP's `KeyValue`.
pub open spec fn attribute_json(attribute: AttributeView) -> JsonView {
    JsonView::Object(
        seq![
            ("key"@, string(attribute.key.name_text())),
            ("value"@, value_json(attribute.value)),
        ],
    )
}

/// Attributes, as a list of OTLP's `KeyValue`.
pub open spec fn attributes_json(attributes: Seq<AttributeView>) -> JsonView {
    JsonView::List(Seq::new(attributes.len(), |i: int| attribute_json(attributes[i])))
}

/// Nanoseconds since the epoch as a decimal string, or `0` where they do not fit:
/// a timestamp that far out is a broken device clock.
pub open spec fn unix_nanos_text(at: Timestamp) -> Seq<char> {
    if i64::MIN <= at.total() <= i64::MAX {
        text::decimal(at.total())
    } else {
        text::decimal(0)
    }
}

/// OTLP's `Status.code`: unset where no outcome is reported, else ok or error.
pub open spec fn status_code(outcome: Option<Outcome>) -> int {
    match outcome {
        None => 0,
        Some(outcome) => if outcome.counts_as_error() {
            2
        } else {
            1
        },
    }
}

/// A span of a trace, as OTLP's `Span`.
pub open spec fn span_json(trace_id: Seq<char>, span: RecordedSpan) -> JsonView {
    let parent: Seq<(Seq<char>, JsonView)> = match span.parent {
        Some(parent) => seq![("parentSpanId"@, string(text::hex(parent@)))],
        None => Seq::empty(),
    };
    JsonView::Object(
        seq![("traceId"@, string(trace_id)), ("spanId"@, string(text::hex(span.id@)))] + parent
            + seq![
            ("name"@, string(span.payload.name_text())),
            ("kind"@, JsonView::Number(span.payload.span_kind().number() as int)),
            ("startTimeUnixNano"@, string(unix_nanos_text(span.started))),
            ("endTimeUnixNano"@, string(unix_nanos_text(span.ended))),
            ("attributes"@, attributes_json(span.payload.entries())),
            (
                "status"@,
                single("code"@, JsonView::Number(status_code(span.payload.reported()))),
            ),
        ],
    )
}

/// The spans of one trace.
pub open spec fn trace_json(trace: UsageTrace) -> Seq<JsonView> {
    Seq::new(trace.spans@.len(), |i: int| span_json(text::hex(trace.trace_id@), trace.spans@[i]))
}

/// The spans of some traces, one trace after the other.
pub open spec fn traces_json(traces: Seq<UsageTrace>) -> Seq<JsonView>
    decreases traces.len(),
{
    if traces.len() == 0 {
        Seq::empty()
    } else {
        traces_json(traces.drop_last()) + trace_json(traces.last())
    }
}

/// The body of an export: one resource, one scope, and all the spans.
pub open spec fn request_json(resource: UsageResource, traces: Seq<UsageTrace>) -> JsonView {
    let scope = JsonView::Object(
        seq![("name"@, string(SCOPE_NAME@)), ("version"@, string(SCOPE_VERSION@))],
    );
    let scope_spans = JsonView::Object(
        seq![("scope"@, scope), ("spans"@, JsonView::List(traces_json(traces)))],
    );
    let resource_spans = JsonView::Object(
        seq![
            ("resource"@, single("attributes"@, attributes_json(resource.entries()))),
            ("scopeSpans"@, JsonView::List(seq![scope_spans])),
        ],
    );
    single("resourceSpans"@, JsonView::List(seq![resource_spans]))
}

/// Encodes one `ExportTraceServiceRequest`.
///
/// Traces share one resource because one process reports them. An empty `traces`
/// still produces a valid body; the caller is expected not to send it.
pub fn export_trace_request(resource: &UsageResource, traces: &[UsageTrace]) -> (r: Json)
    ensures
        r.meaning() == request_json(*resource, traces@),
{
    let mut spans: Vec<Json> = Vec::new();
    let mut i: usize = 0;
    assert(json::meanings(spans@) =~= traces_json(traces@.take(0)));
    while i < traces.len()
        invariant
            i <= traces@.len(),
            json::meanings(spans@) == traces_json(traces@.take(i as int)),
        decreases traces@.len() - i,
    {
        let trace = &traces[i];
        let trace_id = trace.trace_id.hex();
        let ghost before = json::meanings(spans@);
        let ghost all = trace_json(*trace);
        let mut k: usize = 0;
        assert(before + all.take(0) =~= before);
        while k < trace.spans.len()
            invariant
                k <= trace.spans@.len(),
                trace_id@ == text::hex(trace.trace_id@),
                all == trace_json(*trace),
                json::meanings(spans@) == before + all.take(k as int),
            decreases trace.spans@.len() - k,
        {
            let span = encode_span(trace_id.as_str(), &trace.spans[k]);
            let ghost so_far = spans@;
            spans.push(span);
            proof {
                assert(json::meanings(spans@) =~= json::meanings(so_far).push(span.meaning()));
                assert(all[k as int] == span.meaning());
                assert(before + all.take(k + 1) =~= (before + all.take(k as int)).push(
                    all[k as int],
                ));
            }
            k += 1;
        }
        proof {
            assert(all.take(all.len() as int) =~= all);
            assert(traces@.take(i + 1).drop_last() =~= traces@.take(i as int));
            assert(traces@.take(i + 1).last() == *trace);
        }
        i += 1;
    }
    assert(traces@.take(traces@.len() as int) =~= traces@);
    let scope = Json::pair("name", Json::text(SCOPE_NAME), "version", Json::text(SCOPE_VERSION));
    let scope_spans = Json::pair("scope", scope, "spans", Json::list(spans));
    let attributes = encode_attributes(&resource.attributes());
    let resource_spans = Json::pair(
        "resource",
        Json::wrapped("attributes", attributes),
        "scopeSpans",
        Json::singleton(scope_spans),
    );
    Json::wrapped("resourceSpans", Json::singleton(resource_spans))
}

/// Encodes one span under its trace's id.
pub fn encode_span(trace_id_hex: &str, span: &RecordedSpan) -> (r: Json)
    ensures
        r.meaning() == span_json(trace_id_hex@, *span),
{
    let mut encoded: Vec<(String, Json)> = Vec::new();
    json::put(&mut encoded, "traceId", Json::text(trace_id_hex));
    json::put(&mut encoded, "spanId", Json::text(span.id.hex().as_str()));
    if let Some(parent) = span.parent {
        json::put(&mut encoded, "parentSpanId", Json::text(parent.hex().as_str()));
    }
    json::put(&mut encoded, "name", Json::text(span.payload.name()));
    json::put(&mut encoded, "kind", Json::Number(span.payload.kind().code() as u64));
    json::put(&mut encoded, "startTimeUnixNano", Json::text(unix_nanos(span.started).as_str()));
    json::put(&mut encoded, "endTimeUnixNano", Json::text(unix_nanos(span.ended).as_str()));
    json::put(&mut encoded, "attributes", encode_attributes(&span.payload.attributes()));
    let code = match span.payload.outcome() {
        None => STATUS_UNSET,
        Some(outcome) => if outcome.is_error() {
            STATUS_ERROR
        } else {
            STATUS_OK
        },
    };
    // No `message`: the human-readable half of a status is exactly where a backend
    // error body would end up, so the status carries its code alone.
    json::put(&mut encoded, "status", Json::wrapped("code", Json::Number(code as u64)));
    assert(json::field_meanings(encoded@) =~= span_json(trace_id_hex@, *span)->Object_0);
    Json::object(encoded)
}

/// Encodes attributes as a list of key and value.
pub fn encode_attributes(attributes: &Vec<Attribute>) -> (r: Json)
    ensures
        r.meaning() == attributes_json(attribute::attribute_views(attributes@)),
{
    let ghost views = attribute::attribute_views(attributes@);
    let ghost all = attributes_json(views)->List_0;
    let mut out: Vec<Json> = Vec::new();
    let mut i: usize = 0;
    while i < attributes.len()
        invariant
            i <= attributes@.len(),
            views == attribute::attribute_views(attributes@),
            all == attributes_json(views)->List_0,
            json::meanings(out@) == all.take(i as int),
        decreases attributes@.len() - i,
    {
        let attribute = &attributes[i];
        let item = Json::pair(
            "key",
            Json::text(attribute.key.otel_name()),
            "value",
            encode_value(&attribute.value),
        );
        let ghost so_far = out@;
        out.push(item);
        proof {
            assert(views[i as int] == attribute@);
            assert(all[i as int] == item.meaning());
            assert(json::meanings(out@) =~= json::meanings(so_far).push(item.meaning()));
            assert(all.take(i + 1) =~= all.take(i as int).push(all[i as int]));
        }
        i += 1;
    }
    assert(all.take(all.len() as int) =~= all);
    Json::list(out)
}

/// Encodes what an attribute holds. `intValue` is an int64, so a decimal string.
pub fn encode_value(value: &AttributeValue) -> (r: Json)
    ensures
        r.meaning() == value_json(value@),
{
    match value {
        AttributeValue::Enumerated(word) => Json::wrapped("stringValue", Json::text(word)),
        AttributeValue::Count(count) => Json::wrapped(
            "intValue",
            Json::text(text::numeral_of(*count as u64).as_str()),
        ),
        AttributeValue::Version(version) => Json::wrapped(
            "stringValue",
            Json::text(version.as_str()),
        ),
        AttributeValue::Identifier(id) => Json::wrapped(
            "stringValue",
            Json::text(id.to_string().as_str()),
        ),
    }
}

/// Nanoseconds since the epoch, as the decimal string OTLP/JSON wants.
pub fn unix_nanos(at: Timestamp) -> (r: String)
    ensures
        r@ == unix_nanos_text(at),
{
    match at.timestamp_nanos_opt() {
        Some(nanos) => text::decimal_of(nanos),
        None => text::decimal_of(0),
    }
}

/// Whether an object has a field.
pub open spec fn has_field(value: JsonView, key: Seq<char>) -> bool {
    value matches JsonView::Object(fields) && exists|i: int|
        0 <= i < fields.len() && (#[trigger] fields[i]).0 == key
}

/// A root span omits `parentSpanId`; any other span has it.
pub proof fn roots_have_no_parent(trace_id: Seq<char>, span: RecordedSpan)
    ensures
        has_field(span_json(trace_id, span), "parentSpanId"@) <==> span.parent is Some,
{
    reveal_strlit("traceId");
    reveal_strlit("spanId");
    reveal_strlit("parentSpanId");
    reveal_strlit("name");
    reveal_strlit("kind");
    reveal_strlit("startTimeUnixNano");
    reveal_strlit("endTimeUnixNano");
    reveal_strlit("attributes");
    reveal_strlit("status");
    let fields = span_json(trace_id, span)->Object_0;
    assert("traceId"@.len() == 7 && "spanId"@.len() == 6 && "parentSpanId"@.len() == 12
        && "name"@.len() == 4 && "kind"@.len() == 4 && "startTimeUnixNano"@.len() == 17
        && "endTimeUnixNano"@.len() == 15 && "attributes"@.len() == 10 && "status"@.len() == 6);
    if span.parent is Some {
        assert(fields[2].0 == "parentSpanId"@);
    } else {
        assert forall|i: int| 0 <= i < fields.len() implies (#[trigger] fields[i]).0
            != "parentSpanId"@ by {
            assert(fields.len() == 8);
        }
    }
}

/// A span's status carries its code alone: no message can ride along.
pub proof fn statuses_carry_no_message(trace_id: Seq<char>, span: RecordedSpan)
    ensures
        ({
            let fields = span_json(trace_id, span)->Object_0;
            fields.last() == (
                "status"@,
                single("code"@, JsonView::Number(status_code(span.payload.reported()))),
            )
        }),
{
}

/// An export has every recorded span, under its trace's id and in its place, and no
/// other.
pub proof fn every_span_is_exported(traces: Seq<UsageTrace>)
    ensures
        traces_json(traces).len() == span_count(traces),
        forall|i: int, k: int|
            0 <= i < traces.len() && 0 <= k < traces[i].spans@.len() ==> {
                &&& span_count(traces.take(i)) + k < traces_json(traces).len()
                &&& traces_json(traces)[span_count(traces.take(i)) + k] == #[trigger] span_json(
                    text::hex(traces[i].trace_id@),
                    traces[i].spans@[k],
                )
            },
    decreases traces.len(),
{
    if traces.len() > 0 {
        let front = traces.drop_last();
        every_span_is_exported(front);
        assert forall|i: int, k: int|
            0 <= i < traces.len() && 0 <= k < traces[i].spans@.len() implies {
            &&& span_count(traces.take(i)) + k < traces_json(traces).len()
            &&& traces_json(traces)[span_count(traces.take(i)) + k] == #[trigger] span_json(
                text::hex(traces[i].trace_id@),
                traces[i].spans@[k],
            )
        } by {
            if i < front.len() {
                assert(front.take(i) =~= traces.take(i));
                assert(front[i] == traces[i]);
                assert(traces_json(front)[span_count(front.take(i)) + k] == span_json(
                    text::hex(front[i].trace_id@),
                    front[i].spans@[k],
                ));
            } else {
                assert(traces.take(i) =~= front);
            }
        }
    }
}

/// How many spans some traces hold.
pub open spec fn span_count(traces: Seq<UsageTrace>) -> nat
    decreases traces.len(),
{
    if traces.len() == 0 {
        0
    } else {
        span_count(traces.drop_last()) + traces.last().spans@.len()
    }
}

/// The keys of an encoded span are all different, so each names one value.
proof fn lemma_span_keys_differ(trace_id: Seq<char>, span: RecordedSpan)
    ensures
        ({
            let fields = span_json(trace_id, span)->Object_0;
            forall|i: int, j: int|
                0 <= i < fields.len() && 0 <= j < fields.len() && (#[trigger] fields[i]).0 == (
                #[trigger] fields[j]).0 ==> i == j
        }),
{
    reveal_strlit("traceId");
    reveal_strlit("spanId");
    reveal_strlit("parentSpanId");
    reveal_strlit("name");
    reveal_strlit("kind");
    reveal_strlit("startTimeUnixNano");
    reveal_strlit("endTimeUnixNano");
    reveal_strlit("attributes");
    reveal_strlit("status");
    assert("traceId"@.len() == 7 && "spanId"@.len() == 6 && "parentSpanId"@.len() == 12
        && "name"@.len() == 4 && "kind"@.len() == 4 && "startTimeUnixNano"@.len() == 17
        && "endTimeUnixNano"@.len() == 15 && "attributes"@.len() == 10 && "status"@.len() == 6);
    assert("spanId"@[1] == 'p' && "status"@[1] == 't');
    assert("name"@[0] == 'n' && "kind"@[0] == 'k');
}

/// An encoded span says of the span what it is: its ids in lowercase hex, its parent if
/// it has one, its name, its kind as a number, when it started and when it ended, its
/// attributes and how it ended. Each is said once, and nothing else is.
pub proof fn an_encoded_span_says_what_the_span_is(trace_id: Seq<char>, span: RecordedSpan)
    ensures
        ({
            let fields = span_json(trace_id, span)->Object_0;
            &&& span_json(trace_id, span) is Object
            &&& fields.len() == if span.parent is Some {
                9int
            } else {
                8
            }
            &&& forall|i: int, j: int|
                0 <= i < fields.len() && 0 <= j < fields.len() && (#[trigger] fields[i]).0 == (
                #[trigger] fields[j]).0 ==> i == j
            &&& fields.contains(("traceId"@, JsonView::Text(trace_id)))
            &&& fields.contains(("spanId"@, JsonView::Text(text::hex(span.id@))))
            &&& span.parent is Some ==> fields.contains(
                ("parentSpanId"@, JsonView::Text(text::hex(span.parent->0@))),
            )
            &&& fields.contains(("name"@, JsonView::Text(span.payload.name_text())))
            &&& fields.contains(
                ("kind"@, JsonView::Number(if span.payload is ClientGather || span.payload is ClientProbe {
                    3
                } else {
                    1
                })),
            )
            &&& fields.contains(("attributes"@, attributes_json(span.payload.entries())))
        }),
{
    lemma_span_keys_differ(trace_id, span);
    let fields = span_json(trace_id, span)->Object_0;
    let n = if span.parent is Some {
        1int
    } else {
        0
    };
    assert(fields[0].0 == "traceId"@ && fields[1].0 == "spanId"@);
    if span.parent is Some {
        assert(fields[2].0 == "parentSpanId"@);
    }
    assert(fields[2 + n].0 == "name"@ && fields[3 + n].0 == "kind"@);
    assert(fields[6 + n].0 == "attributes"@);
}

/// Where the instants of a span fit in a signed 64-bit count of nanoseconds, it starts
/// when it started and ends when it ended, in decimal; an instant that does not fit is
/// a zero.
pub proof fn spans_last_as_long_as_they_did(trace_id: Seq<char>, span: RecordedSpan)
    ensures
        ({
            let fields = span_json(trace_id, span)->Object_0;
            let start = span.started.secs() * 1_000_000_000 + span.started.nanos();
            let end = span.ended.secs() * 1_000_000_000 + span.ended.nanos();
            &&& i64::MIN <= start <= i64::MAX ==> fields.contains(
                ("startTimeUnixNano"@, JsonView::Text(text::decimal(start))),
            )
            &&& !(i64::MIN <= start <= i64::MAX) ==> fields.contains(
                ("startTimeUnixNano"@, JsonView::Text(text::decimal(0))),
            )
            &&& i64::MIN <= end <= i64::MAX ==> fields.contains(
                ("endTimeUnixNano"@, JsonView::Text(text::decimal(end))),
            )
            &&& !(i64::MIN <= end <= i64::MAX) ==> fields.contains(
                ("endTimeUnixNano"@, JsonView::Text(text::decimal(0))),
            )
        }),
{
    let fields = span_json(trace_id, span)->Object_0;
    let n = if span.parent is Some {
        1int
    } else {
        0
    };
    assert(fields[4 + n].0 == "startTimeUnixNano"@);
    assert(fields[5 + n].0 == "endTimeUnixNano"@);
}

/// Two spans that start or end at different instants are encoded differently.
pub proof fn spans_of_other_times_encode_apart(trace_id: Seq<char>, a: RecordedSpan, b: RecordedSpan)
    requires
        i64::MIN <= a.started.total() <= i64::MAX,
        i64::MIN <= b.started.total() <= i64::MAX,
        i64::MIN <= a.ended.total() <= i64::MAX,
        i64::MIN <= b.ended.total() <= i64::MAX,
        span_json(trace_id, a) == span_json(trace_id, b),
    ensures
        a.started.total() == b.started.total(),
        a.ended.total() == b.ended.total(),
{
    spans_last_as_long_as_they_did(trace_id, a);
    spans_last_as_long_as_they_did(trace_id, b);
    lemma_span_keys_differ(trace_id, a);
    let fields = span_json(trace_id, a)->Object_0;
    let a_start = ("startTimeUnixNano"@, JsonView::Text(text::decimal(a.started.total())));
    let b_start = ("startTimeUnixNano"@, JsonView::Text(text::decimal(b.started.total())));
    let a_end = ("endTimeUnixNano"@, JsonView::Text(text::decimal(a.ended.total())));
    let b_end = ("endTimeUnixNano"@, JsonView::Text(text::decimal(b.ended.total())));
    let i = choose|i: int| 0 <= i < fields.len() && fields[i] == a_start;
    let j = choose|j: int| 0 <= j < fields.len() && fields[j] == b_start;
    assert(fields[i].0 == fields[j].0);
    let k = choose|k: int| 0 <= k < fields.len() && fields[k] == a_end;
    let m = choose|m: int| 0 <= m < fields.len() && fields[m] == b_end;
    assert(fields[k].0 == fields[m].0);
    text::decimals_are_unique(a.started.total(), b.started.total());
    text::decimals_are_unique(a.ended.total(), b.ended.total());
}

/// A span's status is a code alone: none where no outcome is reported, 1 where it went
/// well or was called off, and 2 for any other end.
pub proof fn statuses_go_by_the_outcome(trace_id: Seq<char>, span: RecordedSpan)
    ensures
        ({
            let fields = span_json(trace_id, span)->Object_0;
            let code = match span.payload.reported() {
                None => 0int,
                Some(Outcome::Success) => 1,
                Some(Outcome::Cancelled) => 1,
                Some(Outcome::Partial) => 2,
                Some(Outcome::Unreachable) => 2,
                Some(Outcome::Unauthorized) => 2,
                Some(Outcome::BackendError) => 2,
                Some(Outcome::DecodeError) => 2,
            };
            fields.contains(("status"@, JsonView::Object(seq![("code"@, JsonView::Number(code))])))
        }),
{
    let fields = span_json(trace_id, span)->Object_0;
    assert(fields.last().0 == "status"@);
    assert(fields.last() == fields[fields.len() - 1]);
}

/// An attribute is its wire name and its value: words, versions and ids as strings, and
/// counts as decimal strings.
pub proof fn attributes_say_their_name_and_value(
    key: AttributeKey,
    words: Seq<char>,
    count: u32,
    id: Seq<u8>,
)
    ensures
        attribute_json(AttributeView { key, value: ValueView::Enumerated(words) })
            == JsonView::Object(
            seq![
                ("key"@, JsonView::Text(key.name_text())),
                ("value"@, JsonView::Object(seq![("stringValue"@, JsonView::Text(words))])),
            ],
        ),
        attribute_json(AttributeView { key, value: ValueView::Version(words) }) == attribute_json(
            AttributeView { key, value: ValueView::Enumerated(words) },
        ),
        attribute_json(AttributeView { key, value: ValueView::Identifier(id) }) == attribute_json(
            AttributeView { key, value: ValueView::Enumerated(ident::uuid_text(id)) },
        ),
        attribute_json(AttributeView { key, value: ValueView::Count(count) }) == JsonView::Object(
            seq![
                ("key"@, JsonView::Text(key.name_text())),
                (
                    "value"@,
                    JsonView::Object(seq![("intValue"@, JsonView::Text(text::decimal(count as int)))]),
                ),
            ],
        ),
{
}

/// Attributes are encoded one for one, in their order.
pub proof fn attributes_are_encoded_one_for_one(attributes: Seq<AttributeView>)
    ensures
        attributes_json(attributes) matches JsonView::List(items) && {
            &&& items.len() == attributes.len()
            &&& forall|i: int|
                0 <= i < attributes.len() ==> #[trigger] items[i] == attribute_json(attributes[i])
        },
{
}

/// An export is one resource with the process's attributes, and in it one scope with
/// every span.
pub proof fn an_export_is_one_resource_and_one_scope(
    resource: UsageResource,
    traces: Seq<UsageTrace>,
)
    ensures
        ({
            let outer = request_json(resource, traces)->Object_0;
            let of_resource = outer[0].1->List_0[0]->Object_0;
            let of_scope = of_resource[1].1->List_0[0]->Object_0;
            &&& request_json(resource, traces) is Object && outer.len() == 1
            &&& outer[0].0 == "resourceSpans"@ && outer[0].1 is List
            &&& outer[0].1->List_0.len() == 1 && outer[0].1->List_0[0] is Object
            &&& of_resource.len() == 2
            &&& of_resource[0] == (
                "resource"@,
                JsonView::Object(seq![("attributes"@, attributes_json(resource.entries()))]),
            )
            &&& of_resource[1].0 == "scopeSpans"@ && of_resource[1].1 is List
            &&& of_resource[1].1->List_0.len() == 1 && of_resource[1].1->List_0[0] is Object
            &&& of_scope.len() == 2
            &&& of_scope[0] == (
                "scope"@,
                JsonView::Object(
                    seq![
                        ("name"@, JsonView::Text("pessimal.usage"@)),
                        ("version"@, JsonView::Text("0.1.0"@)),
                    ],
                ),
            )
            &&& of_scope[1] == ("spans"@, JsonView::List(traces_json(traces)))
        }),
{
}

/// Spans are counted and exported trace by trace: an empty batch has none, and a trace
/// that is added adds its own behind those before it.
pub proof fn batches_grow_by_their_traces(traces: Seq<UsageTrace>, trace: UsageTrace)
    ensures
        span_count(Seq::empty()) == 0,
        span_count(traces.push(trace)) == span_count(traces) + trace.spans@.len(),
        traces_json(Seq::empty()) == Seq::<JsonView>::empty(),
        traces_json(traces.push(trace)) == traces_json(traces) + Seq::new(
            trace.spans@.len(),
            |i: int| span_json(text::hex(trace.trace_id@), trace.spans@[i]),
        ),
{
    assert(traces.push(trace).drop_last() =~= traces);
}

} // verus!
