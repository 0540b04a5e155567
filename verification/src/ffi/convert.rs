//! The boundary's vocabulary: the one error that crosses it, and the scalar shape
//! changes every other module depends on.
//!
//! An instant becomes epoch milliseconds, a span becomes whole seconds, a URN and a
//! host id become strings, a map of attributes becomes a list in key order, and a
//! length becomes a `u32`. Where a conversion can fail, it fails because the
//! representation cannot hold the value, never because the value is judged wrong.

use crate::client::error::ClientError;
use crate::domain::error::CoreError;
use crate::domain::host::HostId;
use crate::domain::urn;
use crate::domain::urn::{Urn, UrnView};
use crate::text;
use crate::text_map;
use crate::text_map::TextMap;
use crate::time;
use crate::time::{TimeDelta, Timestamp};
use vstd::prelude::*;

verus! {

/// Every failure that can cross the boundary, struct-shaped so a message always
/// survives. The variant is the routing decision on the other side.
#[derive(Debug, Clone, PartialEq, Eq)]
pub enum FfiError {
    /// A poll interval, threshold, or multiplier that was rejected.
    InvalidTuning { message: String },
    /// The backend endpoint, credentials, or metric selection is not usable.
    InvalidConfig { message: String },
    /// An alert rule the domain refused to build.
    InvalidRule { message: String },
    /// A string that is not a URN.
    InvalidUrn { message: String },
    /// A start/end pair the domain refused.
    InvalidTimeRange { message: String },
    /// A metric name that is not modelled.
    UnknownMetric { message: String },
    /// No rule with that URN is stored.
    RuleNotFound { message: String },
    /// No host with that id is in the current state.
    UnknownHost { message: String },
    /// The telemetry backend answered, unhappily.
    Backend { message: String },
    /// Credentials are missing, wrong, or expired. Its sentence is the bare
    /// message, which is a sentence already.
    Unauthorized { message: String },
    /// The backend was never reached.
    Unreachable { message: String },
    /// A session method was called before the session was constructed.
    NotInitialized { message: String },
    /// A bridge fault: something that cannot happen unless this layer is wrong.
    Internal { message: String },
}

/// The sentence of a refused credential.
pub open spec fn unauthorized_text() -> Seq<char> {
    "not authorised for the telemetry backend"@
}

impl FfiError {
    /// The message, as characters.
    pub open spec fn message_text(self) -> Seq<char> {
        match self {
            FfiError::InvalidTuning { message } => message@,
            FfiError::InvalidConfig { message } => message@,
            FfiError::InvalidRule { message } => message@,
            FfiError::InvalidUrn { message } => message@,
            FfiError::InvalidTimeRange { message } => message@,
            FfiError::UnknownMetric { message } => message@,
            FfiError::RuleNotFound { message } => message@,
            FfiError::UnknownHost { message } => message@,
            FfiError::Backend { message } => message@,
            FfiError::Unauthorized { message } => message@,
            FfiError::Unreachable { message } => message@,
            FfiError::NotInitialized { message } => message@,
            FfiError::Internal { message } => message@,
        }
    }

    /// What stands before the message in the error's sentence.
    pub open spec fn prefix_text(self) -> Seq<char> {
        match self {
            FfiError::InvalidTuning { .. } => "invalid poll tuning: "@,
            FfiError::InvalidConfig { .. } => "invalid client configuration: "@,
            FfiError::InvalidRule { .. } => "invalid alert rule: "@,
            FfiError::InvalidUrn { .. } => "invalid URN: "@,
            FfiError::InvalidTimeRange { .. } => "invalid time range: "@,
            FfiError::UnknownMetric { .. } => "unknown metric: "@,
            FfiError::RuleNotFound { .. } => "no such alert rule: "@,
            FfiError::UnknownHost { .. } => "unknown host: "@,
            FfiError::Backend { .. } => "telemetry backend error: "@,
            FfiError::Unauthorized { .. } => ""@,
            FfiError::Unreachable { .. } => "telemetry backend is unreachable: "@,
            FfiError::NotInitialized { .. } => "not initialised: "@,
            FfiError::Internal { .. } => "internal error: "@,
        }
    }

    /// The error as a sentence.
    pub fn to_string(&self) -> (r: String)
        ensures
            r@ == self.prefix_text() + self.message_text(),
    {
        let (prefix, message) = match self {
            FfiError::InvalidTuning { message } => ("invalid poll tuning: ", message),
            FfiError::InvalidConfig { message } => ("invalid client configuration: ", message),
            FfiError::InvalidRule { message } => ("invalid alert rule: ", message),
            FfiError::InvalidUrn { message } => ("invalid URN: ", message),
            FfiError::InvalidTimeRange { message } => ("invalid time range: ", message),
            FfiError::UnknownMetric { message } => ("unknown metric: ", message),
            FfiError::RuleNotFound { message } => ("no such alert rule: ", message),
            FfiError::UnknownHost { message } => ("unknown host: ", message),
            FfiError::Backend { message } => ("telemetry backend error: ", message),
            FfiError::Unauthorized { message } => ("", message),
            FfiError::Unreachable { message } => ("telemetry backend is unreachable: ", message),
            FfiError::NotInitialized { message } => ("not initialised: ", message),
            FfiError::Internal { message } => ("internal error: ", message),
        };
        prefix.to_owned().concat(message.as_str())
    }

    /// Whether this is what a client error becomes: the same variant, with the
    /// payload as the message. A refused credential has no payload, so its sentence
    /// becomes the message.
    pub open spec fn restates_client(self, error: ClientError) -> bool {
        match error {
            ClientError::InvalidTuning(m) => self == (FfiError::InvalidTuning { message: m }),
            ClientError::InvalidConfig(m) => self == (FfiError::InvalidConfig { message: m }),
            ClientError::InvalidRule(m) => self == (FfiError::InvalidRule { message: m }),
            ClientError::InvalidUrn(m) => self == (FfiError::InvalidUrn { message: m }),
            ClientError::InvalidTimeRange(m) => self == (FfiError::InvalidTimeRange {
                message: m,
            }),
            ClientError::UnknownMetric(m) => self == (FfiError::UnknownMetric { message: m }),
            ClientError::RuleNotFound(m) => self == (FfiError::RuleNotFound { message: m }),
            ClientError::UnknownHost(m) => self == (FfiError::UnknownHost { message: m }),
            ClientError::Backend(m) => self == (FfiError::Backend { message: m }),
            ClientError::Unauthorized => self is Unauthorized && self.message_text()
                == unauthorized_text(),
            ClientError::Unreachable(m) => self == (FfiError::Unreachable { message: m }),
        }
    }

    /// Whether this is what a domain error becomes.
    pub open spec fn restates_core(self, error: CoreError) -> bool {
        match error {
            CoreError::InvalidUrn(m) => self == (FfiError::InvalidUrn { message: m }),
            CoreError::InvalidRule(m) => self == (FfiError::InvalidRule { message: m }),
            CoreError::InvalidTimeRange(m) => self == (FfiError::InvalidTimeRange { message: m }),
            CoreError::UnknownMetric(m) => self == (FfiError::UnknownMetric { message: m }),
            CoreError::RuleNotFound(m) => self == (FfiError::RuleNotFound { message: m }),
            CoreError::Backend(m) => self == (FfiError::Backend { message: m }),
            CoreError::Unauthorized => self is Unauthorized && self.message_text()
                == unauthorized_text(),
            CoreError::Unreachable(m) => self == (FfiError::Unreachable { message: m }),
        }
    }
}

impl vstd::std_specs::convert::FromSpecImpl<ClientError> for FfiError {
    open spec fn obeys_from_spec() -> bool {
        false
    }

    open spec fn from_spec(error: ClientError) -> FfiError {
        arbitrary()
    }
}

impl From<ClientError> for FfiError {
    /// Exhaustive: a new variant has to be given a meaning here.
    fn from(error: ClientError) -> (r: FfiError)
        ensures
            r.restates_client(error),
    {
        match error {
            ClientError::InvalidTuning(message) => FfiError::InvalidTuning { message },
            ClientError::InvalidConfig(message) => FfiError::InvalidConfig { message },
            ClientError::InvalidRule(message) => FfiError::InvalidRule { message },
            ClientError::InvalidUrn(message) => FfiError::InvalidUrn { message },
            ClientError::InvalidTimeRange(message) => FfiError::InvalidTimeRange { message },
            ClientError::UnknownMetric(message) => FfiError::UnknownMetric { message },
            ClientError::RuleNotFound(message) => FfiError::RuleNotFound { message },
            ClientError::UnknownHost(message) => FfiError::UnknownHost { message },
            ClientError::Backend(message) => FfiError::Backend { message },
            ClientError::Unauthorized => FfiError::Unauthorized {
                message: "not authorised for the telemetry backend".to_owned(),
            },
            ClientError::Unreachable(message) => FfiError::Unreachable { message },
        }
    }
}

impl vstd::std_specs::convert::FromSpecImpl<CoreError> for FfiError {
    open spec fn obeys_from_spec() -> bool {
        false
    }

    open spec fn from_spec(error: CoreError) -> FfiError {
        arbitrary()
    }
}

impl From<CoreError> for FfiError {
    fn from(error: CoreError) -> (r: FfiError)
        ensures
            r.restates_core(error),
    {
        match error {
            CoreError::InvalidUrn(message) => FfiError::InvalidUrn { message },
            CoreError::InvalidRule(message) => FfiError::InvalidRule { message },
            CoreError::InvalidTimeRange(message) => FfiError::InvalidTimeRange { message },
            CoreError::UnknownMetric(message) => FfiError::UnknownMetric { message },
            CoreError::RuleNotFound(message) => FfiError::RuleNotFound { message },
            CoreError::Backend(message) => FfiError::Backend { message },
            CoreError::Unauthorized => FfiError::Unauthorized {
                message: CoreError::Unauthorized.to_string(),
            },
            CoreError::Unreachable(message) => FfiError::Unreachable { message },
        }
    }
}

/// What an app's own code threw where a call into it promised something else: uniffi's
/// error for that. Its reason is read with [`callback_reason`].
#[verifier::external_type_specification]
#[verifier::external_body]
pub struct ExUnexpectedCallbackError(uniffi::UnexpectedUniFFICallbackError);

/// The text in the `reason` of uniffi's `UnexpectedUniFFICallbackError`.
pub uninterp spec fn callback_reason_text(error: uniffi::UnexpectedUniFFICallbackError) -> Seq<
    char,
>;

/// Takes the `reason` out of uniffi's `UnexpectedUniFFICallbackError`. What was thrown
/// decides what it says; the claim is only that this is the error's own reason.
#[verifier::external_body]
fn callback_reason(error: uniffi::UnexpectedUniFFICallbackError) -> (r: String)
    ensures
        r@ == callback_reason_text(error),
{
    error.reason
}

/// The fault that something thrown across the boundary is, under its reason.
pub fn callback_fault(reason: String) -> (r: FfiError)
    ensures
        r == (FfiError::Internal { message: reason }),
{
    FfiError::Internal { message: reason }
}

impl vstd::std_specs::convert::FromSpecImpl<uniffi::UnexpectedUniFFICallbackError> for FfiError {
    open spec fn obeys_from_spec() -> bool {
        false
    }

    open spec fn from_spec(error: uniffi::UnexpectedUniFFICallbackError) -> FfiError {
        arbitrary()
    }
}

impl From<uniffi::UnexpectedUniFFICallbackError> for FfiError {
    /// Needed where a trait that an app implements returns [`FfiError`].
    fn from(error: uniffi::UnexpectedUniFFICallbackError) -> (r: FfiError)
        ensures
            r is Internal,
            r.message_text() == callback_reason_text(error),
    {
        callback_fault(callback_reason(error))
    }
}

/// One attribute of a metric series.
#[derive(Debug, Clone, PartialEq, Eq)]
pub struct AttributeRecord {
    pub key: String,
    pub value: String,
}

/// Epoch milliseconds of an instant.
pub open spec fn millis_of(at: Timestamp) -> i64 {
    (at.total() / 1_000_000) as i64
}

/// Epoch milliseconds of an instant that may be missing.
pub open spec fn optional_millis_of(at: Option<Timestamp>) -> Option<i64> {
    match at {
        Some(at) => Some(millis_of(at)),
        None => None,
    }
}

/// Whether an instant lies so many milliseconds from the epoch.
pub open spec fn is_millis(millis: i64) -> bool {
    time::MIN_SECS <= millis as int / 1000 <= time::MAX_SECS
}

/// Whether an instant falls exactly on so many milliseconds.
pub open spec fn falls_on(at: Timestamp, millis: i64) -> bool {
    &&& at.on_calendar()
    &&& !at.is_leap()
    &&& at.total() == millis * 1_000_000
    &&& millis_of(at) == millis
}

/// Whether an instant that may be missing falls on milliseconds that may be missing.
pub open spec fn optionally_falls_on(at: Option<Timestamp>, millis: Option<i64>) -> bool {
    match millis {
        Some(millis) => at matches Some(at) && falls_on(at, millis),
        None => at is None,
    }
}

/// Whether an instant is on a whole millisecond, outside leap seconds.
pub open spec fn on_a_millisecond(at: Timestamp) -> bool {
    at.on_calendar() && !at.is_leap() && at.total() % 1_000_000 == 0
}

/// Whether an instant that may be missing is on a whole millisecond.
pub open spec fn optionally_on_a_millisecond(at: Option<Timestamp>) -> bool {
    at matches Some(at) ==> on_a_millisecond(at)
}

/// Whole seconds of a span, truncated towards zero.
pub open spec fn seconds_of(span: TimeDelta) -> i64 {
    time::truncated(span.total(), time::NANOS_PER_SEC as int) as i64
}

/// Whether a span lasts so many seconds.
pub open spec fn is_seconds(seconds: i64) -> bool {
    -time::MAX_DELTA_SECS <= seconds <= time::MAX_DELTA_SECS
}

/// The error for milliseconds at which there is no instant.
pub open spec fn is_millis_error(error: FfiError, millis: i64) -> bool {
    error is Internal && error.message_text() == text::decimal(millis as int)
        + " ms since the epoch is not a representable instant"@
}

/// The error for seconds that no span lasts.
pub open spec fn is_seconds_error(error: FfiError, seconds: i64) -> bool {
    error is Internal && error.message_text() == text::decimal(seconds as int)
        + " s is not a representable duration"@
}

/// Epoch milliseconds, the boundary's only representation of an instant.
pub fn datetime_to_millis(at: Timestamp) -> (r: i64)
    ensures
        r == millis_of(at),
        r == at.total() / 1_000_000,
{
    at.timestamp_millis()
}

/// The reverse, which can fail because `i64` is wider than the calendar. An error
/// rather than a clamp: clamping would turn a bad timestamp into a plausible one.
pub fn millis_to_datetime(millis: i64) -> (r: Result<Timestamp, FfiError>)
    ensures
        r is Ok <==> is_millis(millis),
        r matches Ok(at) ==> falls_on(at, millis),
        r matches Err(e) ==> is_millis_error(e, millis),
{
    match Timestamp::from_timestamp_millis(millis) {
        Some(at) => Ok(at),
        None => {
            let mut message = text::decimal_of(millis);
            message.append(" ms since the epoch is not a representable instant");
            Err(FfiError::Internal { message })
        },
    }
}

/// [`datetime_to_millis`] over an instant that may be missing. `None` stays `None`
/// rather than becoming a sentinel.
pub fn optional_datetime_to_millis(at: Option<Timestamp>) -> (r: Option<i64>)
    ensures
        r == optional_millis_of(at),
{
    match at {
        Some(at) => Some(datetime_to_millis(at)),
        None => None,
    }
}

/// The reverse of [`optional_datetime_to_millis`].
pub fn optional_millis_to_datetime(millis: Option<i64>) -> (r: Result<Option<Timestamp>, FfiError>)
    ensures
        r is Ok <==> (millis matches Some(m) ==> is_millis(m)),
        r matches Ok(at) ==> {
            &&& optionally_falls_on(at, millis)
            &&& optional_millis_of(at) == millis
        },
        r matches Err(e) ==> millis is Some && is_millis_error(e, millis->0),
{
    match millis {
        None => Ok(None),
        Some(millis) => match millis_to_datetime(millis) {
            Ok(at) => Ok(Some(at)),
            Err(e) => Err(e),
        },
    }
}

/// Whole seconds, the boundary's only representation of a span.
pub fn duration_to_seconds(duration: TimeDelta) -> (r: i64)
    ensures
        r == seconds_of(duration),
        r == time::truncated(duration.total(), time::NANOS_PER_SEC as int),
{
    duration.num_seconds()
}

/// The reverse, fallible because a span holds roughly a thousandth of the seconds an
/// `i64` can name.
pub fn seconds_to_duration(seconds: i64) -> (r: Result<TimeDelta, FfiError>)
    ensures
        r is Ok <==> is_seconds(seconds),
        r matches Ok(span) ==> lasts(span, seconds),
        r matches Err(e) ==> is_seconds_error(e, seconds),
{
    match TimeDelta::try_seconds(seconds) {
        Some(span) => {
            proof {
                lemma_whole_seconds(seconds as int);
            }
            Ok(span)
        },
        None => {
            let mut message = text::decimal_of(seconds);
            message.append(" s is not a representable duration");
            Err(FfiError::Internal { message })
        },
    }
}

proof fn lemma_whole_seconds(seconds: int)
    ensures
        time::truncated(seconds * time::NANOS_PER_SEC, time::NANOS_PER_SEC as int) == seconds,
{
}

/// Whether a string is a URN's rendering, and reads back as that URN exactly where no
/// part of it ends in a colon.
pub open spec fn renders_urn(text: Seq<char>, urn: UrnView) -> bool {
    &&& text == urn.rendered()
    &&& (urn::parsed_urn(text) matches Ok(u) && u == urn) <==> urn.rereads()
}

/// A URN as its canonical five-segment string.
pub fn urn_to_string(urn: &Urn) -> (r: String)
    ensures
        urn@.valid(),
        renders_urn(r@, urn@),
{
    urn.to_string()
}

/// Whether this is what reading a URN from a string comes to.
pub open spec fn reads_urn(raw: Seq<char>, r: Result<Urn, FfiError>) -> bool {
    match urn::parsed_urn(raw) {
        Ok(parts) => r matches Ok(urn) && urn@ == parts,
        Err(message) => r matches Err(e) && e is InvalidUrn && e.message_text() == message,
    }
}

/// Reads a URN from a string. What a URN is, [`Urn`] decides.
pub fn urn_from_string(raw: &str) -> (r: Result<Urn, FfiError>)
    ensures
        reads_urn(raw@, r),
{
    match Urn::from_str(raw) {
        Ok(urn) => Ok(urn),
        Err(e) => Err(FfiError::from(e)),
    }
}

/// A host id as its string.
pub fn host_id_to_string(id: &HostId) -> (r: String)
    ensures
        r@ == id@,
{
    id.as_str().to_owned()
}

/// The reverse. Infallible: the backend decides what a hostname looks like.
pub fn host_id_from_string(raw: String) -> (r: HostId)
    ensures
        r@ == raw@,
{
    HostId::from(raw)
}

/// The pairs that some records hold.
pub open spec fn record_pairs(records: Seq<AttributeRecord>) -> Seq<text_map::TextPair> {
    Seq::new(records.len(), |i: int| (records[i].key@, records[i].value@))
}

/// A map of attributes as a list of records, in key order.
pub fn attributes_to_records(attributes: &TextMap) -> (r: Vec<AttributeRecord>)
    ensures
        text_map::ascending(record_pairs(r@)),
        text_map::map_of(record_pairs(r@)) == attributes@,
{
    let entries = attributes.entries();
    let mut out: Vec<AttributeRecord> = Vec::new();
    let mut i: usize = 0;
    while i < entries.len()
        invariant
            i <= entries@.len(),
            record_pairs(out@) == text_map::pairs_of(entries@).take(i as int),
        decreases entries@.len() - i,
    {
        let ghost before = record_pairs(out@);
        out.push(AttributeRecord { key: entries[i].0.clone(), value: entries[i].1.clone() });
        proof {
            let pairs = text_map::pairs_of(entries@);
            assert(record_pairs(out@) =~= before.push(pairs[i as int]));
            assert(pairs.take(i + 1) =~= pairs.take(i as int).push(pairs[i as int]));
        }
        i += 1;
    }
    assert(record_pairs(out@) =~= text_map::pairs_of(entries@));
    out
}

/// The reverse, which is also where a list in any order becomes canonical: sorted by
/// key, and of two entries for one key the later one stays.
pub fn attributes_from_records(records: Vec<AttributeRecord>) -> (r: TextMap)
    ensures
        r@ == text_map::map_of(record_pairs(records@)),
{
    let mut out = TextMap::new();
    let ghost pairs = record_pairs(records@);
    let mut i: usize = 0;
    while i < records.len()
        invariant
            i <= records@.len(),
            pairs == record_pairs(records@),
            out@ == text_map::map_of(pairs.take(i as int)),
        decreases records@.len() - i,
    {
        proof {
            assert(pairs.take(i + 1).drop_last() =~= pairs.take(i as int));
            assert(pairs.take(i + 1).last() == pairs[i as int]);
        }
        out.insert(records[i].key.clone(), records[i].value.clone());
        i += 1;
    }
    assert(pairs.take(pairs.len() as int) =~= pairs);
    out
}

/// A collection length as a `u32`, saturating.
pub fn count_to_u32(count: usize) -> (r: u32)
    ensures
        r == if count > u32::MAX {
            u32::MAX as int
        } else {
            count as int
        },
{
    if count > u32::MAX as usize {
        u32::MAX
    } else {
        count as u32
    }
}

/// No two client errors collapse into one: what is restated is the variant and its
/// payload.
pub proof fn client_errors_stay_apart(a: ClientError, b: ClientError, error: FfiError)
    requires
        error.restates_client(a),
        error.restates_client(b),
    ensures
        a == b,
{
}

/// The two routes for a domain error agree: by way of the client's error of the same
/// name, or directly.
pub proof fn core_and_client_errors_agree(
    core: CoreError,
    client: ClientError,
    a: FfiError,
    b: FfiError,
)
    requires
        match core {
            CoreError::InvalidUrn(m) => client == ClientError::InvalidUrn(m),
            CoreError::InvalidRule(m) => client == ClientError::InvalidRule(m),
            CoreError::InvalidTimeRange(m) => client == ClientError::InvalidTimeRange(m),
            CoreError::UnknownMetric(m) => client == ClientError::UnknownMetric(m),
            CoreError::RuleNotFound(m) => client == ClientError::RuleNotFound(m),
            CoreError::Backend(m) => client == ClientError::Backend(m),
            CoreError::Unauthorized => client == ClientError::Unauthorized,
            CoreError::Unreachable(m) => client == ClientError::Unreachable(m),
        },
        a.restates_core(core),
        b.restates_client(client),
    ensures
        a.prefix_text() == b.prefix_text(),
        a.message_text() == b.message_text(),
{
}

/// An instant on a whole millisecond, outside leap seconds, is recovered from its
/// milliseconds.
pub proof fn millis_recover_the_instant(at: Timestamp, back: Timestamp)
    requires
        on_a_millisecond(at),
        falls_on(back, millis_of(at)),
    ensures
        is_millis(millis_of(at)),
        back == at,
{
    time::timestamp_is_its_fields(at, back);
    time::timestamp_is_its_fields(back, at);
}

/// An instant that may be missing is recovered too: never and the epoch stay apart.
pub proof fn optional_millis_recover_the_instant(at: Option<Timestamp>, back: Option<Timestamp>)
    requires
        optionally_on_a_millisecond(at),
        optionally_falls_on(back, optional_millis_of(at)),
    ensures
        optional_millis_of(at) matches Some(millis) ==> is_millis(millis),
        back == at,
{
    if at is Some {
        millis_recover_the_instant(at->0, back->0);
    }
}

/// Whether a span lasts so many whole seconds.
pub open spec fn lasts(span: TimeDelta, seconds: i64) -> bool {
    &&& span.in_balance()
    &&& span.total() == seconds * time::NANOS_PER_SEC
    &&& seconds_of(span) == seconds
}

/// Whether a span is one of whole seconds that a record can hold.
pub open spec fn in_whole_seconds(span: TimeDelta) -> bool {
    &&& span.in_balance()
    &&& span.total() % (time::NANOS_PER_SEC as int) == 0
    &&& -time::max_total() <= span.total() <= time::max_total()
}

/// A span of whole seconds is recovered from its seconds.
pub proof fn seconds_recover_the_span(span: TimeDelta, back: TimeDelta)
    requires
        in_whole_seconds(span),
        lasts(back, seconds_of(span)),
    ensures
        is_seconds(seconds_of(span)),
        back == span,
{
    time::delta_is_its_total(span, back);
}

/// Records of one map are the same list, whatever order they came from: what is
/// rendered does not wobble between polls.
pub proof fn attribute_records_are_canonical(a: Seq<AttributeRecord>, b: Seq<AttributeRecord>)
    requires
        text_map::ascending(record_pairs(a)),
        text_map::ascending(record_pairs(b)),
        text_map::map_of(record_pairs(a)) == text_map::map_of(record_pairs(b)),
    ensures
        record_pairs(a) == record_pairs(b),
{
    text_map::ascending_is_canonical(record_pairs(a), record_pairs(b));
}

/// A client error keeps its kind and its message across the boundary. The one without
/// a message gets the sentence it is shown as.
pub proof fn client_errors_keep_their_kind(error: ClientError, crossed: FfiError)
    requires
        crossed.restates_client(error),
    ensures
        crossed is InvalidTuning <==> error is InvalidTuning,
        crossed is InvalidConfig <==> error is InvalidConfig,
        crossed is InvalidRule <==> error is InvalidRule,
        crossed is InvalidUrn <==> error is InvalidUrn,
        crossed is InvalidTimeRange <==> error is InvalidTimeRange,
        crossed is UnknownMetric <==> error is UnknownMetric,
        crossed is RuleNotFound <==> error is RuleNotFound,
        crossed is UnknownHost <==> error is UnknownHost,
        crossed is Backend <==> error is Backend,
        crossed is Unauthorized <==> error is Unauthorized,
        crossed is Unreachable <==> error is Unreachable,
        !(crossed is Internal) && !(crossed is NotInitialized),
        match error {
            ClientError::InvalidTuning(m)
            | ClientError::InvalidConfig(m)
            | ClientError::InvalidRule(m)
            | ClientError::InvalidUrn(m)
            | ClientError::InvalidTimeRange(m)
            | ClientError::UnknownMetric(m)
            | ClientError::RuleNotFound(m)
            | ClientError::UnknownHost(m)
            | ClientError::Backend(m)
            | ClientError::Unreachable(m) => crossed.message_text() == m@,
            ClientError::Unauthorized => crossed.message_text()
                == "not authorised for the telemetry backend"@,
        },
{
}

/// A domain error reads the same on either side of the boundary: its own sentence is
/// what its kind and its message say over there.
pub proof fn domain_errors_read_the_same(error: CoreError, crossed: FfiError)
    requires
        crossed.restates_core(error),
    ensures
        crossed.prefix_text() + crossed.message_text() == error.message(),
        crossed is InvalidUrn <==> error is InvalidUrn,
        crossed is InvalidRule <==> error is InvalidRule,
        crossed is InvalidTimeRange <==> error is InvalidTimeRange,
        crossed is UnknownMetric <==> error is UnknownMetric,
        crossed is RuleNotFound <==> error is RuleNotFound,
        crossed is Backend <==> error is Backend,
        crossed is Unauthorized <==> error is Unauthorized,
        crossed is Unreachable <==> error is Unreachable,
{
    reveal_strlit("");
    assert(crossed.prefix_text() + crossed.message_text() =~= error.message());
}

/// Each kind of error is introduced by its own words.
pub proof fn errors_are_introduced_by_their_kind(error: FfiError)
    ensures
        error is InvalidTuning ==> error.prefix_text() == "invalid poll tuning: "@,
        error is InvalidConfig ==> error.prefix_text() == "invalid client configuration: "@,
        error is InvalidRule ==> error.prefix_text() == "invalid alert rule: "@,
        error is InvalidUrn ==> error.prefix_text() == "invalid URN: "@,
        error is InvalidTimeRange ==> error.prefix_text() == "invalid time range: "@,
        error is UnknownMetric ==> error.prefix_text() == "unknown metric: "@,
        error is RuleNotFound ==> error.prefix_text() == "no such alert rule: "@,
        error is UnknownHost ==> error.prefix_text() == "unknown host: "@,
        error is Backend ==> error.prefix_text() == "telemetry backend error: "@,
        error is Unauthorized ==> error.prefix_text() == ""@,
        error is Unreachable ==> error.prefix_text() == "telemetry backend is unreachable: "@,
        error is NotInitialized ==> error.prefix_text() == "not initialised: "@,
        error is Internal ==> error.prefix_text() == "internal error: "@,
{
}

/// The message of an error is the one it carries, whatever its kind.
pub proof fn errors_carry_their_message(message: String)
    ensures
        (FfiError::InvalidTuning { message }).message_text() == message@,
        (FfiError::InvalidConfig { message }).message_text() == message@,
        (FfiError::InvalidRule { message }).message_text() == message@,
        (FfiError::InvalidUrn { message }).message_text() == message@,
        (FfiError::InvalidTimeRange { message }).message_text() == message@,
        (FfiError::UnknownMetric { message }).message_text() == message@,
        (FfiError::RuleNotFound { message }).message_text() == message@,
        (FfiError::UnknownHost { message }).message_text() == message@,
        (FfiError::Backend { message }).message_text() == message@,
        (FfiError::Unauthorized { message }).message_text() == message@,
        (FfiError::Unreachable { message }).message_text() == message@,
        (FfiError::NotInitialized { message }).message_text() == message@,
        (FfiError::Internal { message }).message_text() == message@,
{
}

/// The milliseconds of an instant are the whole ones up to it: it lies less than one
/// millisecond after them.
pub proof fn millis_are_the_whole_ones(at: Timestamp)
    requires
        at.on_calendar(),
    ensures
        millis_of(at) * 1_000_000 <= at.secs() * 1_000_000_000 + at.nanos() < (millis_of(at) + 1)
            * 1_000_000,
        optional_millis_of(Some(at)) == Some(millis_of(at)),
        optional_millis_of(None) is None,
{
    time::timestamp_is_its_fields(at, at);
}

/// A later instant never has fewer milliseconds.
pub proof fn millis_follow_their_instants(a: Timestamp, b: Timestamp)
    requires
        a.on_calendar(),
        b.on_calendar(),
        a.total() <= b.total(),
    ensures
        millis_of(a) <= millis_of(b),
        b.total() - a.total() == 1_000_000 ==> millis_of(b) == millis_of(a) + 1,
{
    time::timestamp_is_its_fields(a, a);
    time::timestamp_is_its_fields(b, b);
}

/// An instant that was read from milliseconds lies exactly on them, and outside leap
/// seconds. Milliseconds are read where the calendar reaches and nowhere else; others
/// are told as they came.
pub proof fn instants_lie_on_their_millis(at: Timestamp, millis: i64, error: FfiError)
    ensures
        falls_on(at, millis) ==> at.secs() * 1_000_000_000 + at.nanos() == millis * 1_000_000
            && at.nanos() < 1_000_000_000,
        optionally_falls_on(Some(at), Some(millis)) <==> falls_on(at, millis),
        !optionally_falls_on(None, Some(millis)),
        !optionally_falls_on(Some(at), None),
        optionally_falls_on(None, None),
        is_millis(millis) <==> -8_334_601_228_800_000 <= millis <= 8_210_266_876_799_999,
        is_millis_error(error, millis) ==> error is Internal && error.message_text()
            == text::decimal(millis as int) + " ms since the epoch is not a representable instant"@,
{
}

/// The seconds of a span are the whole ones, cut towards zero.
pub proof fn seconds_are_the_whole_ones(span: TimeDelta)
    requires
        -time::max_total() <= span.total() <= time::max_total(),
    ensures
        span.total() >= 0 ==> 0 <= span.total() - seconds_of(span) * 1_000_000_000 < 1_000_000_000,
        span.total() <= 0 ==> 0 <= seconds_of(span) * 1_000_000_000 - span.total() < 1_000_000_000,
{
    time::truncation_is_towards_zero(span.total(), 1_000_000_000);
}

/// A span that was read from seconds lasts exactly so long. Seconds are read where their
/// milliseconds can be counted and nowhere else; others are told as they came.
pub proof fn spans_last_their_seconds(span: TimeDelta, seconds: i64, error: FfiError)
    ensures
        lasts(span, seconds) ==> span.total() == seconds * 1_000_000_000,
        is_seconds(seconds) <==> -9_223_372_036_854_775 <= seconds <= 9_223_372_036_854_775,
        is_seconds_error(error, seconds) ==> error is Internal && error.message_text()
            == text::decimal(seconds as int) + " s is not a representable duration"@,
{
}

/// A text is read as the URN it is, or refused as one with the reason there is.
pub proof fn urns_are_read_or_refused(raw: Seq<char>, r: Result<Urn, FfiError>)
    requires
        reads_urn(raw, r),
    ensures
        r is Ok <==> urn::parsed_urn(raw) is Ok,
        r is Ok ==> r->Ok_0@ == urn::parsed_urn(raw)->Ok_0,
        r is Err ==> r->Err_0 is InvalidUrn && r->Err_0.message_text() == urn::parsed_urn(
            raw,
        )->Err_0,
{
}

/// A URN is rendered as its parts with two colons between each.
pub proof fn urns_are_rendered_whole(text: Seq<char>, urn: UrnView)
    requires
        renders_urn(text, urn),
    ensures
        text == urn.prefix + "::"@ + urn.environment + "::"@ + urn.service + "::"@ + urn.model
            + "::"@ + crate::ident::uuid_text(urn.id),
        urn.rereads() ==> urn::parsed_urn(text) == Ok::<UrnView, Seq<char>>(urn),
{
}

/// Attribute records are pairs of a key and its value, one for one.
pub proof fn attribute_records_are_pairs(records: Seq<AttributeRecord>)
    ensures
        record_pairs(records).len() == records.len(),
        forall|i: int|
            0 <= i < records.len() ==> #[trigger] record_pairs(records)[i] == (
                records[i].key@,
                records[i].value@,
            ),
{
}

} // verus!
