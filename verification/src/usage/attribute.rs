//! The attribute allowlist, and the vocabulary it is built from.
//!
//! Usage spans go to a backend the operator does not control, so the attributes
//! worth having are exactly the ones that must not be sent. The allowlist is not a
//! list to check against: [`AttributeValue`] has no variant that accepts arbitrary
//! text. Strings arrive either as `&'static str` from an enum's `as_str`, or as a
//! [`Version`], which holds digits and dots and nothing else.

use crate::ident::Uuid;
use crate::text;
use vstd::prelude::*;

verus! {

/// Whether a character is an ASCII digit.
pub open spec fn is_digit(c: char) -> bool {
    '0' <= c && c <= '9'
}

/// Whether `s` can be one component of a version: one to six digits.
pub open spec fn is_component(s: Seq<char>) -> bool {
    1 <= s.len() <= 6 && forall|i: int| 0 <= i < s.len() ==> is_digit(#[trigger] s[i])
}

/// Whether every part can be a component of a version.
pub open spec fn all_components(parts: Seq<Seq<char>>) -> bool {
    forall|i: int| 0 <= i < parts.len() ==> is_component(#[trigger] parts[i])
}

/// The first `keep` parts, or all where there are fewer.
pub open spec fn first_parts(parts: Seq<Seq<char>>, keep: int) -> Seq<Seq<char>> {
    if keep <= parts.len() {
        parts.take(keep)
    } else {
        parts
    }
}

/// What a raw version comes to: its first `keep` components, or nothing where any
/// of its components is not one.
pub open spec fn version_of(raw: Seq<char>, keep: int) -> Option<Seq<char>> {
    let parts = text::fields(raw, '.');
    if all_components(parts) {
        Some(text::joined(first_parts(parts, keep), '.'))
    } else {
        None
    }
}

/// A version number, narrowed to the one shape that cannot carry anything
/// private.
#[derive(Debug, PartialEq, Eq, PartialOrd, Ord)]
pub struct Version(String);

impl View for Version {
    type V = Seq<char>;

    closed spec fn view(&self) -> Seq<char> {
        self.0@
    }
}

fn can_be_component(s: &str) -> (r: bool)
    ensures
        r == is_component(s@),
{
    let chars = text::chars_of(s);
    if chars.len() == 0 || chars.len() > 6 {
        return false;
    }
    let mut i: usize = 0;
    while i < chars.len()
        invariant
            i <= chars@.len(),
            chars@ == s@,
            forall|k: int| 0 <= k < i ==> is_digit(#[trigger] s@[k]),
        decreases chars@.len() - i,
    {
        if !('0' <= chars[i] && chars[i] <= '9') {
            assert(!is_digit(s@[i as int]));
            return false;
        }
        i += 1;
    }
    true
}

impl Version {
    #[verifier::type_invariant]
    pub closed spec fn numeric(self) -> bool {
        all_components(text::fields(self.0@, '.'))
    }

    /// Up to three dotted numeric components, for an application version. Anything
    /// else is refused rather than sanitised, but a fourth component is dropped.
    pub fn app(raw: &str) -> (r: Option<Version>)
        ensures
            match version_of(raw@, 3) {
                Some(kept) => r matches Some(version) && version@ == kept,
                None => r is None,
            },
    {
        Version::parse(raw, 3)
    }

    /// Major and minor only, for an operating system version. A patch level is
    /// dropped rather than rejected.
    pub fn os(raw: &str) -> (r: Option<Version>)
        ensures
            match version_of(raw@, 2) {
                Some(kept) => r matches Some(version) && version@ == kept,
                None => r is None,
            },
    {
        Version::parse(raw, 2)
    }

    fn parse(raw: &str, keep: usize) -> (r: Option<Version>)
        requires
            keep > 0,
        ensures
            match version_of(raw@, keep as int) {
                Some(kept) => r matches Some(version) && version@ == kept,
                None => r is None,
            },
    {
        let parts = text::split(raw, '.');
        let ghost fields = text::fields(raw@, '.');
        let mut i: usize = 0;
        while i < parts.len()
            invariant
                i <= parts@.len(),
                fields == text::fields(raw@, '.'),
                text::views(parts@) == fields,
                forall|k: int| 0 <= k < i ==> is_component(#[trigger] fields[k]),
            decreases parts@.len() - i,
        {
            assert(fields[i as int] == parts@[i as int]@);
            if !can_be_component(parts[i].as_str()) {
                return None;
            }
            i += 1;
        }
        proof {
            assert(fields.len() == parts@.len());
            text::fields_are_some(raw@, '.');
            text::fields_are_plain(raw@, '.');
            lemma_kept_parts(fields, keep as int);
        }
        Some(Version(text::join_first(&parts, keep, '.')))
    }

    /// The version as a string of digits and dots.
    pub fn as_str(&self) -> (r: &str)
        ensures
            r@ == self@,
            all_components(text::fields(r@, '.')),
    {
        proof {
            use_type_invariant(self);
        }
        self.0.as_str()
    }
}

impl Clone for Version {
    fn clone(&self) -> (r: Version)
        ensures
            r == *self,
    {
        proof {
            use_type_invariant(self);
        }
        Version(self.0.clone())
    }
}

proof fn lemma_kept_parts(parts: Seq<Seq<char>>, keep: int)
    requires
        parts.len() > 0,
        keep > 0,
        all_components(parts),
        forall|i: int| 0 <= i < parts.len() ==> !(#[trigger] parts[i]).contains('.'),
    ensures
        text::fields(text::joined(first_parts(parts, keep), '.'), '.') == first_parts(parts, keep),
        all_components(first_parts(parts, keep)),
{
    let kept = first_parts(parts, keep);
    assert forall|i: int| 0 <= i < kept.len() implies !(#[trigger] kept[i]).contains('.')
        && is_component(kept[i]) by {
        assert(kept[i] == parts[i]);
    }
    text::joined_fields(kept, '.');
}

/// What a version keeps reads as the same version again.
pub proof fn versions_are_stable(raw: Seq<char>, keep: int)
    requires
        keep > 0,
        version_of(raw, keep) is Some,
    ensures
        version_of(version_of(raw, keep)->0, keep) == version_of(raw, keep),
{
    let parts = text::fields(raw, '.');
    text::fields_are_some(raw, '.');
    text::fields_are_plain(raw, '.');
    lemma_kept_parts(parts, keep);
    let kept = first_parts(parts, keep);
    assert(first_parts(kept, keep) =~= kept);
}

/// A string whose parts between dots are all components of a version holds nothing
/// but digits and dots: no host name, no URL and no UUID passes for a version.
pub proof fn versions_hold_digits_and_dots(s: Seq<char>, i: int)
    requires
        all_components(text::fields(s, '.')),
        0 <= i < s.len(),
    ensures
        is_digit(s[i]) || s[i] == '.',
    decreases s.len(),
{
    let front = s.drop_last();
    let before = text::fields(front, '.');
    let parts = text::fields(s, '.');
    text::fields_are_some(front, '.');
    if s.last() == '.' {
        assert(parts.last() == Seq::<char>::empty());
        assert(is_component(parts[parts.len() - 1]));
    } else {
        assert(parts[parts.len() - 1] == before.last().push(s.last()));
        assert(is_component(parts[parts.len() - 1]));
        assert(parts[parts.len() - 1][before.last().len() as int] == s.last());
        if i < front.len() {
            if before.last().len() > 0 {
                assert forall|k: int| 0 <= k < before.len() implies is_component(
                    #[trigger] before[k],
                ) by {
                    if k < before.len() - 1 {
                        assert(parts[k] == before[k]);
                    } else {
                        let last = parts[parts.len() - 1];
                        assert forall|m: int| 0 <= m < before[k].len() implies is_digit(
                            #[trigger] before[k][m],
                        ) by {
                            assert(last[m] == before[k][m]);
                        }
                    }
                }
                versions_hold_digits_and_dots(front, i);
            } else {
                assert forall|k: int| 0 <= k < before.len() - 1 implies is_component(
                    #[trigger] before[k],
                ) by {
                    assert(parts[k] == before[k]);
                }
                lemma_digits_before_an_empty_part(front, i);
            }
        }
    }
}

/// The same of a string that ends in a dot, whose last part is empty.
proof fn lemma_digits_before_an_empty_part(s: Seq<char>, i: int)
    requires
        text::fields(s, '.').last().len() == 0,
        forall|k: int|
            0 <= k < text::fields(s, '.').len() - 1 ==> is_component(
                #[trigger] text::fields(s, '.')[k],
            ),
        0 <= i < s.len(),
    ensures
        is_digit(s[i]) || s[i] == '.',
    decreases s.len(),
{
    let front = s.drop_last();
    let before = text::fields(front, '.');
    text::fields_are_some(front, '.');
    let parts = text::fields(s, '.');
    if s.last() != '.' {
        assert(parts.last().len() > 0);
    }
    assert(parts == before.push(Seq::empty()));
    assert forall|k: int| 0 <= k < before.len() implies is_component(#[trigger] before[k]) by {
        assert(parts[k] == before[k]);
    }
    if i < front.len() {
        versions_hold_digits_and_dots(front, i);
    }
}

/// Which kind of machine the report came from.
#[derive(Debug, Clone, Copy, PartialEq, Eq, Structural)]
pub enum Platform {
    Ios,
    Macos,
    Linux,
    Windows,
}

impl Platform {
    /// The word for it, as characters.
    pub open spec fn as_text(self) -> Seq<char> {
        match self {
            Platform::Ios => "ios"@,
            Platform::Macos => "macos"@,
            Platform::Linux => "linux"@,
            Platform::Windows => "windows"@,
        }
    }

    /// The word for it.
    pub fn as_str(self) -> (r: &'static str)
        ensures
            r@ == self.as_text(),
    {
        match self {
            Platform::Ios => "ios",
            Platform::Macos => "macos",
            Platform::Linux => "linux",
            Platform::Windows => "windows",
        }
    }
}

/// Coarse device shape: an exact model is a narrower cohort than anything one would
/// act on.
#[derive(Debug, Clone, Copy, PartialEq, Eq, Structural)]
pub enum DeviceClass {
    Phone,
    Tablet,
    Mac,
    Server,
}

impl DeviceClass {
    /// The word for it, as characters.
    pub open spec fn as_text(self) -> Seq<char> {
        match self {
            DeviceClass::Phone => "phone"@,
            DeviceClass::Tablet => "tablet"@,
            DeviceClass::Mac => "mac"@,
            DeviceClass::Server => "server"@,
        }
    }

    /// The word for it.
    pub fn as_str(self) -> (r: &'static str)
        ensures
            r@ == self.as_text(),
    {
        match self {
            DeviceClass::Phone => "phone",
            DeviceClass::Tablet => "tablet",
            DeviceClass::Mac => "mac",
            DeviceClass::Server => "server",
        }
    }
}

/// Which backend the operator pointed us at: the kind, never the URL.
#[derive(Debug, Clone, Copy, PartialEq, Eq, Structural)]
pub enum BackendKind {
    Otlp,
    Signoz,
    Clickstack,
    Honeycomb,
}

impl BackendKind {
    /// The word for it, as characters.
    pub open spec fn as_text(self) -> Seq<char> {
        match self {
            BackendKind::Otlp => "otlp"@,
            BackendKind::Signoz => "signoz"@,
            BackendKind::Clickstack => "clickstack"@,
            BackendKind::Honeycomb => "honeycomb"@,
        }
    }

    /// The word for it.
    pub fn as_str(self) -> (r: &'static str)
        ensures
            r@ == self.as_text(),
    {
        match self {
            BackendKind::Otlp => "otlp",
            BackendKind::Signoz => "signoz",
            BackendKind::Clickstack => "clickstack",
            BackendKind::Honeycomb => "honeycomb",
        }
    }
}

/// How an operation ended. The kind of failure, never its message.
#[derive(Debug, Clone, Copy, PartialEq, Eq, Structural)]
pub enum Outcome {
    Success,
    /// Some hosts or series answered and some did not.
    Partial,
    Unreachable,
    Unauthorized,
    BackendError,
    DecodeError,
    /// The operation was abandoned before it finished.
    Cancelled,
}

impl Outcome {
    /// The word for it, as characters.
    pub open spec fn as_text(self) -> Seq<char> {
        match self {
            Outcome::Success => "ok"@,
            Outcome::Partial => "partial"@,
            Outcome::Unreachable => "unreachable"@,
            Outcome::Unauthorized => "unauthorized"@,
            Outcome::BackendError => "backend_error"@,
            Outcome::DecodeError => "decode_error"@,
            Outcome::Cancelled => "cancelled"@,
        }
    }

    /// The word for it.
    pub fn as_str(self) -> (r: &'static str)
        ensures
            r@ == self.as_text(),
    {
        match self {
            Outcome::Success => "ok",
            Outcome::Partial => "partial",
            Outcome::Unreachable => "unreachable",
            Outcome::Unauthorized => "unauthorized",
            Outcome::BackendError => "backend_error",
            Outcome::DecodeError => "decode_error",
            Outcome::Cancelled => "cancelled",
        }
    }

    /// Whether this outcome counts as an error.
    pub open spec fn counts_as_error(self) -> bool {
        self != Outcome::Success && self != Outcome::Cancelled
    }

    /// Whether this outcome should mark its span as an error.
    pub fn is_error(self) -> (r: bool)
        ensures
            r == self.counts_as_error(),
    {
        !matches!(self, Outcome::Success | Outcome::Cancelled)
    }
}

/// An HTTP status reduced to its class: `2` for 2xx, `4` for 4xx, and so on.
#[derive(Debug, Clone, Copy, PartialEq, Eq, Structural)]
pub struct HttpStatusClass(u8);

impl View for HttpStatusClass {
    type V = int;

    closed spec fn view(&self) -> int {
        self.0 as int
    }
}

impl HttpStatusClass {
    #[verifier::type_invariant]
    pub closed spec fn is_class(self) -> bool {
        1 <= self.0 <= 5
    }

    /// The class of a status, or nothing for one outside 100 to 599, which is not
    /// a status.
    pub fn of(status: u16) -> (r: Option<HttpStatusClass>)
        ensures
            r is Some <==> 100 <= status <= 599,
            r matches Some(class) ==> class@ == status / 100,
    {
        if 100 <= status && status <= 599 {
            Some(HttpStatusClass((status / 100) as u8))
        } else {
            None
        }
    }

    /// The first digit of the status.
    pub fn digit(self) -> (r: u8)
        ensures
            r == self@,
            1 <= r <= 5,
    {
        proof {
            use_type_invariant(&self);
        }
        self.0
    }
}

/// Every key a report may carry. Adding one is the visible act that adding an
/// attribute ought to be.
#[derive(Debug, Clone, Copy, PartialEq, Eq, PartialOrd, Ord, Structural)]
pub enum AttributeKey {
    ServiceName,
    ServiceVersion,
    ServiceInstanceId,
    AppBuild,
    Platform,
    OsVersion,
    DeviceClass,
    BackendKind,
    Outcome,
    HostsCount,
    RulesCount,
    AlertsFiring,
    RequestsPlanned,
    SeriesReturned,
    HttpStatusClass,
}

impl AttributeKey {
    /// The wire name, as characters.
    pub open spec fn name_text(self) -> Seq<char> {
        match self {
            AttributeKey::ServiceName => "service.name"@,
            AttributeKey::ServiceVersion => "service.version"@,
            AttributeKey::ServiceInstanceId => "service.instance.id"@,
            AttributeKey::AppBuild => "pessimal.app.build"@,
            AttributeKey::Platform => "pessimal.platform"@,
            AttributeKey::OsVersion => "pessimal.os.version"@,
            AttributeKey::DeviceClass => "pessimal.device.class"@,
            AttributeKey::BackendKind => "pessimal.backend.kind"@,
            AttributeKey::Outcome => "pessimal.outcome"@,
            AttributeKey::HostsCount => "pessimal.hosts.count"@,
            AttributeKey::RulesCount => "pessimal.rules.count"@,
            AttributeKey::AlertsFiring => "pessimal.alerts.firing"@,
            AttributeKey::RequestsPlanned => "pessimal.requests.planned"@,
            AttributeKey::SeriesReturned => "pessimal.series.returned"@,
            AttributeKey::HttpStatusClass => "pessimal.http.status_class"@,
        }
    }

    /// The wire name: OpenTelemetry's own `service.*` keys where they exist, and
    /// `pessimal.*` for the rest.
    pub fn otel_name(self) -> (r: &'static str)
        ensures
            r@ == self.name_text(),
    {
        match self {
            AttributeKey::ServiceName => "service.name",
            AttributeKey::ServiceVersion => "service.version",
            AttributeKey::ServiceInstanceId => "service.instance.id",
            AttributeKey::AppBuild => "pessimal.app.build",
            AttributeKey::Platform => "pessimal.platform",
            AttributeKey::OsVersion => "pessimal.os.version",
            AttributeKey::DeviceClass => "pessimal.device.class",
            AttributeKey::BackendKind => "pessimal.backend.kind",
            AttributeKey::Outcome => "pessimal.outcome",
            AttributeKey::HostsCount => "pessimal.hosts.count",
            AttributeKey::RulesCount => "pessimal.rules.count",
            AttributeKey::AlertsFiring => "pessimal.alerts.firing",
            AttributeKey::RequestsPlanned => "pessimal.requests.planned",
            AttributeKey::SeriesReturned => "pessimal.series.returned",
            AttributeKey::HttpStatusClass => "pessimal.http.status_class",
        }
    }

    /// Every key.
    pub const ALL: [AttributeKey; 15] = [
        AttributeKey::ServiceName,
        AttributeKey::ServiceVersion,
        AttributeKey::ServiceInstanceId,
        AttributeKey::AppBuild,
        AttributeKey::Platform,
        AttributeKey::OsVersion,
        AttributeKey::DeviceClass,
        AttributeKey::BackendKind,
        AttributeKey::Outcome,
        AttributeKey::HostsCount,
        AttributeKey::RulesCount,
        AttributeKey::AlertsFiring,
        AttributeKey::RequestsPlanned,
        AttributeKey::SeriesReturned,
        AttributeKey::HttpStatusClass,
    ];
}

/// Every key is listed.
pub proof fn all_keys_are_listed(key: AttributeKey)
    ensures
        AttributeKey::ALL@.contains(key),
{
    assert(AttributeKey::ALL@[0] == AttributeKey::ServiceName);
}

/// No two keys share a wire name.
pub proof fn attribute_names_are_unique(a: AttributeKey, b: AttributeKey)
    requires
        a.name_text() == b.name_text(),
    ensures
        a == b,
{
    reveal_strlit("service.name");
    reveal_strlit("service.version");
    reveal_strlit("service.instance.id");
    reveal_strlit("pessimal.app.build");
    reveal_strlit("pessimal.platform");
    reveal_strlit("pessimal.os.version");
    reveal_strlit("pessimal.device.class");
    reveal_strlit("pessimal.backend.kind");
    reveal_strlit("pessimal.outcome");
    reveal_strlit("pessimal.hosts.count");
    reveal_strlit("pessimal.rules.count");
    reveal_strlit("pessimal.alerts.firing");
    reveal_strlit("pessimal.requests.planned");
    reveal_strlit("pessimal.series.returned");
    reveal_strlit("pessimal.http.status_class");
    assert("service.name"@.len() == 12);
    assert("service.version"@.len() == 15);
    assert("service.instance.id"@.len() == 19);
    assert("pessimal.app.build"@.len() == 18);
    assert("pessimal.platform"@.len() == 17);
    assert("pessimal.os.version"@.len() == 19);
    assert("pessimal.device.class"@.len() == 21);
    assert("pessimal.backend.kind"@.len() == 21);
    assert("pessimal.outcome"@.len() == 16);
    assert("pessimal.hosts.count"@.len() == 20);
    assert("pessimal.rules.count"@.len() == 20);
    assert("pessimal.alerts.firing"@.len() == 22);
    assert("pessimal.requests.planned"@.len() == 25);
    assert("pessimal.series.returned"@.len() == 24);
    assert("pessimal.http.status_class"@.len() == 26);
    assert("service.instance.id"@[0] == 's' && "pessimal.os.version"@[0] == 'p');
    assert("pessimal.hosts.count"@[9] == 'h' && "pessimal.rules.count"@[9] == 'r');
    assert("pessimal.device.class"@[9] == 'd' && "pessimal.backend.kind"@[9] == 'b');
}

/// Whether a key is one that OpenTelemetry defines for a service.
pub open spec fn is_service_key(key: AttributeKey) -> bool {
    key == AttributeKey::ServiceName || key == AttributeKey::ServiceVersion || key
        == AttributeKey::ServiceInstanceId
}

/// OpenTelemetry's own keys stand under `service.`, and every other key, and no other,
/// under `pessimal.`.
pub proof fn attribute_names_are_namespaced(key: AttributeKey)
    ensures
        "service."@.is_prefix_of(key.name_text()) <==> is_service_key(key),
        "pessimal."@.is_prefix_of(key.name_text()) <==> !is_service_key(key),
{
    reveal_strlit("service.");
    reveal_strlit("pessimal.");
    reveal_strlit("service.name");
    reveal_strlit("service.version");
    reveal_strlit("service.instance.id");
    reveal_strlit("pessimal.app.build");
    reveal_strlit("pessimal.platform");
    reveal_strlit("pessimal.os.version");
    reveal_strlit("pessimal.device.class");
    reveal_strlit("pessimal.backend.kind");
    reveal_strlit("pessimal.outcome");
    reveal_strlit("pessimal.hosts.count");
    reveal_strlit("pessimal.rules.count");
    reveal_strlit("pessimal.alerts.firing");
    reveal_strlit("pessimal.requests.planned");
    reveal_strlit("pessimal.series.returned");
    reveal_strlit("pessimal.http.status_class");
    let name = key.name_text();
    if is_service_key(key) {
        assert("service."@ =~= name.subrange(0, 8));
        assert("pessimal."@[0] == 'p' && name[0] == 's');
    } else {
        assert("pessimal."@ =~= name.subrange(0, 9));
        assert("service."@[0] == 's' && name[0] == 'p');
    }
}

/// What an attribute is allowed to hold. There is no variant for free text.
#[derive(Debug, Clone, PartialEq, Eq)]
pub enum AttributeValue {
    /// One of the words of this module.
    Enumerated(&'static str),
    Count(u32),
    Version(Version),
    /// Only ever the session instance id.
    Identifier(Uuid),
}

/// One allowlisted key/value pair.
#[derive(Debug, Clone, PartialEq, Eq)]
pub struct Attribute {
    pub key: AttributeKey,
    pub value: AttributeValue,
}

/// What an attribute holds.
pub enum ValueView {
    Enumerated(Seq<char>),
    Count(u32),
    Version(Seq<char>),
    Identifier(Seq<u8>),
}

/// A key and what it holds.
pub struct AttributeView {
    pub key: AttributeKey,
    pub value: ValueView,
}

impl View for AttributeValue {
    type V = ValueView;

    open spec fn view(&self) -> ValueView {
        match self {
            AttributeValue::Enumerated(word) => ValueView::Enumerated(word@),
            AttributeValue::Count(count) => ValueView::Count(*count),
            AttributeValue::Version(version) => ValueView::Version(version@),
            AttributeValue::Identifier(id) => ValueView::Identifier(id.bytes@),
        }
    }
}

impl View for Attribute {
    type V = AttributeView;

    open spec fn view(&self) -> AttributeView {
        AttributeView { key: self.key, value: self.value@ }
    }
}

/// What some attributes hold.
pub open spec fn attribute_views(attributes: Seq<Attribute>) -> Seq<AttributeView> {
    Seq::new(attributes.len(), |i: int| attributes[i]@)
}

/// A word under a key.
pub open spec fn word(key: AttributeKey, text: Seq<char>) -> AttributeView {
    AttributeView { key, value: ValueView::Enumerated(text) }
}

/// A count under a key.
pub open spec fn counted(key: AttributeKey, count: u32) -> AttributeView {
    AttributeView { key, value: ValueView::Count(count) }
}

impl Attribute {
    /// A word under a key.
    pub fn enumerated(key: AttributeKey, value: &'static str) -> (r: Attribute)
        ensures
            r@ == word(key, value@),
    {
        Attribute { key, value: AttributeValue::Enumerated(value) }
    }

    /// A count under a key.
    pub fn count(key: AttributeKey, value: u32) -> (r: Attribute)
        ensures
            r@ == counted(key, value),
    {
        Attribute { key, value: AttributeValue::Count(value) }
    }

    /// A version under a key.
    pub fn version(key: AttributeKey, value: Version) -> (r: Attribute)
        ensures
            r@ == (AttributeView { key, value: ValueView::Version(value@) }),
    {
        Attribute { key, value: AttributeValue::Version(value) }
    }

    /// An identifier under a key.
    pub fn identifier(key: AttributeKey, value: Uuid) -> (r: Attribute)
        ensures
            r@ == (AttributeView { key, value: ValueView::Identifier(value.bytes@) }),
    {
        Attribute { key, value: AttributeValue::Identifier(value) }
    }
}

/// A raw version is kept exactly where every part between its dots is one to six
/// digits, and what is kept of it are its first parts, as they were.
pub proof fn versions_keep_their_first_parts(raw: Seq<char>, keep: int)
    requires
        keep > 0,
    ensures
        ({
            let parts = text::fields(raw, '.');
            &&& version_of(raw, keep) is Some <==> forall|i: int|
                0 <= i < parts.len() ==> 1 <= (#[trigger] parts[i]).len() <= 6 && forall|k: int|
                    0 <= k < parts[i].len() ==> '0' <= #[trigger] parts[i][k] <= '9'
            &&& version_of(raw, keep) is Some && parts.len() <= keep ==> version_of(raw, keep)
                == Some(raw)
            &&& version_of(raw, keep) is Some && parts.len() > keep ==> text::fields(
                version_of(raw, keep)->0,
                '.',
            ) == parts.take(keep)
        }),
{
    let parts = text::fields(raw, '.');
    text::fields_are_some(raw, '.');
    text::fields_are_plain(raw, '.');
    text::fields_join_back(raw, '.');
    if all_components(parts) {
        assert forall|i: int| 0 <= i < parts.len() implies 1 <= (#[trigger] parts[i]).len() <= 6
            && forall|k: int| 0 <= k < parts[i].len() ==> '0' <= #[trigger] parts[i][k] <= '9' by {
            assert(is_component(parts[i]));
            assert forall|k: int| 0 <= k < parts[i].len() implies '0' <= #[trigger] parts[i][k]
                <= '9' by {
                assert(is_digit(parts[i][k]));
            }
        }
    }
    if forall|i: int|
        0 <= i < parts.len() ==> 1 <= (#[trigger] parts[i]).len() <= 6 && forall|k: int|
            0 <= k < parts[i].len() ==> '0' <= #[trigger] parts[i][k] <= '9' {
        assert forall|i: int| 0 <= i < parts.len() implies is_component(#[trigger] parts[i]) by {
            assert forall|k: int| 0 <= k < parts[i].len() implies is_digit(
                #[trigger] parts[i][k],
            ) by {}
        }
    }
    if keep == parts.len() {
        assert(parts.take(keep) =~= parts);
    }
    if parts.len() > keep {
        let kept = parts.take(keep);
        assert forall|i: int| 0 <= i < kept.len() implies !(#[trigger] kept[i]).contains('.') by {
            assert(kept[i] == parts[i]);
        }
        text::joined_fields(kept, '.');
    }
}

/// Every platform, device class and backend has a word of its own.
pub proof fn allowed_words_are_their_own(
    platform: Platform,
    device: DeviceClass,
    backend: BackendKind,
)
    ensures
        platform.as_text() == "ios"@ <==> platform == Platform::Ios,
        platform.as_text() == "macos"@ <==> platform == Platform::Macos,
        platform.as_text() == "linux"@ <==> platform == Platform::Linux,
        platform.as_text() == "windows"@ <==> platform == Platform::Windows,
        device.as_text() == "phone"@ <==> device == DeviceClass::Phone,
        device.as_text() == "tablet"@ <==> device == DeviceClass::Tablet,
        device.as_text() == "mac"@ <==> device == DeviceClass::Mac,
        device.as_text() == "server"@ <==> device == DeviceClass::Server,
        backend.as_text() == "otlp"@ <==> backend == BackendKind::Otlp,
        backend.as_text() == "signoz"@ <==> backend == BackendKind::Signoz,
        backend.as_text() == "clickstack"@ <==> backend == BackendKind::Clickstack,
        backend.as_text() == "honeycomb"@ <==> backend == BackendKind::Honeycomb,
{
    reveal_strlit("ios");
    reveal_strlit("macos");
    reveal_strlit("linux");
    reveal_strlit("windows");
    reveal_strlit("phone");
    reveal_strlit("tablet");
    reveal_strlit("mac");
    reveal_strlit("server");
    reveal_strlit("otlp");
    reveal_strlit("signoz");
    reveal_strlit("clickstack");
    reveal_strlit("honeycomb");
    assert("ios"@.len() == 3 && "macos"@.len() == 5 && "linux"@.len() == 5 && "windows"@.len()
        == 7);
    assert("macos"@[0] == 'm' && "linux"@[0] == 'l');
    assert("phone"@.len() == 5 && "tablet"@.len() == 6 && "mac"@.len() == 3 && "server"@.len()
        == 6);
    assert("tablet"@[0] == 't' && "server"@[0] == 's');
    assert("otlp"@.len() == 4 && "signoz"@.len() == 6 && "clickstack"@.len() == 10
        && "honeycomb"@.len() == 9);
}

/// Every outcome has a word of its own, and all but two of them count as errors: going
/// well does not, and being called off does not.
pub proof fn outcomes_say_how_it_ended(outcome: Outcome)
    ensures
        outcome.as_text() == "ok"@ <==> outcome == Outcome::Success,
        outcome.as_text() == "partial"@ <==> outcome == Outcome::Partial,
        outcome.as_text() == "unreachable"@ <==> outcome == Outcome::Unreachable,
        outcome.as_text() == "unauthorized"@ <==> outcome == Outcome::Unauthorized,
        outcome.as_text() == "backend_error"@ <==> outcome == Outcome::BackendError,
        outcome.as_text() == "decode_error"@ <==> outcome == Outcome::DecodeError,
        outcome.as_text() == "cancelled"@ <==> outcome == Outcome::Cancelled,
        outcome.counts_as_error() <==> outcome.as_text() != "ok"@ && outcome.as_text()
            != "cancelled"@,
{
    reveal_strlit("ok");
    reveal_strlit("partial");
    reveal_strlit("unreachable");
    reveal_strlit("unauthorized");
    reveal_strlit("backend_error");
    reveal_strlit("decode_error");
    reveal_strlit("cancelled");
    assert("ok"@.len() == 2 && "partial"@.len() == 7 && "unreachable"@.len() == 11
        && "unauthorized"@.len() == 12 && "backend_error"@.len() == 13 && "decode_error"@.len()
        == 12 && "cancelled"@.len() == 9);
    assert("unauthorized"@[0] == 'u' && "decode_error"@[0] == 'd');
}

/// Every key has its own name on the wire.
pub proof fn attribute_names_are_their_own(key: AttributeKey)
    ensures
        key.name_text() == "service.name"@ <==> key == AttributeKey::ServiceName,
        key.name_text() == "service.version"@ <==> key == AttributeKey::ServiceVersion,
        key.name_text() == "service.instance.id"@ <==> key == AttributeKey::ServiceInstanceId,
        key.name_text() == "pessimal.app.build"@ <==> key == AttributeKey::AppBuild,
        key.name_text() == "pessimal.platform"@ <==> key == AttributeKey::Platform,
        key.name_text() == "pessimal.os.version"@ <==> key == AttributeKey::OsVersion,
        key.name_text() == "pessimal.device.class"@ <==> key == AttributeKey::DeviceClass,
        key.name_text() == "pessimal.backend.kind"@ <==> key == AttributeKey::BackendKind,
        key.name_text() == "pessimal.outcome"@ <==> key == AttributeKey::Outcome,
        key.name_text() == "pessimal.hosts.count"@ <==> key == AttributeKey::HostsCount,
        key.name_text() == "pessimal.rules.count"@ <==> key == AttributeKey::RulesCount,
        key.name_text() == "pessimal.alerts.firing"@ <==> key == AttributeKey::AlertsFiring,
        key.name_text() == "pessimal.requests.planned"@ <==> key == AttributeKey::RequestsPlanned,
        key.name_text() == "pessimal.series.returned"@ <==> key == AttributeKey::SeriesReturned,
        key.name_text() == "pessimal.http.status_class"@ <==> key == AttributeKey::HttpStatusClass,
{
    assert forall|other: AttributeKey| #[trigger] other.name_text() == key.name_text() implies other
        == key by {
        attribute_names_are_unique(other, key);
    }
    assert(AttributeKey::ServiceName.name_text() == "service.name"@);
    assert(AttributeKey::ServiceVersion.name_text() == "service.version"@);
    assert(AttributeKey::ServiceInstanceId.name_text() == "service.instance.id"@);
    assert(AttributeKey::AppBuild.name_text() == "pessimal.app.build"@);
    assert(AttributeKey::Platform.name_text() == "pessimal.platform"@);
    assert(AttributeKey::OsVersion.name_text() == "pessimal.os.version"@);
    assert(AttributeKey::DeviceClass.name_text() == "pessimal.device.class"@);
    assert(AttributeKey::BackendKind.name_text() == "pessimal.backend.kind"@);
    assert(AttributeKey::Outcome.name_text() == "pessimal.outcome"@);
    assert(AttributeKey::HostsCount.name_text() == "pessimal.hosts.count"@);
    assert(AttributeKey::RulesCount.name_text() == "pessimal.rules.count"@);
    assert(AttributeKey::AlertsFiring.name_text() == "pessimal.alerts.firing"@);
    assert(AttributeKey::RequestsPlanned.name_text() == "pessimal.requests.planned"@);
    assert(AttributeKey::SeriesReturned.name_text() == "pessimal.series.returned"@);
    assert(AttributeKey::HttpStatusClass.name_text() == "pessimal.http.status_class"@);
}

/// What is told of attributes is what they hold, one for one, in their order.
pub proof fn attributes_are_told_as_they_are(attributes: Seq<Attribute>)
    ensures
        attribute_views(attributes).len() == attributes.len(),
        forall|i: int|
            0 <= i < attributes.len() ==> {
                let told = #[trigger] attribute_views(attributes)[i];
                &&& told.key == attributes[i].key
                &&& match attributes[i].value {
                    AttributeValue::Enumerated(word) => told.value == ValueView::Enumerated(word@),
                    AttributeValue::Count(count) => told.value == ValueView::Count(count),
                    AttributeValue::Version(version) => told.value == ValueView::Version(version@),
                    AttributeValue::Identifier(id) => told.value == ValueView::Identifier(
                        id.bytes@,
                    ),
                }
            },
{
}

} // verus!
