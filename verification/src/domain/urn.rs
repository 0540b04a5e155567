//! Pessimal URNs: `prefix::environment::service::model::uuid`.

use crate::domain::error::CoreError;
use crate::ident;
use crate::ident::Uuid;
use crate::text;
use vstd::prelude::*;

verus! {

/// The default URN namespace prefix.
pub const DEFAULT_URN_PREFIX: &'static str = "pessimal";

const SEPARATOR: &'static str = "::";

/// Whether `::` stands at index `i` of `s`.
pub open spec fn separator_at(s: Seq<char>, i: int) -> bool {
    0 <= i && i + 1 < s.len() && s[i] == ':' && s[i + 1] == ':'
}

/// The first index from `from` on at which `::` stands, or the length of `s`
/// where it stands nowhere.
pub open spec fn next_separator(s: Seq<char>, from: int) -> int
    decreases s.len() - from,
{
    if from >= s.len() {
        s.len() as int
    } else if separator_at(s, from) {
        from
    } else {
        next_separator(s, from + 1)
    }
}

/// The parts of `s` between its separators, found from the left.
pub open spec fn segments(s: Seq<char>) -> Seq<Seq<char>>
    decreases s.len(),
{
    let i = next_separator(s, 0);
    if 0 <= i && i + 2 <= s.len() {
        seq![s.take(i)] + segments(s.skip(i + 2))
    } else {
        seq![s]
    }
}

/// Whether `s` can be a segment: not empty, and without a separator.
pub open spec fn is_segment(s: Seq<char>) -> bool {
    s.len() > 0 && forall|i: int| !#[trigger] separator_at(s, i)
}

/// Why a segment is refused.
pub open spec fn segment_message(s: Seq<char>) -> Seq<char> {
    "segment "@ + text::quoted(s) + " must be non-empty and free of `::`"@
}

/// A URN as its five parts.
pub struct UrnView {
    pub prefix: Seq<char>,
    pub environment: Seq<char>,
    pub service: Seq<char>,
    pub model: Seq<char>,
    pub id: Seq<u8>,
}

impl UrnView {
    /// Whether each of the four leading parts can be a segment.
    pub open spec fn valid(self) -> bool {
        is_segment(self.prefix) && is_segment(self.environment) && is_segment(self.service)
            && is_segment(self.model)
    }

    /// The first of the four leading parts that cannot be a segment.
    pub open spec fn first_invalid(self) -> Seq<char> {
        if !is_segment(self.prefix) {
            self.prefix
        } else if !is_segment(self.environment) {
            self.environment
        } else if !is_segment(self.service) {
            self.service
        } else {
            self.model
        }
    }

    /// Whether none of the four leading parts ends in a colon, which would run
    /// into the separator behind it.
    pub open spec fn rereads(self) -> bool {
        self.prefix.last() != ':' && self.environment.last() != ':' && self.service.last() != ':'
            && self.model.last() != ':'
    }

    /// The five parts, with `::` between them.
    pub open spec fn rendered(self) -> Seq<char> {
        self.prefix + "::"@ + self.environment + "::"@ + self.service + "::"@ + self.model + "::"@
            + ident::uuid_text(self.id)
    }
}

/// What reading a URN from a string answers: the five parts, or the message of
/// the error.
pub open spec fn parsed_urn(raw: Seq<char>) -> Result<UrnView, Seq<char>> {
    let parts = segments(raw);
    if parts.len() != 5 {
        Err(
            "expected 5 `::`-separated segments, got "@ + text::numeral(parts.len()),
        )
    } else {
        assembled(parts[0], parts[1], parts[2], parts[3], ident::parsed_uuid(parts[4]))
    }
}

/// What four parts and what the fifth was read as come to: a URN, or the message of the
/// error.
pub open spec fn assembled(
    prefix: Seq<char>,
    environment: Seq<char>,
    service: Seq<char>,
    model: Seq<char>,
    id: Result<Seq<u8>, Seq<char>>,
) -> Result<UrnView, Seq<char>> {
    match id {
        Err(why) => Err("trailing segment is not a UUID: "@ + why),
        Ok(id) => {
            let urn = UrnView { prefix, environment, service, model, id };
            if urn.valid() {
                Ok(urn)
            } else {
                Err(segment_message(urn.first_invalid()))
            }
        },
    }
}

/// A parsed Pessimal URN.
#[derive(Debug, PartialEq, Eq, Hash)]
pub struct Urn {
    prefix: String,
    environment: String,
    service: String,
    model: String,
    id: Uuid,
}

/// A URN as it is stored: nothing has checked its parts yet.
#[derive(Debug, Clone, PartialEq, Eq)]
pub struct UrnWire {
    pub prefix: String,
    pub environment: String,
    pub service: String,
    pub model: String,
    pub id: Uuid,
}

impl View for UrnWire {
    type V = UrnView;

    open spec fn view(&self) -> UrnView {
        UrnView {
            prefix: self.prefix@,
            environment: self.environment@,
            service: self.service@,
            model: self.model@,
            id: self.id.bytes@,
        }
    }
}

impl vstd::std_specs::convert::TryFromSpecImpl<UrnWire> for Urn {
    open spec fn obeys_try_from_spec() -> bool {
        false
    }

    open spec fn try_from_spec(wire: UrnWire) -> Result<Urn, CoreError> {
        arbitrary()
    }
}

impl TryFrom<UrnWire> for Urn {
    type Error = CoreError;

    /// Restores a stored URN, held to what [`Urn::with_prefix`] asks.
    fn try_from(wire: UrnWire) -> (r: Result<Urn, CoreError>)
        ensures
            r is Ok <==> wire@.valid(),
            r matches Ok(urn) ==> urn@ == wire@,
            r matches Err(e) ==> {
                &&& e matches CoreError::InvalidUrn(why)
                &&& why@ == segment_message(wire@.first_invalid())
            },
    {
        Urn::with_prefix(
            wire.prefix.as_str(),
            wire.environment.as_str(),
            wire.service.as_str(),
            wire.model.as_str(),
            wire.id,
        )
    }
}

impl View for Urn {
    type V = UrnView;

    closed spec fn view(&self) -> UrnView {
        UrnView {
            prefix: self.prefix@,
            environment: self.environment@,
            service: self.service@,
            model: self.model@,
            id: self.id.bytes@,
        }
    }
}

/// The index of the first separator from `from` on, or the length.
fn find_separator(chars: &Vec<char>, from: usize) -> (r: usize)
    requires
        from <= chars@.len(),
    ensures
        r == next_separator(chars@, from as int),
        from <= r <= chars@.len(),
        r < chars@.len() ==> separator_at(chars@, r as int),
        forall|i: int| from <= i < r ==> !#[trigger] separator_at(chars@, i),
{
    let mut i: usize = from;
    while i < chars.len()
        invariant
            from <= i <= chars@.len(),
            next_separator(chars@, from as int) == next_separator(chars@, i as int),
            forall|k: int| from <= k < i ==> !#[trigger] separator_at(chars@, k),
        decreases chars@.len() - i,
    {
        if chars[i] == ':' && chars.len() - i > 1 && chars[i + 1] == ':' {
            assert(separator_at(chars@, i as int));
            return i;
        }
        i += 1;
    }
    i
}

/// Whether a string can be a segment.
pub fn can_be_segment(s: &str) -> (r: bool)
    ensures
        r == is_segment(s@),
{
    let chars = text::chars_of(s);
    let i = find_separator(&chars, 0);
    proof {
        if i == chars@.len() {
            assert forall|k: int| !#[trigger] separator_at(s@, k) by {}
        } else {
            assert(separator_at(s@, i as int));
        }
    }
    chars.len() > 0 && i == chars.len()
}

/// The parts of a string between its separators.
fn split(s: &str) -> (r: Vec<String>)
    ensures
        r@.len() == segments(s@).len(),
        forall|i: int| 0 <= i < r@.len() ==> #[trigger] r@[i]@ == segments(s@)[i],
{
    let chars = text::chars_of(s);
    let mut out: Vec<String> = Vec::new();
    let mut start: usize = 0;
    assert(chars@.skip(0) =~= chars@);
    loop
        invariant
            chars@ == s@,
            start <= chars@.len(),
            out@.len() + segments(chars@.skip(start as int)).len() == segments(s@).len(),
            forall|i: int| 0 <= i < out@.len() ==> #[trigger] out@[i]@ == segments(s@)[i],
            forall|i: int|
                0 <= i < segments(chars@.skip(start as int)).len() ==> #[trigger] segments(
                    chars@.skip(start as int),
                )[i] == segments(s@)[out@.len() + i],
        decreases chars@.len() - start,
    {
        let i = find_separator(&chars, start);
        let ghost rest = chars@.skip(start as int);
        proof {
            lemma_next_separator_skips(chars@, start as int, 0);
            lemma_next_separator_bounds(chars@, start as int);
        }
        if i < chars.len() {
            let part = text::string_of(vstd::slice::slice_subrange(chars.as_slice(), start, i));
            proof {
                assert(rest.take(i - start) =~= chars@.subrange(start as int, i as int));
                assert(rest.skip(i - start + 2) =~= chars@.skip(i + 2));
                let tail = segments(chars@.skip(i + 2));
                assert(segments(rest) =~= seq![rest.take(i - start)] + tail);
                assert(segments(rest)[0] == part@);
                assert forall|k: int| 0 <= k < tail.len() implies #[trigger] tail[k] == segments(
                    s@,
                )[out@.len() + 1 + k] by {
                    assert(segments(rest)[k + 1] == tail[k]);
                }
            }
            out.push(part);
            start = i + 2;
        } else {
            let part = text::string_of(
                vstd::slice::slice_subrange(chars.as_slice(), start, chars.len()),
            );
            proof {
                assert(rest =~= chars@.subrange(start as int, chars@.len() as int));
                assert(segments(rest) =~= seq![rest]);
                assert(segments(rest)[0] == rest);
            }
            out.push(part);
            return out;
        }
    }
}

proof fn lemma_next_separator_bounds(s: Seq<char>, from: int)
    requires
        0 <= from <= s.len(),
    ensures
        from <= next_separator(s, from) <= s.len(),
        next_separator(s, from) < s.len() ==> separator_at(s, next_separator(s, from)),
        forall|i: int| from <= i < next_separator(s, from) ==> !#[trigger] separator_at(s, i),
    decreases s.len() - from,
{
    if from < s.len() && !separator_at(s, from) {
        lemma_next_separator_bounds(s, from + 1);
    }
}

proof fn lemma_next_separator_skips(s: Seq<char>, start: int, from: int)
    requires
        0 <= start,
        0 <= from,
        start + from <= s.len(),
    ensures
        next_separator(s, start + from) == start + next_separator(s.skip(start), from),
    decreases s.len() - start - from,
{
    let rest = s.skip(start);
    if from < rest.len() {
        assert(separator_at(rest, from) == separator_at(s, start + from));
        if !separator_at(rest, from) {
            lemma_next_separator_skips(s, start, from + 1);
        }
    }
}

impl Urn {
    #[verifier::type_invariant]
    spec fn has_valid_parts(self) -> bool {
        self@.valid()
    }

    /// Builds a URN with the default prefix and a freshly minted UUIDv7.
    pub fn new(environment: &str, service: &str, model: &str) -> (r: Result<Urn, CoreError>)
        ensures
            r is Ok <==> is_segment(environment@) && is_segment(service@) && is_segment(model@),
            r matches Ok(urn) ==> {
                &&& urn@.valid()
                &&& urn@.prefix == DEFAULT_URN_PREFIX@
                &&& urn@.environment == environment@
                &&& urn@.service == service@
                &&& urn@.model == model@
                &&& ident::is_version_7(urn@.id)
            },
            r matches Err(e) ==> {
                &&& e matches CoreError::InvalidUrn(why)
                &&& why@ == segment_message(
                    if !is_segment(environment@) {
                        environment@
                    } else if !is_segment(service@) {
                        service@
                    } else {
                        model@
                    },
                )
            },
    {
        Urn::with_id(environment, service, model, Uuid::now_v7())
    }

    /// Builds a URN with the default prefix around an existing id.
    pub fn with_id(environment: &str, service: &str, model: &str, id: Uuid) -> (r: Result<
        Urn,
        CoreError,
    >)
        ensures
            ({
                let wanted = UrnView {
                    prefix: DEFAULT_URN_PREFIX@,
                    environment: environment@,
                    service: service@,
                    model: model@,
                    id: id.bytes@,
                };
                &&& is_segment(DEFAULT_URN_PREFIX@)
                &&& r is Ok <==> wanted.valid()
                &&& r matches Ok(urn) ==> urn@ == wanted
                &&& r matches Err(e) ==> {
                    &&& e matches CoreError::InvalidUrn(why)
                    &&& why@ == segment_message(wanted.first_invalid())
                }
            }),
    {
        proof {
            default_prefix_is_segment();
        }
        Urn::with_prefix(DEFAULT_URN_PREFIX, environment, service, model, id)
    }

    /// Builds a URN with an explicit namespace prefix. Each part but the id must
    /// be non-empty and free of `::`.
    pub fn with_prefix(
        prefix: &str,
        environment: &str,
        service: &str,
        model: &str,
        id: Uuid,
    ) -> (r: Result<Urn, CoreError>)
        ensures
            ({
                let wanted = UrnView {
                    prefix: prefix@,
                    environment: environment@,
                    service: service@,
                    model: model@,
                    id: id.bytes@,
                };
                &&& r is Ok <==> wanted.valid()
                &&& r matches Ok(urn) ==> urn@ == wanted
                &&& r matches Err(e) ==> {
                    &&& e matches CoreError::InvalidUrn(why)
                    &&& why@ == segment_message(wanted.first_invalid())
                }
            }),
    {
        if !can_be_segment(prefix) {
            return Err(invalid_segment(prefix));
        }
        if !can_be_segment(environment) {
            return Err(invalid_segment(environment));
        }
        if !can_be_segment(service) {
            return Err(invalid_segment(service));
        }
        if !can_be_segment(model) {
            return Err(invalid_segment(model));
        }
        Ok(
            Urn {
                prefix: prefix.to_owned(),
                environment: environment.to_owned(),
                service: service.to_owned(),
                model: model.to_owned(),
                id,
            },
        )
    }

    /// The namespace prefix.
    pub fn prefix(&self) -> (r: &str)
        ensures
            r@ == self@.prefix,
    {
        self.prefix.as_str()
    }

    /// The environment that the named thing lives in.
    pub fn environment(&self) -> (r: &str)
        ensures
            r@ == self@.environment,
    {
        self.environment.as_str()
    }

    /// The service that owns the named thing.
    pub fn service(&self) -> (r: &str)
        ensures
            r@ == self@.service,
    {
        self.service.as_str()
    }

    /// What kind of thing is named.
    pub fn model(&self) -> (r: &str)
        ensures
            r@ == self@.model,
    {
        self.model.as_str()
    }

    /// The id of the named thing.
    pub fn id(&self) -> (r: Uuid)
        ensures
            r.bytes@ == self@.id,
    {
        self.id
    }

    /// The URN as it is stored, which restores to itself.
    pub fn to_wire(&self) -> (r: UrnWire)
        ensures
            r@ == self@,
            r@.valid(),
    {
        proof {
            use_type_invariant(self);
        }
        UrnWire {
            prefix: self.prefix.clone(),
            environment: self.environment.clone(),
            service: self.service.clone(),
            model: self.model.clone(),
            id: self.id,
        }
    }

    /// The five parts, with `::` between them.
    pub fn to_string(&self) -> (r: String)
        ensures
            r@ == self@.rendered(),
            self@.valid(),
            // Reading the string gives this URN back, unless a part ends in a colon.
            (parsed_urn(r@) matches Ok(urn) && urn == self@) <==> self@.rereads(),
    {
        proof {
            use_type_invariant(self);
        }
        let mut out = self.prefix.clone();
        out.append(SEPARATOR);
        out.append(self.environment.as_str());
        out.append(SEPARATOR);
        out.append(self.service.as_str());
        out.append(SEPARATOR);
        out.append(self.model.as_str());
        out.append(SEPARATOR);
        out.append(self.id.to_string().as_str());
        proof {
            lemma_reread(self@);
        }
        out
    }

    /// Reads a URN from a string.
    pub fn from_str(raw: &str) -> (r: Result<Urn, CoreError>)
        ensures
            match parsed_urn(raw@) {
                Ok(parts) => r matches Ok(urn) && urn@ == parts,
                Err(message) => r matches Err(CoreError::InvalidUrn(why)) && why@ == message,
            },
    {
        let parts = split(raw);
        if parts.len() != 5 {
            let count = text::numeral_of(parts.len() as u64);
            return Err(
                CoreError::InvalidUrn(
                    "expected 5 `::`-separated segments, got ".to_owned().concat(count.as_str()),
                ),
            );
        }
        Urn::assemble(
            parts[0].as_str(),
            parts[1].as_str(),
            parts[2].as_str(),
            parts[3].as_str(),
            Uuid::parse_str(parts[4].as_str()),
        )
    }

    /// The URN of four parts and of what the fifth was read as.
    pub fn assemble(
        prefix: &str,
        environment: &str,
        service: &str,
        model: &str,
        id: Result<Uuid, String>,
    ) -> (r: Result<Urn, CoreError>)
        ensures
            match assembled(
                prefix@,
                environment@,
                service@,
                model@,
                match id {
                    Ok(id) => Ok(id.bytes@),
                    Err(why) => Err(why@),
                },
            ) {
                Ok(parts) => r matches Ok(urn) && urn@ == parts,
                Err(message) => r matches Err(CoreError::InvalidUrn(why)) && why@ == message,
            },
    {
        match id {
            Err(why) => Err(
                CoreError::InvalidUrn(
                    "trailing segment is not a UUID: ".to_owned().concat(why.as_str()),
                ),
            ),
            Ok(id) => Urn::with_prefix(prefix, environment, service, model, id),
        }
    }
}

impl Clone for Urn {
    fn clone(&self) -> (r: Urn)
        ensures
            r == *self,
    {
        proof {
            use_type_invariant(self);
        }
        Urn {
            prefix: self.prefix.clone(),
            environment: self.environment.clone(),
            service: self.service.clone(),
            model: self.model.clone(),
            id: self.id,
        }
    }
}

impl std::str::FromStr for Urn {
    type Err = CoreError;

    fn from_str(raw: &str) -> (r: Result<Urn, CoreError>)
        ensures
            match parsed_urn(raw@) {
                Ok(parts) => r matches Ok(urn) && urn@ == parts,
                Err(message) => r matches Err(CoreError::InvalidUrn(why)) && why@ == message,
            },
    {
        Urn::from_str(raw)
    }
}

/// A segment that does not end in a colon is split off whole.
proof fn lemma_first_segment(x: Seq<char>, rest: Seq<char>)
    requires
        is_segment(x),
    ensures
        x.last() != ':' ==> segments(x + "::"@ + rest) == seq![x] + segments(rest),
        x.last() == ':' ==> segments(x + "::"@ + rest)[0] != x,
{
    reveal_strlit("::");
    let s = x + "::"@ + rest;
    lemma_next_separator_bounds(s, 0);
    let i = next_separator(s, 0);
    assert(separator_at(s, x.len() as int));
    assert forall|k: int| 0 <= k < x.len() - 1 implies !#[trigger] separator_at(s, k) by {
        assert(!separator_at(x, k));
    }
    if x.last() != ':' {
        assert(!separator_at(s, x.len() - 1));
        assert(i == x.len());
        assert(s.take(i) =~= x);
        assert(s.skip(i + 2) =~= rest);
    } else {
        assert(separator_at(s, x.len() - 1));
        assert(i == x.len() - 1);
        assert(segments(s)[0] == s.take(i));
        assert(s.take(i).len() != x.len());
    }
}

/// Rendering a URN and reading it again gives it back exactly where no part
/// ends in a colon.
proof fn lemma_reread(urn: UrnView)
    requires
        urn.valid(),
        urn.id.len() == 16,
        ident::parsed_uuid(ident::uuid_text(urn.id)) is Ok,
        ident::parsed_uuid(ident::uuid_text(urn.id))->Ok_0 == urn.id,
    ensures
        (parsed_urn(urn.rendered()) matches Ok(u) && u == urn) <==> urn.rereads(),
{
    let sep = "::"@;
    let id = ident::uuid_text(urn.id);
    let after_model = id;
    let after_service = urn.model + sep + after_model;
    let after_environment = urn.service + sep + after_service;
    let after_prefix = urn.environment + sep + after_environment;
    assert(urn.rendered() =~= urn.prefix + sep + after_prefix);
    lemma_first_segment(urn.prefix, after_prefix);
    lemma_first_segment(urn.environment, after_environment);
    lemma_first_segment(urn.service, after_service);
    lemma_first_segment(urn.model, after_model);
    assert forall|i: int| !#[trigger] separator_at(id, i) by {
        reveal_strlit("-");
        if separator_at(id, i) {
            assert(id[i] == ':');
        }
    }
    lemma_next_separator_bounds(id, 0);
    assert(segments(id) =~= seq![id]);
    let parts = segments(urn.rendered());
    if urn.prefix.last() != ':' {
        assert(parts[0] == urn.prefix);
        if urn.environment.last() != ':' {
            assert(parts[1] == segments(after_prefix)[0]);
            if urn.service.last() != ':' {
                assert(parts[2] == segments(after_environment)[0]);
                assert(parts[3] == segments(after_service)[0]);
                if urn.model.last() != ':' {
                    assert(parts.len() == 5);
                    assert(parts[4] == id);
                }
            } else {
                assert(parts[2] == segments(after_environment)[0]);
            }
        } else {
            assert(parts[1] == segments(after_prefix)[0]);
        }
    }
}

/// The default prefix can be a segment.
pub proof fn default_prefix_is_segment()
    ensures
        is_segment(DEFAULT_URN_PREFIX@),
{
    reveal_strlit("pessimal");
    assert forall|i: int| !#[trigger] separator_at(DEFAULT_URN_PREFIX@, i) by {}
}

fn invalid_segment(segment: &str) -> (r: CoreError)
    ensures
        r matches CoreError::InvalidUrn(why) && why@ == segment_message(segment@),
{
    segment_refusal(text::quote(segment).as_str())
}

/// The error for a segment, around its quoted form.
pub fn segment_refusal(quoted: &str) -> (r: CoreError)
    ensures
        r matches CoreError::InvalidUrn(why) && why@ == "segment "@ + quoted@
            + " must be non-empty and free of `::`"@,
{
    let mut why = "segment ".to_owned();
    why.append(quoted);
    why.append(" must be non-empty and free of `::`");
    CoreError::InvalidUrn(why)
}

/// The text that some segments make, two colons between each.
pub open spec fn rejoined(parts: Seq<Seq<char>>) -> Seq<char>
    decreases parts.len(),
{
    if parts.len() == 0 {
        Seq::empty()
    } else if parts.len() == 1 {
        parts[0]
    } else {
        parts[0] + seq![':', ':'] + rejoined(parts.skip(1))
    }
}

proof fn lemma_next_separator(s: Seq<char>, from: int)
    requires
        0 <= from <= s.len(),
    ensures
        from <= next_separator(s, from) <= s.len(),
        next_separator(s, from) < s.len() ==> separator_at(s, next_separator(s, from)),
        forall|i: int| from <= i < next_separator(s, from) ==> !#[trigger] separator_at(s, i),
    decreases s.len() - from,
{
    if from < s.len() && !separator_at(s, from) {
        lemma_next_separator(s, from + 1);
    }
}

/// Splitting a text loses nothing: its segments with two colons between each are the
/// text again, and no segment holds two colons in a row.
pub proof fn segments_rejoin(s: Seq<char>)
    ensures
        segments(s).len() >= 1,
        rejoined(segments(s)) == s,
        forall|k: int, i: int|
            0 <= k < segments(s).len() ==> !#[trigger] separator_at(#[trigger] segments(s)[k], i),
    decreases s.len(),
{
    reveal_with_fuel(rejoined, 2);
    let i = next_separator(s, 0);
    lemma_next_separator(s, 0);
    if 0 <= i && i + 2 <= s.len() {
        let rest = s.skip(i + 2);
        segments_rejoin(rest);
        let parts = segments(s);
        assert(parts.skip(1) =~= segments(rest));
        assert(s =~= s.take(i) + seq![':', ':'] + rest);
        assert forall|k: int, j: int| 0 <= k < parts.len() implies !#[trigger] separator_at(
            #[trigger] parts[k],
            j,
        ) by {
            if k == 0 {
                if separator_at(s.take(i), j) {
                    assert(separator_at(s, j));
                }
            } else {
                assert(parts[k] == segments(rest)[k - 1]);
            }
        }
    } else {
        assert forall|k: int, j: int| 0 <= k < segments(s).len() implies !#[trigger] separator_at(
            #[trigger] segments(s)[k],
            j,
        ) by {
            assert(segments(s)[k] == s);
            if separator_at(s, j) {
                assert(j < next_separator(s, 0));
            }
        }
    }
}

/// A text that reads as a URN is its five parts with two colons between each: four
/// that are not empty and hold no two colons, and an id. Nothing of the text is lost.
pub proof fn a_urn_is_what_was_written(raw: Seq<char>)
    requires
        parsed_urn(raw) is Ok,
    ensures
        ({
            let urn = parsed_urn(raw)->Ok_0;
            let id = segments(raw)[4];
            let colons = seq![':', ':'];
            &&& raw == urn.prefix + colons + (urn.environment + colons + (urn.service + colons + (
            urn.model + colons + id)))
            &&& ident::parsed_uuid(id) == Ok::<Seq<u8>, Seq<char>>(urn.id)
            &&& urn.prefix.len() > 0 && urn.environment.len() > 0 && urn.service.len() > 0
                && urn.model.len() > 0
            &&& urn.prefix == segments(raw)[0] && urn.environment == segments(raw)[1]
            &&& urn.service == segments(raw)[2] && urn.model == segments(raw)[3]
        }),
{
    reveal_with_fuel(rejoined, 6);
    segments_rejoin(raw);
    let parts = segments(raw);
    assert(parts.skip(1)[0] == parts[1]);
    assert(parts.skip(1).skip(1)[0] == parts[2]);
    assert(parts.skip(1).skip(1).skip(1)[0] == parts[3]);
    assert(parts.skip(1).skip(1).skip(1).skip(1)[0] == parts[4]);
}

/// A text reads as a URN exactly where it has five segments, the first four are not
/// empty, and the last is an id.
pub proof fn urns_have_four_words_and_an_id(raw: Seq<char>)
    ensures
        parsed_urn(raw) is Ok <==> {
            &&& segments(raw).len() == 5
            &&& segments(raw)[0].len() > 0
            &&& segments(raw)[1].len() > 0
            &&& segments(raw)[2].len() > 0
            &&& segments(raw)[3].len() > 0
            &&& ident::parsed_uuid(segments(raw)[4]) is Ok
        },
{
    segments_rejoin(raw);
    let parts = segments(raw);
    if parts.len() == 5 {
        assert forall|k: int| 0 <= k < 4 && (#[trigger] parts[k]).len() > 0 implies is_segment(
            parts[k],
        ) by {
            assert forall|i: int| !#[trigger] separator_at(parts[k], i) by {}
        }
        assert(parts[0].len() > 0 ==> is_segment(parts[0]));
        assert(parts[1].len() > 0 ==> is_segment(parts[1]));
        assert(parts[2].len() > 0 ==> is_segment(parts[2]));
        assert(parts[3].len() > 0 ==> is_segment(parts[3]));
    }
}

/// A segment is anything but nothing and what holds two colons in a row.
pub proof fn segments_hold_no_two_colons(s: Seq<char>)
    ensures
        is_segment(s) <==> s.len() > 0 && forall|i: int|
            0 <= i < s.len() - 1 && #[trigger] s[i] == ':' ==> s[i + 1] != ':',
{
    if is_segment(s) {
        assert forall|i: int| 0 <= i < s.len() - 1 && #[trigger] s[i] == ':' implies s[i + 1]
            != ':' by {
            assert(!separator_at(s, i));
        }
    }
    if s.len() > 0 && forall|i: int|
        0 <= i < s.len() - 1 && #[trigger] s[i] == ':' ==> s[i + 1] != ':' {
        assert forall|i: int| !#[trigger] separator_at(s, i) by {
            if separator_at(s, i) {
                assert(s[i] == ':');
            }
        }
    }
}

/// The first part that cannot stand in a URN is the one that is complained of.
pub proof fn the_first_bad_part_is_named(urn: UrnView)
    requires
        !urn.valid(),
    ensures
        !is_segment(urn.first_invalid()),
        !is_segment(urn.prefix) ==> urn.first_invalid() == urn.prefix,
        is_segment(urn.prefix) && !is_segment(urn.environment) ==> urn.first_invalid()
            == urn.environment,
        is_segment(urn.prefix) && is_segment(urn.environment) && !is_segment(urn.service)
            ==> urn.first_invalid() == urn.service,
        is_segment(urn.prefix) && is_segment(urn.environment) && is_segment(urn.service)
            ==> urn.first_invalid() == urn.model,
        segment_message(urn.first_invalid()) == "segment "@ + text::quoted(urn.first_invalid())
            + " must be non-empty and free of `::`"@,
{
}

/// A text that is no URN is refused for the first thing that is wrong with it: the
/// number of its segments, then its id, then its first empty segment.
pub proof fn urns_are_refused_for_a_reason(raw: Seq<char>)
    ensures
        ({
            let parts = segments(raw);
            &&& parts.len() != 5 ==> parsed_urn(raw) == Err::<UrnView, Seq<char>>(
                "expected 5 `::`-separated segments, got "@ + text::numeral(parts.len()),
            )
            &&& parts.len() == 5 && ident::parsed_uuid(parts[4]) is Err ==> parsed_urn(raw) == Err::<
                UrnView,
                Seq<char>,
            >("trailing segment is not a UUID: "@ + ident::parsed_uuid(parts[4])->Err_0)
            &&& forall|k: int|
                0 <= k < 4 && parts.len() == 5 && ident::parsed_uuid(parts[4]) is Ok && (
                #[trigger] parts[k]).len() == 0 && (forall|j: int|
                    0 <= j < k ==> (#[trigger] parts[j]).len() > 0) ==> parsed_urn(raw) == Err::<
                    UrnView,
                    Seq<char>,
                >("segment "@ + text::quoted(parts[k]) + " must be non-empty and free of `::`"@)
        }),
{
    segments_rejoin(raw);
    let parts = segments(raw);
    if parts.len() == 5 {
        assert forall|k: int| 0 <= k < 4 && (#[trigger] parts[k]).len() > 0 implies is_segment(
            parts[k],
        ) by {
            assert forall|i: int| !#[trigger] separator_at(parts[k], i) by {}
        }
    }
}

} // verus!
