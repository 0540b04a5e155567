//! Where usage reports go, and where that comes from.
//!
//! A client finds the two values in its bundle, an agent in its build environment.
//! Either way an unset value is empty or absent, and [`Destination::new`] treats
//! both as no destination at all: a build that was not given one cannot report.

use crate::text;
use vstd::prelude::*;

verus! {

/// The variable carrying the OTLP/HTTP base URL.
pub const ENDPOINT_VAR: &'static str = "SIGNOZ_OTLP_ENDPOINT";

/// The variable carrying the ingestion credential.
pub const KEY_VAR: &'static str = "SIGNOZ_OTLP_INGESTION_KEY";

/// The header SigNoz wants an ingestion key in.
pub const INGESTION_KEY_HEADER: &'static str = "signoz-ingestion-key";

/// A credential that does not appear in logs: it has no `Debug`, and its
/// [`Secret::debug_text`] does not depend on it.
#[derive(PartialEq, Eq)]
pub struct Secret(String);

impl View for Secret {
    type V = Seq<char>;

    closed spec fn view(&self) -> Seq<char> {
        self.0@
    }
}

impl Secret {
    /// Wraps a credential.
    pub fn new(value: &str) -> (r: Secret)
        ensures
            r@ == value@,
    {
        Secret(value.to_owned())
    }

    /// The credential itself.
    pub fn expose(&self) -> (r: &str)
        ensures
            r@ == self@,
    {
        self.0.as_str()
    }

    /// Whether the credential is empty.
    pub fn is_empty(&self) -> (r: bool)
        ensures
            r == (self@.len() == 0),
    {
        self.0.as_str().is_empty()
    }

    /// What a log may show in the credential's place.
    pub fn debug_text(&self) -> (r: String)
        ensures
            r@ == "<redacted>"@,
    {
        "<redacted>".to_owned()
    }
}

impl Clone for Secret {
    fn clone(&self) -> (r: Secret)
        ensures
            r@ == self@,
    {
        Secret(self.0.clone())
    }
}

/// `s` without the slashes at its end.
pub open spec fn without_slashes(s: Seq<char>) -> Seq<char>
    decreases s.len(),
{
    if s.len() > 0 && s.last() == '/' {
        without_slashes(s.drop_last())
    } else {
        s
    }
}

/// Whether a character is one of the ten digits a port is written in.
pub open spec fn is_port_digit(c: char) -> bool {
    '0' <= c && c <= '9'
}

/// Whether a character ends a URL's authority: a path, a query or a fragment begins.
pub open spec fn ends_authority(c: char) -> bool {
    c == '/' || c == '?' || c == '#'
}

/// Whether `rest` begins with a colon and so many characters up to `n` that are a port
/// and nothing else: digits, up to the end of the authority or of the string. A port
/// may be empty. In `:4318@evil.example` the digits end in front of an `@`, so the
/// colon belongs to a user's name and no port follows it.
pub open spec fn port_ends_at(rest: Seq<char>, n: int) -> bool {
    &&& 1 <= n <= rest.len()
    &&& rest[0] == ':'
    &&& forall|i: int| 1 <= i < n ==> is_port_digit(#[trigger] rest[i])
    &&& n == rest.len() || ends_authority(rest[n])
}

/// Whether a host ends in front of `rest`: at a path, at a port, or at the end of the
/// string.
pub open spec fn ends_host(rest: Seq<char>) -> bool {
    ||| rest.len() == 0
    ||| rest[0] == '/'
    ||| exists|n: int| #[trigger] port_ends_at(rest, n)
}

/// Whether `s` begins with a host and that host ends there.
pub open spec fn starts_with_host(s: Seq<char>, host: Seq<char>) -> bool {
    &&& host.is_prefix_of(s)
    &&& ends_host(s.skip(host.len() as int))
}

/// Whether an authority is loopback and nothing else. `localhost.acme.corp` begins
/// with `localhost` and is somebody else's machine.
pub open spec fn is_loopback(authority: Seq<char>) -> bool {
    starts_with_host(authority, "localhost"@) || starts_with_host(authority, "127.0.0.1"@)
        || starts_with_host(authority, "[::1]"@)
}

/// Whether an endpoint may be reported to: over TLS anywhere, in clear text only on
/// this machine.
pub open spec fn is_acceptable(endpoint: Seq<char>) -> bool {
    if "https://"@.is_prefix_of(endpoint) {
        endpoint.len() > "https://"@.len()
    } else {
        "http://"@.is_prefix_of(endpoint) && is_loopback(endpoint.skip("http://"@.len() as int))
    }
}

/// A destination as its three parts.
pub struct DestinationView {
    pub endpoint: Seq<char>,
    pub header_name: Seq<char>,
    pub key: Seq<char>,
}

impl DestinationView {
    /// Whether no part is empty and the endpoint may be reported to.
    pub open spec fn usable(self) -> bool {
        &&& self.endpoint.len() > 0
        &&& self.header_name.len() > 0
        &&& self.key.len() > 0
        &&& is_acceptable(self.endpoint)
    }
}

/// The three parts, tidied: without surrounding white space, and the endpoint
/// without slashes at its end.
pub open spec fn tidied(endpoint: Seq<char>, header_name: Seq<char>, key: Seq<char>) -> DestinationView {
    DestinationView {
        endpoint: without_slashes(text::trimmed(endpoint)),
        header_name: text::trimmed(header_name),
        key: text::trimmed(key),
    }
}

/// A complete, validated destination.
#[derive(PartialEq, Eq)]
pub struct Destination {
    endpoint: String,
    header_name: String,
    key: Secret,
}

impl View for Destination {
    type V = DestinationView;

    closed spec fn view(&self) -> DestinationView {
        DestinationView {
            endpoint: self.endpoint@,
            header_name: self.header_name@,
            key: self.key@,
        }
    }
}

impl Clone for Destination {
    fn clone(&self) -> (r: Destination)
        ensures
            r@ == self@,
    {
        proof {
            use_type_invariant(self);
        }
        Destination {
            endpoint: self.endpoint.clone(),
            header_name: self.header_name.clone(),
            key: self.key.clone(),
        }
    }
}

fn trim_slashes(s: &str) -> (r: String)
    ensures
        r@ == without_slashes(s@),
{
    let chars = text::chars_of(s);
    let mut end: usize = chars.len();
    assert(chars@.take(end as int) =~= chars@);
    while end > 0 && chars[end - 1] == '/'
        invariant
            end <= chars@.len(),
            without_slashes(chars@) == without_slashes(chars@.take(end as int)),
        decreases end,
    {
        proof {
            let run = chars@.take(end as int);
            assert(run.last() == chars@[end - 1]);
            assert(run.drop_last() =~= chars@.take(end - 1));
        }
        end -= 1;
    }
    proof {
        let run = chars@.take(end as int);
        assert(run.len() > 0 ==> run.last() == chars@[end - 1]);
    }
    text::string_of(vstd::slice::slice_subrange(chars.as_slice(), 0, end))
}

fn is_end_of_host(rest: &str) -> (r: bool)
    ensures
        r == ends_host(rest@),
{
    let chars = text::chars_of(rest);
    if chars.len() == 0 || chars[0] == '/' {
        return true;
    }
    if chars[0] != ':' {
        return false;
    }
    let mut n: usize = 1;
    while n < chars.len() && '0' <= chars[n] && chars[n] <= '9'
        invariant
            1 <= n <= chars@.len(),
            forall|i: int| 1 <= i < n ==> is_port_digit(#[trigger] chars@[i]),
        decreases chars@.len() - n,
    {
        n += 1;
    }
    if n == chars.len() || chars[n] == '/' || chars[n] == '?' || chars[n] == '#' {
        assert(port_ends_at(rest@, n as int));
        true
    } else {
        assert forall|m: int| !#[trigger] port_ends_at(rest@, m) by {
            if m > n {
                assert(!is_port_digit(rest@[n as int]));
            } else if 1 <= m < n {
                assert(is_port_digit(rest@[m]));
            }
        }
        false
    }
}

fn begins_with_host(s: &str, host: &str) -> (r: bool)
    ensures
        r == starts_with_host(s@, host@),
{
    if !text::has_prefix(s, host) {
        return false;
    }
    let rest = s.substring_char(host.unicode_len(), s.unicode_len());
    assert(rest@ =~= s@.skip(host@.len() as int));
    is_end_of_host(rest)
}

fn is_loopback_authority(authority: &str) -> (r: bool)
    ensures
        r == is_loopback(authority@),
{
    begins_with_host(authority, "localhost") || begins_with_host(authority, "127.0.0.1")
        || begins_with_host(authority, "[::1]")
}

impl Destination {
    #[verifier::type_invariant]
    pub closed spec fn validated(self) -> bool {
        self@.usable()
    }

    /// The destination that a binary was built with, from the values of
    /// [`ENDPOINT_VAR`] and [`KEY_VAR`] in its build environment.
    pub fn from_build(endpoint: Option<&str>, key: Option<&str>) -> (r: Option<Destination>)
        ensures
            r is Some <==> {
                &&& endpoint matches Some(e)
                &&& key matches Some(k)
                &&& tidied(e@, INGESTION_KEY_HEADER@, k@).usable()
            },
            r matches Some(destination) ==> destination@ == tidied(
                endpoint->0@,
                INGESTION_KEY_HEADER@,
                key->0@,
            ),
    {
        match (endpoint, key) {
            (Some(endpoint), Some(key)) => Destination::new(endpoint, INGESTION_KEY_HEADER, key),
            _ => None,
        }
    }

    /// A destination from the values an app found in its bundle.
    pub fn from_bundle(endpoint: &str, key: &str) -> (r: Option<Destination>)
        ensures
            r is Some <==> tidied(endpoint@, INGESTION_KEY_HEADER@, key@).usable(),
            r matches Some(destination) ==> destination@ == tidied(
                endpoint@,
                INGESTION_KEY_HEADER@,
                key@,
            ),
    {
        Destination::new(endpoint, INGESTION_KEY_HEADER, key)
    }

    /// Validates the three parts. `None` if any is unusable.
    ///
    /// An empty string is treated as absent. A plain-`http` endpoint is accepted
    /// only for loopback: a credential must not cross a network in clear text.
    pub fn new(endpoint: &str, header_name: &str, key: &str) -> (r: Option<Destination>)
        ensures
            r is Some <==> tidied(endpoint@, header_name@, key@).usable(),
            r matches Some(destination) ==> destination@ == tidied(endpoint@, header_name@, key@),
    {
        let endpoint = trim_slashes(text::trim(endpoint).as_str());
        let header_name = text::trim(header_name);
        let key = text::trim(key);
        if endpoint.as_str().is_empty() || header_name.as_str().is_empty()
            || key.as_str().is_empty() {
            return None;
        }
        if !Destination::is_acceptable_endpoint(endpoint.as_str()) {
            return None;
        }
        Some(Destination { endpoint, header_name, key: Secret::new(key.as_str()) })
    }

    fn is_acceptable_endpoint(endpoint: &str) -> (r: bool)
        ensures
            r == is_acceptable(endpoint@),
    {
        if text::has_prefix(endpoint, "https://") {
            return endpoint.unicode_len() > "https://".unicode_len();
        }
        if text::has_prefix(endpoint, "http://") {
            let n = "http://".unicode_len();
            let rest = endpoint.substring_char(n, endpoint.unicode_len());
            assert(rest@ =~= endpoint@.skip("http://"@.len() as int));
            return is_loopback_authority(rest);
        }
        false
    }

    /// The signal-specific path. Traces only.
    pub fn traces_url(&self) -> (r: String)
        ensures
            r@ == self@.endpoint + "/v1/traces"@,
    {
        self.endpoint.clone().concat("/v1/traces")
    }

    /// The header the credential travels in.
    pub fn header_name(&self) -> (r: &str)
        ensures
            r@ == self@.header_name,
    {
        self.header_name.as_str()
    }

    /// The credential.
    pub fn key(&self) -> (r: &Secret)
        ensures
            r@ == self@.key,
    {
        &self.key
    }

    /// What a log may show of the destination: everything but the credential.
    pub fn debug_text(&self) -> (r: String)
        ensures
            r@ == shown(self@.endpoint, self@.header_name),
    {
        redacted_text(
            text::quote(self.endpoint.as_str()).as_str(),
            text::quote(self.header_name.as_str()).as_str(),
        )
    }
}

/// What a log may show of a destination, around what it quotes.
pub fn redacted_text(endpoint: &str, header_name: &str) -> (r: String)
    ensures
        r@ == "Destination { endpoint: "@ + endpoint@ + ", header_name: "@ + header_name@
            + ", key: "@ + "<redacted>"@ + " }"@,
{
    let mut out = "Destination { endpoint: ".to_owned();
    out.append(endpoint);
    out.append(", header_name: ");
    out.append(header_name);
    out.append(", key: ");
    out.append("<redacted>");
    out.append(" }");
    out
}

/// What a log may show of a destination, whatever its credential.
pub open spec fn shown(endpoint: Seq<char>, header_name: Seq<char>) -> Seq<char> {
    "Destination { endpoint: "@ + text::quoted(endpoint) + ", header_name: "@ + text::quoted(
        header_name,
    ) + ", key: "@ + "<redacted>"@ + " }"@
}

/// Whether a path, a query or a fragment begins somewhere in `s`.
pub open spec fn leaves_authority(s: Seq<char>) -> bool {
    exists|i: int| 0 <= i < s.len() && ends_authority(#[trigger] s[i])
}

/// A destination that is not over TLS is on this machine: its endpoint is `http://`, a
/// loopback name, and at most a port in the rest of the authority. No `@` stands in the
/// authority, only behind it, so the loopback name is the host and not a user's name on
/// another one.
pub proof fn clear_text_stays_local(destination: DestinationView)
    requires
        destination.usable(),
        !"https://"@.is_prefix_of(destination.endpoint),
    ensures
        "http://"@.is_prefix_of(destination.endpoint),
        ({
            let rest = destination.endpoint.skip("http://"@.len() as int);
            &&& is_loopback(rest)
            &&& forall|i: int|
                0 <= i < rest.len() && (#[trigger] rest[i]) == '@' ==> leaves_authority(
                    rest.take(i),
                )
        }),
{
    reveal_strlit("localhost");
    reveal_strlit("127.0.0.1");
    reveal_strlit("[::1]");
    let rest = destination.endpoint.skip("http://"@.len() as int);
    if starts_with_host(rest, "localhost"@) {
        lemma_hosts_hold_no_user(rest, "localhost"@);
    } else if starts_with_host(rest, "127.0.0.1"@) {
        lemma_hosts_hold_no_user(rest, "127.0.0.1"@);
    } else {
        lemma_hosts_hold_no_user(rest, "[::1]"@);
    }
}

proof fn lemma_hosts_hold_no_user(s: Seq<char>, host: Seq<char>)
    requires
        starts_with_host(s, host),
        forall|i: int| 0 <= i < host.len() ==> (#[trigger] host[i]) != '@',
    ensures
        forall|i: int|
            0 <= i < s.len() && (#[trigger] s[i]) == '@' ==> leaves_authority(s.take(i)),
{
    let rest = s.skip(host.len() as int);
    assert forall|i: int| 0 <= i < s.len() && (#[trigger] s[i]) == '@' implies leaves_authority(
        s.take(i),
    ) by {
        if i < host.len() {
            assert(host[i] == s[i]);
        }
        let k = i - host.len();
        assert(rest[k] == '@');
        let end = if rest[0] == '/' {
            0
        } else {
            choose|n: int| #[trigger] port_ends_at(rest, n)
        };
        if rest[0] != '/' {
            assert(port_ends_at(rest, end));
            assert(1 <= k < end ==> is_port_digit(rest[k]));
        }
        assert(end < k && ends_authority(rest[end]));
        assert(s.take(i)[host.len() + end] == rest[end]);
    }
}

/// A slash behind an endpoint leaves no trace: the destination is the same without
/// it. White space between the two would keep them apart.
pub proof fn slashes_leave_no_trace(endpoint: Seq<char>, header_name: Seq<char>, key: Seq<char>)
    requires
        endpoint.len() > 0,
        !text::is_white(endpoint.last()),
    ensures
        tidied(endpoint.push('/'), header_name, key) == tidied(endpoint, header_name, key),
{
    lemma_trim_start_push(endpoint, '/');
    let kept = text::trim_start(endpoint);
    assert(text::trim_end(kept.push('/')) == kept.push('/'));
    assert(kept.push('/').drop_last() =~= kept);
}

proof fn lemma_trim_start_push(s: Seq<char>, c: char)
    requires
        s.len() > 0,
        !text::is_white(s.last()),
    ensures
        text::trim_start(s.push(c)) == text::trim_start(s).push(c),
        text::trim_start(s).len() > 0,
        text::trim_start(s).last() == s.last(),
    decreases s.len(),
{
    if text::is_white(s[0]) {
        let rest = s.subrange(1, s.len() as int);
        assert(s.push(c).subrange(1, s.push(c).len() as int) =~= rest.push(c));
        lemma_trim_start_push(rest, c);
    }
}

/// Without an endpoint or a credential there is no destination: a blank value
/// counts as absent.
pub proof fn blanks_are_no_destination(endpoint: Seq<char>, header_name: Seq<char>, key: Seq<char>)
    requires
        text::trimmed(endpoint).len() == 0 || text::trimmed(header_name).len() == 0
            || text::trimmed(key).len() == 0,
    ensures
        !tidied(endpoint, header_name, key).usable(),
{
}

/// Over TLS a destination may be anywhere.
pub proof fn tls_goes_anywhere(rest: Seq<char>)
    ensures
        is_acceptable("https://"@ + rest) <==> rest.len() > 0,
{
    let endpoint = "https://"@ + rest;
    assert("https://"@ =~= endpoint.subrange(0, "https://"@.len() as int));
}

/// A loopback endpoint is accepted in clear text: by any of the three names, bare, with
/// a path, or with a port and whatever may follow a port.
pub proof fn loopback_is_accepted_in_clear_text(host: Seq<char>, port: Seq<char>, tail: Seq<char>)
    requires
        host == "localhost"@ || host == "127.0.0.1"@ || host == "[::1]"@,
        forall|i: int| 0 <= i < port.len() ==> '0' <= #[trigger] port[i] <= '9',
        tail.len() == 0 || tail[0] == '/' || tail[0] == '?' || tail[0] == '#',
    ensures
        is_acceptable("http://"@ + host),
        tail.len() > 0 && tail[0] == '/' ==> is_acceptable("http://"@ + (host + tail)),
        is_acceptable("http://"@ + (host + (seq![':'] + port + tail))),
{
    let rest = seq![':'] + port + tail;
    assert forall|i: int| 1 <= i < 1 + port.len() implies is_port_digit(#[trigger] rest[i]) by {
        assert(rest[i] == port[i - 1]);
    }
    if tail.len() > 0 {
        assert(rest[port.len() as int + 1] == tail[0]);
    }
    assert(port_ends_at(rest, port.len() as int + 1));
    lemma_clear_text_behind_host(host, rest);
    lemma_clear_text_behind_host(host, Seq::empty());
    assert(host + Seq::<char>::empty() =~= host);
    if tail.len() > 0 && tail[0] == '/' {
        lemma_clear_text_behind_host(host, tail);
    }
}

proof fn lemma_clear_text_behind_host(host: Seq<char>, rest: Seq<char>)
    requires
        host == "localhost"@ || host == "127.0.0.1"@ || host == "[::1]"@,
        ends_host(rest),
    ensures
        is_acceptable("http://"@ + (host + rest)),
{
    reveal_strlit("http://");
    reveal_strlit("https://");
    let authority = host + rest;
    let endpoint = "http://"@ + authority;
    assert("http://"@ =~= endpoint.subrange(0, 7));
    assert("https://"@[4] == 's' && endpoint[4] == ':');
    assert(endpoint.skip(7) =~= authority);
    assert(host =~= authority.subrange(0, host.len() as int));
    assert(authority.skip(host.len() as int) =~= rest);
    assert(starts_with_host(authority, host));
}

/// In clear text only a loopback host is accepted: behind `http://` stands one of the
/// three names, and what follows it is nothing, a path, or a colon with digits up to
/// the end, a path, a query or a fragment.
pub proof fn only_loopback_is_accepted_in_clear_text(endpoint: Seq<char>)
    requires
        is_acceptable(endpoint),
        !"https://"@.is_prefix_of(endpoint),
    ensures
        "http://"@.is_prefix_of(endpoint),
        ({
            let rest = endpoint.skip("http://"@.len() as int);
            exists|n: int|
                {
                    &&& 0 <= n <= rest.len()
                    &&& #[trigger] rest.take(n) == "localhost"@ || rest.take(n) == "127.0.0.1"@
                        || rest.take(n) == "[::1]"@
                    &&& n == rest.len() || rest[n] == '/' || (rest[n] == ':' && forall|i: int|
                        n < i < rest.len() && !('0' <= #[trigger] rest[i] <= '9') ==> exists|k: int|
                            n < k <= i && (#[trigger] rest[k] == '/' || rest[k] == '?' || rest[k]
                                == '#'))
                }
        }),
{
    let rest = endpoint.skip("http://"@.len() as int);
    let host = if starts_with_host(rest, "localhost"@) {
        "localhost"@
    } else if starts_with_host(rest, "127.0.0.1"@) {
        "127.0.0.1"@
    } else {
        "[::1]"@
    };
    let n = host.len() as int;
    assert(rest.take(n) =~= host);
    let behind = rest.skip(n);
    if behind.len() > 0 && behind[0] != '/' {
        let end = choose|end: int| #[trigger] port_ends_at(behind, end);
        assert(rest[n] == behind[0]);
        assert forall|i: int| n < i < rest.len() && !('0' <= #[trigger] rest[i] <= '9') implies exists|k: int|
            n < k <= i && (#[trigger] rest[k] == '/' || rest[k] == '?' || rest[k] == '#') by {
            if i - n < end {
                assert(is_port_digit(behind[i - n]));
            }
            assert(rest[n + end] == behind[end]);
        }
    } else if behind.len() > 0 {
        assert(rest[n] == behind[0]);
    }
}

/// Taking the slashes off an end takes slashes and nothing else, and takes them all.
pub proof fn only_slashes_are_taken_off(s: Seq<char>) -> (n: int)
    ensures
        0 <= n <= s.len(),
        without_slashes(s) == s.take(n),
        n > 0 ==> s[n - 1] != '/',
        forall|i: int| n <= i < s.len() ==> #[trigger] s[i] == '/',
    decreases s.len(),
{
    if s.len() > 0 && s.last() == '/' {
        let n = only_slashes_are_taken_off(s.drop_last());
        assert(s.drop_last().take(n) =~= s.take(n));
        assert forall|i: int| n <= i < s.len() implies #[trigger] s[i] == '/' by {
            if i < s.len() - 1 {
                assert(s.drop_last()[i] == s[i]);
            }
        }
        if n > 0 {
            assert(s.drop_last()[n - 1] == s[n - 1]);
        }
        n
    } else {
        assert(s.take(s.len() as int) =~= s);
        s.len() as int
    }
}

/// A destination is made of the three parts as they were given, but for white space
/// around them and slashes behind the endpoint. It is usable exactly where none of the
/// three is empty and the endpoint is acceptable.
pub proof fn destinations_are_their_parts(endpoint: Seq<char>, header_name: Seq<char>, key: Seq<char>)
    ensures
        ({
            let made = tidied(endpoint, header_name, key);
            &&& made.endpoint == without_slashes(text::trimmed(endpoint))
            &&& made.header_name == text::trimmed(header_name)
            &&& made.key == text::trimmed(key)
            &&& made.usable() <==> made.endpoint.len() > 0 && made.header_name.len() > 0
                && made.key.len() > 0 && is_acceptable(made.endpoint)
        }),
{
}

/// What a log shows of a destination holds its endpoint and its header, and is the same
/// whatever the key.
pub proof fn logs_show_no_key(endpoint: Seq<char>, header_name: Seq<char>)
    ensures
        shown(endpoint, header_name) == "Destination { endpoint: "@ + text::quoted(endpoint)
            + ", header_name: "@ + text::quoted(header_name) + ", key: "@ + "<redacted>"@ + " }"@,
{
}

} // verus!
