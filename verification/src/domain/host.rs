//! Host identity and selection.

use crate::text;
use crate::time::Timestamp;
use vstd::prelude::*;

verus! {

/// A host's stable identifier: the operator-visible hostname, which has to match
/// what already exists in the telemetry backend.
#[derive(Debug, PartialEq, Eq, Hash, PartialOrd, Ord)]
pub struct HostId(String);

impl View for HostId {
    type V = Seq<char>;

    closed spec fn view(&self) -> Seq<char> {
        self.0@
    }
}

impl HostId {
    /// The identifier with these characters.
    pub fn new(value: &str) -> (r: HostId)
        ensures
            r@ == value@,
    {
        HostId(value.to_owned())
    }

    /// The identifier as a string.
    pub fn as_str(&self) -> (r: &str)
        ensures
            r@ == self@,
    {
        self.0.as_str()
    }

    /// The identifier as an owned string.
    pub fn to_string(&self) -> (r: String)
        ensures
            r@ == self@,
    {
        self.0.clone()
    }

    /// Whether two identifiers name the same host.
    pub fn same(&self, other: &HostId) -> (r: bool)
        ensures
            r == (self@ == other@),
    {
        text::same(self.0.as_str(), other.0.as_str())
    }
}

impl Clone for HostId {
    fn clone(&self) -> (r: HostId)
        ensures
            r == *self,
            r@ == self@,
    {
        HostId(self.0.clone())
    }
}

impl vstd::std_specs::convert::FromSpecImpl<&str> for HostId {
    open spec fn obeys_from_spec() -> bool {
        false
    }

    open spec fn from_spec(value: &str) -> HostId {
        arbitrary()
    }
}

impl From<&str> for HostId {
    fn from(value: &str) -> (r: HostId)
        ensures
            r@ == value@,
    {
        HostId::new(value)
    }
}

impl vstd::std_specs::convert::FromSpecImpl<String> for HostId {
    open spec fn obeys_from_spec() -> bool {
        false
    }

    open spec fn from_spec(value: String) -> HostId {
        arbitrary()
    }
}

impl From<String> for HostId {
    fn from(value: String) -> (r: HostId)
        ensures
            r@ == value@,
    {
        HostId(value)
    }
}

/// The operating system family a host runs, as reported in the `os.type`
/// resource attribute.
#[derive(Debug, Clone, Copy, PartialEq, Eq, Hash, Structural)]
pub enum OsFamily {
    Linux,
    Darwin,
    Windows,
    Other,
}

impl OsFamily {
    /// The `os.type` semantic-convention value.
    pub open spec fn value_text(self) -> Seq<char> {
        match self {
            OsFamily::Linux => "linux"@,
            OsFamily::Darwin => "darwin"@,
            OsFamily::Windows => "windows"@,
            OsFamily::Other => "other"@,
        }
    }

    /// The family that an `os.type` value denotes, whatever the case of its
    /// letters.
    pub open spec fn family_of(value: Seq<char>) -> OsFamily {
        let value = text::lowered(value);
        if value == "linux"@ {
            OsFamily::Linux
        } else if value == "darwin"@ || value == "macos"@ {
            OsFamily::Darwin
        } else if value == "windows"@ {
            OsFamily::Windows
        } else {
            OsFamily::Other
        }
    }

    /// The `os.type` semantic-convention value.
    pub fn otel_value(self) -> (r: &'static str)
        ensures
            r@ == self.value_text(),
    {
        match self {
            OsFamily::Linux => "linux",
            OsFamily::Darwin => "darwin",
            OsFamily::Windows => "windows",
            OsFamily::Other => "other",
        }
    }

    /// Parses an `os.type` value, falling back to [`OsFamily::Other`] rather
    /// than failing: an unrecognised OS is still a host worth showing.
    pub fn from_otel_value(value: &str) -> (r: OsFamily)
        ensures
            r == OsFamily::family_of(value@),
    {
        let value = text::to_lower(value);
        if text::same(value.as_str(), "linux") {
            OsFamily::Linux
        } else if text::same(value.as_str(), "darwin") || text::same(value.as_str(), "macos") {
            OsFamily::Darwin
        } else if text::same(value.as_str(), "windows") {
            OsFamily::Windows
        } else {
            OsFamily::Other
        }
    }

    /// The family of a build's target platform, from the name the compiler gives
    /// that platform.
    pub fn current(os: &str) -> (r: OsFamily)
        ensures
            r == (if os@ == "linux"@ {
                OsFamily::Linux
            } else if os@ == "macos"@ || os@ == "ios"@ {
                OsFamily::Darwin
            } else if os@ == "windows"@ {
                OsFamily::Windows
            } else {
                OsFamily::Other
            }),
    {
        if text::same(os, "linux") {
            OsFamily::Linux
        } else if text::same(os, "macos") || text::same(os, "ios") {
            OsFamily::Darwin
        } else if text::same(os, "windows") {
            OsFamily::Windows
        } else {
            OsFamily::Other
        }
    }
}

/// Every family is read back from its own `os.type` value.
pub proof fn os_family_round_trips(family: OsFamily)
    ensures
        OsFamily::family_of(family.value_text()) == family,
{
    reveal_strlit("linux");
    reveal_strlit("darwin");
    reveal_strlit("macos");
    reveal_strlit("windows");
    reveal_strlit("other");
    let value = family.value_text();
    assert(text::lowered(value) =~= value);
    assert("linux"@[0] == 'l' && "darwin"@[0] == 'd' && "macos"@[0] == 'm' && "windows"@[0] == 'w'
        && "other"@[0] == 'o');
}

/// The case of ASCII letters in an `os.type` value does not matter.
pub proof fn os_family_ignores_case(a: Seq<char>, b: Seq<char>)
    requires
        text::lowered(a) == text::lowered(b),
    ensures
        OsFamily::family_of(a) == OsFamily::family_of(b),
{
}

/// A monitored host as the clients know it.
#[derive(Debug, Clone, PartialEq)]
pub struct Host {
    pub id: HostId,
    pub os: OsFamily,
    /// Timestamp of the most recent heartbeat seen for this host, if any.
    pub last_heartbeat: Option<Timestamp>,
    /// Agent version, from the `service.version` resource attribute.
    pub agent_version: Option<String>,
}

impl Host {
    /// A host that nothing is known of but its name and family.
    pub fn new(id: HostId, os: OsFamily) -> (r: Host)
        ensures
            r == (Host { id, os, last_heartbeat: None, agent_version: None }),
    {
        Host { id, os, last_heartbeat: None, agent_version: None }
    }

    /// The host with its most recent heartbeat.
    pub fn with_last_heartbeat(self, at: Timestamp) -> (r: Host)
        ensures
            r == (Host { last_heartbeat: Some(at), ..self }),
    {
        Host {
            id: self.id,
            os: self.os,
            last_heartbeat: Some(at),
            agent_version: self.agent_version,
        }
    }

    /// The host with its agent's version.
    pub fn with_agent_version(self, version: String) -> (r: Host)
        ensures
            r == (Host { agent_version: Some(version), ..self }),
    {
        Host {
            id: self.id,
            os: self.os,
            last_heartbeat: self.last_heartbeat,
            agent_version: Some(version),
        }
    }
}

/// Which hosts a rule or query applies to.
#[derive(Debug, PartialEq, Eq)]
pub enum HostSelector {
    /// Every host the backend reports.
    All,
    /// Exactly one host.
    Host(HostId),
    /// Any of a set. An empty set matches nothing.
    AnyOf(Vec<HostId>),
}

/// The hosts a selector names.
pub enum SelectorView {
    All,
    Host(Seq<char>),
    AnyOf(Seq<Seq<char>>),
}

/// The identifiers of a list of hosts.
pub open spec fn host_names(ids: Seq<HostId>) -> Seq<Seq<char>> {
    Seq::new(ids.len(), |i: int| ids[i]@)
}

impl SelectorView {
    /// Whether the selector covers a host.
    pub open spec fn covers(self, host: Seq<char>) -> bool {
        match self {
            SelectorView::All => true,
            SelectorView::Host(id) => id == host,
            SelectorView::AnyOf(ids) => ids.contains(host),
        }
    }
}

impl View for HostSelector {
    type V = SelectorView;

    open spec fn view(&self) -> SelectorView {
        match self {
            HostSelector::All => SelectorView::All,
            HostSelector::Host(id) => SelectorView::Host(id@),
            HostSelector::AnyOf(ids) => SelectorView::AnyOf(host_names(ids@)),
        }
    }
}

/// Copies a list of host identifiers.
pub fn clone_hosts(ids: &Vec<HostId>) -> (r: Vec<HostId>)
    ensures
        r@ == ids@,
{
    let mut out: Vec<HostId> = Vec::new();
    let mut i: usize = 0;
    while i < ids.len()
        invariant
            i <= ids@.len(),
            out@ == ids@.take(i as int),
        decreases ids@.len() - i,
    {
        out.push(ids[i].clone());
        i += 1;
        assert(out@ =~= ids@.take(i as int));
    }
    assert(out@ =~= ids@);
    out
}

impl HostSelector {
    /// Whether the selector covers a host.
    pub fn matches(&self, host: &HostId) -> (r: bool)
        ensures
            r == self@.covers(host@),
    {
        match self {
            HostSelector::All => true,
            HostSelector::Host(id) => id.same(host),
            HostSelector::AnyOf(ids) => {
                let mut i: usize = 0;
                while i < ids.len()
                    invariant
                        i <= ids@.len(),
                        self@ == SelectorView::AnyOf(host_names(ids@)),
                        forall|k: int| 0 <= k < i ==> #[trigger] ids@[k]@ != host@,
                    decreases ids@.len() - i,
                {
                    if ids[i].same(host) {
                        assert(host_names(ids@)[i as int] == host@);
                        return true;
                    }
                    i += 1;
                }
                proof {
                    if host_names(ids@).contains(host@) {
                        let k = choose|k: int| 0 <= k < ids@.len() && host_names(ids@)[k] == host@;
                        assert(ids@[k]@ == host@);
                    }
                }
                false
            },
        }
    }
}

impl Clone for HostSelector {
    fn clone(&self) -> (r: HostSelector)
        ensures
            r@ == self@,
    {
        match self {
            HostSelector::All => HostSelector::All,
            HostSelector::Host(id) => HostSelector::Host(id.clone()),
            HostSelector::AnyOf(ids) => HostSelector::AnyOf(clone_hosts(ids)),
        }
    }
}

impl Default for HostSelector {
    fn default() -> (r: HostSelector)
        ensures
            r == HostSelector::All,
    {
        HostSelector::All
    }
}

/// A selector covers every host, the host it names, or those it lists, and no other.
pub proof fn selectors_cover_whom_they_name(host: Seq<char>, id: Seq<char>, ids: Seq<Seq<char>>)
    ensures
        SelectorView::All.covers(host),
        SelectorView::Host(id).covers(host) <==> id == host,
        SelectorView::AnyOf(ids).covers(host) <==> exists|i: int|
            0 <= i < ids.len() && #[trigger] ids[i] == host,
{
}

/// A selector says of its hosts what it holds: their names, in their order.
pub proof fn selector_views_name_their_hosts(ids: Seq<HostId>, selector: HostSelector)
    ensures
        selector is All <==> selector@ == SelectorView::All,
        selector is Host ==> selector@ == SelectorView::Host(selector->Host_0@),
        selector is AnyOf ==> selector@ == SelectorView::AnyOf(host_names(selector->AnyOf_0@)),
        host_names(ids).len() == ids.len(),
        forall|i: int| 0 <= i < ids.len() ==> #[trigger] host_names(ids)[i] == ids[i]@,
{
}

/// The family is read from the word alone: `darwin` and `macos` are one, and a word
/// that names none of the three is another system.
pub proof fn os_families_go_by_their_words(value: Seq<char>)
    ensures
        ({
            let word = text::lowered(value);
            &&& OsFamily::family_of(value) == OsFamily::Linux <==> word == "linux"@
            &&& OsFamily::family_of(value) == OsFamily::Darwin <==> word == "darwin"@ || word
                == "macos"@
            &&& OsFamily::family_of(value) == OsFamily::Windows <==> word == "windows"@
            &&& OsFamily::family_of(value) == OsFamily::Other <==> word != "linux"@ && word
                != "darwin"@ && word != "macos"@ && word != "windows"@
        }),
{
    reveal_strlit("linux");
    reveal_strlit("darwin");
    reveal_strlit("macos");
    reveal_strlit("windows");
    assert("linux"@.len() == 5 && "darwin"@.len() == 6 && "macos"@.len() == 5 && "windows"@.len()
        == 7);
    assert("linux"@[0] == 'l' && "macos"@[0] == 'm');
}

/// Each family has a word of its own.
pub proof fn os_words_are_their_own(family: OsFamily)
    ensures
        family.value_text() == "linux"@ <==> family == OsFamily::Linux,
        family.value_text() == "darwin"@ <==> family == OsFamily::Darwin,
        family.value_text() == "windows"@ <==> family == OsFamily::Windows,
        family.value_text() == "other"@ <==> family == OsFamily::Other,
{
    reveal_strlit("linux");
    reveal_strlit("darwin");
    reveal_strlit("windows");
    reveal_strlit("other");
    assert("linux"@.len() == 5 && "darwin"@.len() == 6 && "windows"@.len() == 7 && "other"@.len()
        == 5);
    assert("linux"@[0] == 'l' && "other"@[0] == 'o');
}

} // verus!
