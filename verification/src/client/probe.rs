//! The "test connection" answer.

use crate::client::error::PollFailure;
use crate::domain::host::HostId;
use crate::domain::metric::TimeRange;
use vstd::prelude::*;

verus! {

/// What a "test connection" learned. `connected` with a `failure` is a distinct
/// outcome: the URL and key are fine and the roster query itself failed.
#[derive(Debug, Clone, PartialEq, Eq)]
pub struct BackendProbe {
    pub backend_name: String,
    pub connected: bool,
    pub failure: Option<PollFailure>,
    pub hosts_seen: u32,
    pub sample_hosts: Vec<HostId>,
    pub window: TimeRange,
}

impl BackendProbe {
    /// Whether something answered and at least one host was seen.
    pub open spec fn usable(self) -> bool {
        self.connected && self.hosts_seen > 0
    }

    /// Whether something answered and at least one host was seen. Both halves: a
    /// backend holding no data at all answers too.
    pub fn is_usable(&self) -> (r: bool)
        ensures
            r == self.usable(),
    {
        self.connected && self.hosts_seen > 0
    }
}

/// A backend is usable where it answered and showed a host.
pub proof fn usable_backends_show_hosts(probe: BackendProbe)
    ensures
        probe.usable() <==> probe.connected && probe.hosts_seen != 0,
{
}

} // verus!
