//! What one poll produced: the transitions worth a notification, the advice that says
//! when to come back, and what a cold start salvaged.

use crate::client::error::PollFailureKind;
use crate::domain::host::HostId;
use crate::domain::urn::Urn;
use crate::time::{TimeDelta, Timestamp};
use vstd::prelude::*;

verus! {

/// Where an alert stands.
#[derive(Debug, Clone, Copy, PartialEq, Eq, Hash, Structural)]
pub enum AlertPhase {
    Clear,
    Pending,
    Firing,
    NoData,
}

/// An alert crossing a phase boundary: the only thing worth waking a user for.
#[derive(Debug, Clone, PartialEq, Eq)]
pub struct AlertTransition {
    pub rule_id: Urn,
    pub rule_name: String,
    pub host: HostId,
    pub from: AlertPhase,
    pub to: AlertPhase,
    /// When the breach started, not when the alert fired.
    pub breaching_since: Option<Timestamp>,
    /// The poll instant the crossing was observed at.
    pub at: Timestamp,
}

/// Whether a crossing is the edge worth a notification.
pub open spec fn fires(from: AlertPhase, to: AlertPhase) -> bool {
    to == AlertPhase::Firing && from != AlertPhase::Firing
}

/// Whether a crossing is the edge worth withdrawing one: nothing looser than from
/// firing to clear, because a gap in the data drives a firing alert to no data and
/// back while it is still breaching.
pub open spec fn resolves(from: AlertPhase, to: AlertPhase) -> bool {
    from == AlertPhase::Firing && to == AlertPhase::Clear
}

impl AlertTransition {
    /// Whether this is the edge worth a notification.
    pub fn is_fire(&self) -> (r: bool)
        ensures
            r == fires(self.from, self.to),
    {
        matches!(self.to, AlertPhase::Firing) && !matches!(self.from, AlertPhase::Firing)
    }

    /// Whether this is the edge worth withdrawing one.
    pub fn is_resolve(&self) -> (r: bool)
        ensures
            r == resolves(self.from, self.to),
    {
        matches!(self.from, AlertPhase::Firing) && matches!(self.to, AlertPhase::Clear)
    }
}

/// A crossing never both fires and resolves, and one into or out of no data resolves
/// nothing.
pub proof fn edges_exclude_each_other(from: AlertPhase, to: AlertPhase)
    ensures
        !(fires(from, to) && resolves(from, to)),
        from == AlertPhase::NoData || to == AlertPhase::NoData ==> !resolves(from, to),
        from == to ==> !fires(from, to) && !resolves(from, to),
{
}

/// When to come back.
#[derive(Debug, Clone, PartialEq, Eq)]
pub enum PollAdvice {
    Poll { after: TimeDelta },
    Retry { after: TimeDelta, consecutive_failures: u32 },
    Stop { reason: PollFailureKind, message: String },
}

/// What a cold start could and could not salvage.
#[derive(Debug, Clone, Copy, PartialEq, Eq, Structural)]
pub struct RestoreReport {
    pub discarded_incompatible: bool,
    pub discarded_unreadable: bool,
    pub hosts_restored: u32,
    pub evaluations_restored: u32,
    pub saved_as_of: Option<Timestamp>,
}

/// An alert fires where it comes to firing from anything else, and resolves where it
/// comes from firing to clear. Losing its data is neither.
pub proof fn edges_are_what_they_are_named(from: AlertPhase, to: AlertPhase)
    ensures
        fires(from, to) <==> to == AlertPhase::Firing && (from == AlertPhase::Clear || from
            == AlertPhase::Pending || from == AlertPhase::NoData),
        resolves(from, to) <==> from == AlertPhase::Firing && to == AlertPhase::Clear,
{
}

} // verus!
