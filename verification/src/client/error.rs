//! What can go wrong in a client, thrown or recorded.

use crate::domain::metric::MetricKind;
use crate::time::Timestamp;
use vstd::prelude::*;

verus! {

/// Errors the client core can raise.
#[derive(Debug, Clone, PartialEq, Eq)]
pub enum ClientError {
    InvalidTuning(String),
    InvalidConfig(String),
    InvalidRule(String),
    InvalidUrn(String),
    InvalidTimeRange(String),
    UnknownMetric(String),
    RuleNotFound(String),
    UnknownHost(String),
    Backend(String),
    Unauthorized,
    Unreachable(String),
}

/// Why a request failed, coarse enough to route on.
#[derive(Debug, Clone, Copy, PartialEq, Eq, Hash, Structural)]
pub enum PollFailureKind {
    /// Credentials are missing, wrong, or expired.
    Unauthorized,
    /// The backend was never reached.
    Unreachable,
    /// The backend answered, unhappily.
    Backend,
    /// The backend answered something that could not be turned into domain values.
    Malformed,
}

impl PollFailureKind {
    /// Whether retrying cannot help and the user must change something.
    pub open spec fn actionable(self) -> bool {
        self == PollFailureKind::Unauthorized
    }

    /// Whether coming back later could plausibly succeed.
    pub open spec fn transient(self) -> bool {
        self == PollFailureKind::Unreachable || self == PollFailureKind::Backend
    }

    /// Whether retrying cannot help and the user must change something.
    pub fn is_actionable(self) -> (r: bool)
        ensures
            r == self.actionable(),
    {
        matches!(self, PollFailureKind::Unauthorized)
    }

    /// Whether coming back later could plausibly succeed.
    pub fn is_transient(self) -> (r: bool)
        ensures
            r == self.transient(),
    {
        matches!(self, PollFailureKind::Unreachable | PollFailureKind::Backend)
    }
}

/// Which request failed.
#[derive(Debug, Clone, Copy, PartialEq, Eq, Structural)]
pub enum FailureSource {
    /// The list of hosts.
    Roster,
    /// One metric query.
    Series { metric: MetricKind },
}

/// One failed request, as data on a view that still renders.
#[derive(Debug, Clone, PartialEq, Eq)]
pub struct PollFailure {
    pub kind: PollFailureKind,
    pub source: FailureSource,
    pub message: String,
    pub at: Timestamp,
}

/// Only a refused credential is the user's to mend; only an unreachable or an ailing
/// backend may come back by itself.
pub proof fn failures_call_for_what_they_are(kind: PollFailureKind)
    ensures
        kind.actionable() <==> kind == PollFailureKind::Unauthorized,
        kind.transient() <==> kind == PollFailureKind::Unreachable || kind
            == PollFailureKind::Backend,
{
}

} // verus!
