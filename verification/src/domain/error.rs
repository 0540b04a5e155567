//! What can go wrong in the domain.

use vstd::prelude::*;

verus! {

/// Errors the domain can raise. Adapter failures are folded into
/// [`CoreError::Backend`] with a human-readable message.
#[derive(Debug, Clone, PartialEq, Eq)]
pub enum CoreError {
    InvalidUrn(String),
    InvalidRule(String),
    InvalidTimeRange(String),
    UnknownMetric(String),
    RuleNotFound(String),
    Backend(String),
    Unauthorized,
    Unreachable(String),
}

impl CoreError {
    /// The error as a sentence.
    pub open spec fn message(self) -> Seq<char> {
        match self {
            CoreError::InvalidUrn(why) => "invalid URN: "@ + why@,
            CoreError::InvalidRule(why) => "invalid alert rule: "@ + why@,
            CoreError::InvalidTimeRange(why) => "invalid time range: "@ + why@,
            CoreError::UnknownMetric(what) => "unknown metric: "@ + what@,
            CoreError::RuleNotFound(id) => "no such alert rule: "@ + id@,
            CoreError::Backend(why) => "telemetry backend error: "@ + why@,
            CoreError::Unauthorized => "not authorised for the telemetry backend"@,
            CoreError::Unreachable(why) => "telemetry backend is unreachable: "@ + why@,
        }
    }

    /// The error as a sentence.
    pub fn to_string(&self) -> (r: String)
        ensures
            r@ == self.message(),
    {
        match self {
            CoreError::InvalidUrn(why) => "invalid URN: ".to_owned().concat(why.as_str()),
            CoreError::InvalidRule(why) => "invalid alert rule: ".to_owned().concat(why.as_str()),
            CoreError::InvalidTimeRange(why) => "invalid time range: ".to_owned().concat(
                why.as_str(),
            ),
            CoreError::UnknownMetric(what) => "unknown metric: ".to_owned().concat(what.as_str()),
            CoreError::RuleNotFound(id) => "no such alert rule: ".to_owned().concat(id.as_str()),
            CoreError::Backend(why) => "telemetry backend error: ".to_owned().concat(why.as_str()),
            CoreError::Unauthorized => "not authorised for the telemetry backend".to_owned(),
            CoreError::Unreachable(why) => "telemetry backend is unreachable: ".to_owned().concat(
                why.as_str(),
            ),
        }
    }
}

/// A domain error's sentence is introduced by what went wrong, and ends in the reason.
pub proof fn domain_errors_say_what_went_wrong(why: String)
    ensures
        CoreError::InvalidUrn(why).message() == "invalid URN: "@ + why@,
        CoreError::InvalidRule(why).message() == "invalid alert rule: "@ + why@,
        CoreError::InvalidTimeRange(why).message() == "invalid time range: "@ + why@,
        CoreError::UnknownMetric(why).message() == "unknown metric: "@ + why@,
        CoreError::RuleNotFound(why).message() == "no such alert rule: "@ + why@,
        CoreError::Backend(why).message() == "telemetry backend error: "@ + why@,
        CoreError::Unauthorized.message() == "not authorised for the telemetry backend"@,
        CoreError::Unreachable(why).message() == "telemetry backend is unreachable: "@ + why@,
{
}

} // verus!
