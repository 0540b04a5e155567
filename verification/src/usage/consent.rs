//! Whether to report at all.
//!
//! Reporting is opt-out: absent a decision, it is on. That makes the defaults
//! load-bearing, so they are one function. Nothing constructs a transport until
//! [`Consent::resolve`] has returned [`Consent::Granted`].

use crate::text;
use crate::text_map::TextMap;
use vstd::prelude::*;

verus! {

/// The standard opt-out signal.
pub const DO_NOT_TRACK: &'static str = "DO_NOT_TRACK";

/// Pessimal's own override, for a host where `DO_NOT_TRACK` would be too broad a
/// brush.
pub const OPT_OUT_VAR: &'static str = "PESSIMAL_USAGE_REPORTING";

/// Set by essentially every CI provider. Build agents are not users.
pub const CI: &'static str = "CI";

/// The answer, and, when it is no, why.
#[derive(Debug, Clone, Copy, PartialEq, Eq, Structural)]
pub enum Consent {
    Granted,
    Denied(DenialReason),
}

/// Why reporting is off.
#[derive(Debug, Clone, Copy, PartialEq, Eq, Structural)]
pub enum DenialReason {
    /// The user or operator turned it off.
    OptedOut,
    /// `DO_NOT_TRACK` is set to something other than `0`.
    DoNotTrack,
    /// Running under CI.
    ContinuousIntegration,
    /// The build carries no destination, which is every build except an official
    /// release.
    NoDestination,
}

/// The environment, as a map.
pub type Env = Map<Seq<char>, Seq<char>>;

/// A variable's value without surrounding white space and in lower case.
pub open spec fn tidy(value: Seq<char>) -> Seq<char> {
    text::lowered(text::trimmed(value))
}

/// Whether a value is one of the spellings of "not set".
pub open spec fn is_falsy(value: Seq<char>) -> bool {
    value == ""@ || value == "0"@ || value == "false"@ || value == "no"@ || value == "off"@
}

/// Whether a value is one of the spellings of "off".
pub open spec fn is_off(value: Seq<char>) -> bool {
    value == "0"@ || value == "false"@ || value == "no"@ || value == "off"@ || value == "disabled"@
}

/// Whether a variable is present and set: anything but the spellings of "not set"
/// counts, because whoever typed `DO_NOT_TRACK=yes` meant it.
pub open spec fn is_truthy(env: Env, name: Seq<char>) -> bool {
    env.dom().contains(name) && !is_falsy(tidy(env[name]))
}

/// Whether a variable is present and says off.
pub open spec fn says_off(env: Env, name: Seq<char>) -> bool {
    env.dom().contains(name) && is_off(tidy(env[name]))
}

/// The answer to every signal together.
pub open spec fn resolved(opted_out: bool, has_destination: bool, env: Env) -> Consent {
    if !has_destination {
        Consent::Denied(DenialReason::NoDestination)
    } else if opted_out || says_off(env, OPT_OUT_VAR@) {
        Consent::Denied(DenialReason::OptedOut)
    } else if is_truthy(env, DO_NOT_TRACK@) {
        Consent::Denied(DenialReason::DoNotTrack)
    } else if is_truthy(env, CI@) {
        Consent::Denied(DenialReason::ContinuousIntegration)
    } else {
        Consent::Granted
    }
}

impl Consent {
    /// Resolves every signal. Order matters only for which reason is reported, not
    /// for the answer: any one denial is decisive.
    ///
    /// `opted_out` is the user's own setting, and `has_destination` is whether the
    /// build was given an endpoint and credential at all.
    pub fn resolve(opted_out: bool, has_destination: bool, env: &TextMap) -> (r: Consent)
        ensures
            r == resolved(opted_out, has_destination, env@),
    {
        if !has_destination {
            return Consent::Denied(DenialReason::NoDestination);
        }
        if opted_out || env_says_off(env, OPT_OUT_VAR) {
            return Consent::Denied(DenialReason::OptedOut);
        }
        if env_is_truthy(env, DO_NOT_TRACK) {
            return Consent::Denied(DenialReason::DoNotTrack);
        }
        if env_is_truthy(env, CI) {
            return Consent::Denied(DenialReason::ContinuousIntegration);
        }
        Consent::Granted
    }

    /// Whether the answer is yes.
    pub fn is_granted(self) -> (r: bool)
        ensures
            r == (self == Consent::Granted),
    {
        matches!(self, Consent::Granted)
    }
}

fn env_is_truthy(env: &TextMap, name: &str) -> (r: bool)
    ensures
        r == is_truthy(env@, name@),
{
    match env.get(name) {
        None => false,
        Some(value) => {
            let value = text::to_lower(text::trim(value.as_str()).as_str());
            let value = value.as_str();
            !(text::same(value, "") || text::same(value, "0") || text::same(value, "false")
                || text::same(value, "no") || text::same(value, "off"))
        },
    }
}

fn env_says_off(env: &TextMap, name: &str) -> (r: bool)
    ensures
        r == says_off(env@, name@),
{
    match env.get(name) {
        None => false,
        Some(value) => {
            let value = text::to_lower(text::trim(value.as_str()).as_str());
            let value = value.as_str();
            text::same(value, "0") || text::same(value, "false") || text::same(value, "no")
                || text::same(value, "off") || text::same(value, "disabled")
        },
    }
}

/// Any one denial is decisive: reporting is granted exactly when there is a
/// destination and no signal is against it.
pub proof fn any_denial_is_decisive(opted_out: bool, has_destination: bool, env: Env)
    ensures
        resolved(opted_out, has_destination, env) == Consent::Granted <==> has_destination
            && !opted_out && !says_off(env, OPT_OUT_VAR@) && !is_truthy(env, DO_NOT_TRACK@)
            && !is_truthy(env, CI@),
{
}

/// Absent any decision, a build with a destination reports.
pub proof fn reporting_is_opt_out(env: Env)
    requires
        !env.dom().contains(OPT_OUT_VAR@),
        !env.dom().contains(DO_NOT_TRACK@),
        !env.dom().contains(CI@),
    ensures
        resolved(false, true, env) == Consent::Granted,
{
}

/// Without a destination that is the reason reported, whatever else is set.
pub proof fn missing_destination_outranks(opted_out: bool, env: Env)
    ensures
        resolved(opted_out, false, env) == Consent::Denied(DenialReason::NoDestination),
{
}

/// Whether a variable is set to something, once white space around it and the case of
/// its letters are put aside.
pub open spec fn set_to(env: Env, name: Seq<char>, word: Seq<char>) -> bool {
    env.dom().contains(name) && text::lowered(text::trimmed(env[name])) == word
}

/// Consent is denied for the first reason there is: no destination, then the user's own
/// switch or variable, then `DO_NOT_TRACK`, then a build agent. Where there is none, it
/// is granted.
pub proof fn the_first_denial_is_the_reason(opted_out: bool, has_destination: bool, env: Env)
    ensures
        ({
            let switched_off = opted_out || set_to(env, "PESSIMAL_USAGE_REPORTING"@, "0"@)
                || set_to(env, "PESSIMAL_USAGE_REPORTING"@, "false"@) || set_to(
                env,
                "PESSIMAL_USAGE_REPORTING"@,
                "no"@,
            ) || set_to(env, "PESSIMAL_USAGE_REPORTING"@, "off"@) || set_to(
                env,
                "PESSIMAL_USAGE_REPORTING"@,
                "disabled"@,
            );
            let untracked = env.dom().contains("DO_NOT_TRACK"@) && !set_to(
                env,
                "DO_NOT_TRACK"@,
                ""@,
            ) && !set_to(env, "DO_NOT_TRACK"@, "0"@) && !set_to(env, "DO_NOT_TRACK"@, "false"@)
                && !set_to(env, "DO_NOT_TRACK"@, "no"@) && !set_to(env, "DO_NOT_TRACK"@, "off"@);
            let automated = env.dom().contains("CI"@) && !set_to(env, "CI"@, ""@) && !set_to(
                env,
                "CI"@,
                "0"@,
            ) && !set_to(env, "CI"@, "false"@) && !set_to(env, "CI"@, "no"@) && !set_to(
                env,
                "CI"@,
                "off"@,
            );
            let answer = resolved(opted_out, has_destination, env);
            &&& answer == Consent::Denied(DenialReason::NoDestination) <==> !has_destination
            &&& answer == Consent::Denied(DenialReason::OptedOut) <==> has_destination
                && switched_off
            &&& answer == Consent::Denied(DenialReason::DoNotTrack) <==> has_destination
                && !switched_off && untracked
            &&& answer == Consent::Denied(DenialReason::ContinuousIntegration) <==> has_destination
                && !switched_off && !untracked && automated
            &&& answer == Consent::Granted <==> has_destination && !switched_off && !untracked
                && !automated
        }),
{
}

} // verus!
