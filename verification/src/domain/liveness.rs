//! Liveness derived from heartbeat age.
//!
//! A host is judged by how old its most recent heartbeat is relative to the
//! interval the agent claims to beat at. There are two thresholds rather than one
//! so that a single missed export does not read as an outage.

use crate::domain::error::CoreError;
use crate::text;
use crate::time;
use crate::time::{TimeDelta, Timestamp};
use vstd::prelude::*;

verus! {

/// How alive a host looks right now.
#[derive(Debug, Clone, Copy, PartialEq, Eq, Hash, Structural)]
pub enum Liveness {
    /// Beating on schedule.
    Alive,
    /// Late, but not late enough to call it.
    Stale,
    /// Silent long enough to treat as down.
    Down,
    /// No heartbeat at all in the queried window. Distinct from
    /// [`Liveness::Down`], which is a positive judgement.
    Unknown,
}

impl Liveness {
    /// Whether this state should raise attention in the UI.
    pub fn is_degraded(self) -> (r: bool)
        ensures
            r == (self == Liveness::Stale || self == Liveness::Down),
    {
        matches!(self, Liveness::Stale | Liveness::Down)
    }
}

/// The rule for turning heartbeat age into [`Liveness`].
#[derive(Debug, Clone, Copy, PartialEq, Eq, Structural)]
pub struct LivenessPolicy {
    heartbeat_interval: TimeDelta,
    stale_after_intervals: u32,
    down_after_intervals: u32,
}

/// A policy as it is stored: nothing has checked it yet.
#[derive(Debug, Clone, Copy, PartialEq, Eq, Structural)]
pub struct LivenessPolicyWire {
    pub heartbeat_interval: TimeDelta,
    pub stale_after_intervals: u32,
    pub down_after_intervals: u32,
}

impl LivenessPolicyWire {
    /// Whether the interval is positive and the multipliers are positive and
    /// ordered.
    pub open spec fn valid(self) -> bool {
        &&& self.heartbeat_interval.total() > 0
        &&& self.stale_after_intervals > 0
        &&& self.down_after_intervals > 0
        &&& self.stale_after_intervals < self.down_after_intervals
    }

    /// Why the policy is refused.
    pub open spec fn complaint(self) -> Seq<char> {
        if self.heartbeat_interval.total() <= 0 {
            "heartbeat interval must be positive"@
        } else if self.stale_after_intervals == 0 || self.down_after_intervals == 0 {
            "interval multipliers must be at least 1"@
        } else {
            "stale threshold ("@ + text::numeral(self.stale_after_intervals as nat)
                + ") must be below down threshold ("@ + text::numeral(
                self.down_after_intervals as nat,
            ) + ")"@
        }
    }
}

/// A multiplier, cut down to what a span can be multiplied by.
pub open spec fn clamped(multiplier: int) -> int {
    if multiplier > i32::MAX {
        i32::MAX as int
    } else {
        multiplier
    }
}

/// Whether so many intervals are too long to hold.
pub open spec fn saturates(interval: int, multiplier: int) -> bool {
    interval * clamped(multiplier) >= i64::MAX * time::NANOS_PER_SEC
}

/// So many intervals, in nanoseconds. A product that is too long to hold gives
/// way to the longest span there is a constructor for.
pub open spec fn scaled(interval: int, multiplier: int) -> int {
    if saturates(interval, multiplier) {
        time::max_total()
    } else {
        interval * clamped(multiplier)
    }
}

/// The judgement on a heartbeat of an age, in nanoseconds.
pub open spec fn judged(age: int, stale: int, down: int) -> Liveness {
    if age <= stale {
        Liveness::Alive
    } else if age <= down {
        Liveness::Stale
    } else {
        Liveness::Down
    }
}

fn scale(interval: TimeDelta, multiplier: u32) -> (r: TimeDelta)
    requires
        interval.total() > 0,
    ensures
        r.in_balance(),
        r.total() == scaled(interval.total(), multiplier as int),
{
    let times: u32 = if multiplier > i32::MAX as u32 {
        i32::MAX as u32
    } else {
        multiplier
    };
    match interval.checked_mul(times) {
        Some(product) => product,
        None => TimeDelta::longest(),
    }
}

impl LivenessPolicy {
    #[verifier::type_invariant]
    pub closed spec fn valid(self) -> bool {
        self@.valid()
    }

    /// Builds a policy. The interval must be positive, and the multipliers must
    /// be at least 1, the stale one below the down one.
    pub fn new(
        heartbeat_interval: TimeDelta,
        stale_after_intervals: u32,
        down_after_intervals: u32,
    ) -> (r: Result<LivenessPolicy, CoreError>)
        ensures
            ({
                let wire = LivenessPolicyWire {
                    heartbeat_interval,
                    stale_after_intervals,
                    down_after_intervals,
                };
                &&& r is Ok <==> wire.valid()
                &&& r matches Ok(policy) ==> policy@ == wire
                &&& r matches Err(e) ==> {
                    &&& e matches CoreError::InvalidRule(why)
                    &&& why@ == wire.complaint()
                }
            }),
    {
        if !TimeDelta::seconds(0).is_less(heartbeat_interval) {
            return Err(CoreError::InvalidRule("heartbeat interval must be positive".to_owned()));
        }
        if stale_after_intervals == 0 || down_after_intervals == 0 {
            return Err(
                CoreError::InvalidRule("interval multipliers must be at least 1".to_owned()),
            );
        }
        if stale_after_intervals >= down_after_intervals {
            let mut why = "stale threshold (".to_owned();
            why.append(text::numeral_of(stale_after_intervals as u64).as_str());
            why.append(") must be below down threshold (");
            why.append(text::numeral_of(down_after_intervals as u64).as_str());
            why.append(")");
            return Err(CoreError::InvalidRule(why));
        }
        Ok(LivenessPolicy { heartbeat_interval, stale_after_intervals, down_after_intervals })
    }

    /// The policy as it is stored, which restores to itself.
    pub fn to_wire(&self) -> (r: LivenessPolicyWire)
        ensures
            r == self@,
            r.valid(),
    {
        proof {
            use_type_invariant(self);
        }
        LivenessPolicyWire {
            heartbeat_interval: self.heartbeat_interval,
            stale_after_intervals: self.stale_after_intervals,
            down_after_intervals: self.down_after_intervals,
        }
    }

    /// How often the agent beats.
    pub fn heartbeat_interval(&self) -> (r: TimeDelta)
        ensures
            r == self@.heartbeat_interval,
            r.total() > 0,
    {
        proof {
            use_type_invariant(self);
        }
        self.heartbeat_interval
    }

    /// Age beyond which a host is [`Liveness::Stale`].
    pub fn stale_threshold(&self) -> (r: TimeDelta)
        ensures
            r.in_balance(),
            r.total() == self@.stale_total(),
            r.total() > 0,
    {
        proof {
            use_type_invariant(self);
            thresholds_are_positive(self@);
        }
        scale(self.heartbeat_interval, self.stale_after_intervals)
    }

    /// Age beyond which a host is [`Liveness::Down`].
    pub fn down_threshold(&self) -> (r: TimeDelta)
        ensures
            r.in_balance(),
            r.total() == self@.down_total(),
            r.total() > 0,
    {
        proof {
            use_type_invariant(self);
            thresholds_are_positive(self@);
        }
        scale(self.heartbeat_interval, self.down_after_intervals)
    }

    /// Judges a host from the timestamp of its most recent heartbeat. One from the
    /// future is alive, however the clock counts the seconds in between.
    pub fn evaluate(&self, last_heartbeat: Option<Timestamp>, now: Timestamp) -> (r: Liveness)
        ensures
            r == self@.judgement(last_heartbeat, now),
    {
        match last_heartbeat {
            None => Liveness::Unknown,
            Some(last) => {
                if !last.is_before(now) {
                    return Liveness::Alive;
                }
                let age = now.signed_duration_since(last);
                if !self.stale_threshold().is_less(age) {
                    Liveness::Alive
                } else if !self.down_threshold().is_less(age) {
                    Liveness::Stale
                } else {
                    Liveness::Down
                }
            },
        }
    }
}

impl vstd::std_specs::convert::TryFromSpecImpl<LivenessPolicyWire> for LivenessPolicy {
    open spec fn obeys_try_from_spec() -> bool {
        false
    }

    open spec fn try_from_spec(wire: LivenessPolicyWire) -> Result<LivenessPolicy, CoreError> {
        arbitrary()
    }
}

impl TryFrom<LivenessPolicyWire> for LivenessPolicy {
    type Error = CoreError;

    /// Restores a stored policy, held to what [`LivenessPolicy::new`] asks.
    fn try_from(wire: LivenessPolicyWire) -> (r: Result<LivenessPolicy, CoreError>)
        ensures
            r is Ok <==> wire.valid(),
            r matches Ok(policy) ==> policy@ == wire,
            r matches Err(e) ==> {
                &&& e matches CoreError::InvalidRule(why)
                &&& why@ == wire.complaint()
            },
    {
        LivenessPolicy::new(
            wire.heartbeat_interval,
            wire.stale_after_intervals,
            wire.down_after_intervals,
        )
    }
}

impl View for LivenessPolicy {
    type V = LivenessPolicyWire;

    closed spec fn view(&self) -> LivenessPolicyWire {
        LivenessPolicyWire {
            heartbeat_interval: self.heartbeat_interval,
            stale_after_intervals: self.stale_after_intervals,
            down_after_intervals: self.down_after_intervals,
        }
    }
}

impl LivenessPolicyWire {
    /// The stale threshold, in nanoseconds.
    pub open spec fn stale_total(self) -> int {
        scaled(self.heartbeat_interval.total(), self.stale_after_intervals as int)
    }

    /// The down threshold, in nanoseconds.
    pub open spec fn down_total(self) -> int {
        scaled(self.heartbeat_interval.total(), self.down_after_intervals as int)
    }

    /// The judgement on a host whose last heartbeat is known or not. One that is not in
    /// the past is alive; any other is judged by its age.
    pub open spec fn judgement(self, last_heartbeat: Option<Timestamp>, now: Timestamp) -> Liveness {
        match last_heartbeat {
            None => Liveness::Unknown,
            Some(last) => if now.le(last) {
                Liveness::Alive
            } else {
                judged(now.nanos_since(last), self.stale_total(), self.down_total())
            },
        }
    }
}

impl Default for LivenessPolicy {
    /// A 30-second beat, stale at 3 missed intervals, down at 5.
    fn default() -> (r: LivenessPolicy)
        ensures
            r@.heartbeat_interval.total() == 30 * time::NANOS_PER_SEC,
            r@.heartbeat_interval.in_balance(),
            r@.stale_after_intervals == 3,
            r@.down_after_intervals == 5,
    {
        LivenessPolicy {
            heartbeat_interval: TimeDelta::seconds(30),
            stale_after_intervals: 3,
            down_after_intervals: 5,
        }
    }
}

proof fn lemma_scaled_is_positive(interval: int, multiplier: int)
    requires
        interval > 0,
        multiplier > 0,
    ensures
        scaled(interval, multiplier) > 0,
{
    assert(interval * clamped(multiplier) > 0) by (nonlinear_arith)
        requires
            interval > 0,
            clamped(multiplier) > 0,
    ;
}

/// Both thresholds of a valid policy are positive.
pub proof fn thresholds_are_positive(policy: LivenessPolicyWire)
    requires
        policy.valid(),
    ensures
        policy.stale_total() > 0,
        policy.down_total() > 0,
{
    lemma_scaled_is_positive(
        policy.heartbeat_interval.total(),
        policy.stale_after_intervals as int,
    );
    lemma_scaled_is_positive(
        policy.heartbeat_interval.total(),
        policy.down_after_intervals as int,
    );
}

/// A heartbeat from the future reads as alive: modest clock skew is not evidence
/// of an outage.
pub proof fn future_heartbeats_are_alive(policy: LivenessPolicyWire, last: Timestamp, now: Timestamp)
    requires
        now.le(last),
    ensures
        policy.judgement(Some(last), now) == Liveness::Alive,
{
}

/// A host without a heartbeat is unknown, and only such a host is.
pub proof fn only_silence_is_unknown(
    policy: LivenessPolicyWire,
    last: Option<Timestamp>,
    now: Timestamp,
)
    ensures
        policy.judgement(last, now) == Liveness::Unknown <==> last is None,
{
}

/// As a heartbeat ages, the judgement on it never improves.
pub proof fn judgement_worsens_with_age(age: int, older: int, stale: int, down: int)
    requires
        age <= older,
    ensures
        judged(older, stale, down) == Liveness::Alive ==> judged(age, stale, down)
            == Liveness::Alive,
        judged(age, stale, down) == Liveness::Down ==> judged(older, stale, down)
            == Liveness::Down,
{
}

/// A threshold that gave way to the longest span lies beyond any age that two
/// instants can be apart, as the exact product would: it answers every comparison
/// alike.
pub proof fn saturation_answers_alike(interval: int, multiplier: int, last: Timestamp, now: Timestamp)
    requires
        last.on_calendar(),
        now.on_calendar(),
    ensures
        now.nanos_since(last) <= scaled(interval, multiplier) <==> now.nanos_since(last) <= interval
            * clamped(multiplier),
{
    time::timestamp_is_its_fields(now, now);
    time::timestamp_is_its_fields(last, last);
}

/// The stale threshold is not beyond the down threshold, unless the down product
/// alone is too long to hold and the stale one is past the longest span.
pub proof fn thresholds_are_ordered(policy: LivenessPolicyWire)
    requires
        policy.valid(),
        !(saturates(policy.heartbeat_interval.total(), policy.down_after_intervals as int)
            && policy.stale_total() > time::max_total()),
    ensures
        policy.stale_total() <= policy.down_total(),
{
    let interval = policy.heartbeat_interval.total();
    let stale = clamped(policy.stale_after_intervals as int);
    let down = clamped(policy.down_after_intervals as int);
    assert(interval * stale <= interval * down) by (nonlinear_arith)
        requires
            interval > 0,
            stale <= down,
    ;
}

/// A heartbeat in the past is judged by its age against the two thresholds: alive up to
/// the stale one, down past the down one, and stale in between.
pub proof fn age_is_held_against_the_thresholds(
    policy: LivenessPolicyWire,
    last: Timestamp,
    now: Timestamp,
)
    requires
        last.lt(now),
    ensures
        policy.judgement(Some(last), now) == Liveness::Alive <==> now.nanos_since(last)
            <= policy.stale_total(),
        policy.stale_total() <= policy.down_total() ==> {
            &&& policy.judgement(Some(last), now) == Liveness::Down <==> now.nanos_since(last)
                > policy.down_total()
            &&& policy.judgement(Some(last), now) == Liveness::Stale <==> policy.stale_total()
                < now.nanos_since(last) <= policy.down_total()
        },
{
}

/// The thresholds are the interval times each multiplier. A multiplier counts for at
/// most 2 147 483 647, and a product of 2^63 - 1 seconds or more gives way to the
/// longest span, 2^63 - 1 milliseconds.
pub proof fn thresholds_are_intervals_times_multipliers(policy: LivenessPolicyWire)
    ensures
        ({
            let interval = policy.heartbeat_interval.total();
            let stale = if policy.stale_after_intervals > 2_147_483_647 {
                2_147_483_647int
            } else {
                policy.stale_after_intervals as int
            };
            let down = if policy.down_after_intervals > 2_147_483_647 {
                2_147_483_647int
            } else {
                policy.down_after_intervals as int
            };
            let limit = 9_223_372_036_854_775_807 * 1_000_000_000;
            let longest = 9_223_372_036_854_775_807 * 1_000_000;
            &&& interval * stale < limit ==> policy.stale_total() == interval * stale
            &&& interval * stale >= limit ==> policy.stale_total() == longest
            &&& interval * down < limit ==> policy.down_total() == interval * down
            &&& interval * down >= limit ==> policy.down_total() == longest
        }),
{
}

/// A host is alive for as many intervals as its policy says and down after as many as
/// it says, to the nanosecond, wherever the two products can be held.
pub proof fn silence_is_counted_in_intervals(
    policy: LivenessPolicyWire,
    last: Timestamp,
    now: Timestamp,
)
    requires
        policy.valid(),
        policy.down_after_intervals <= 2_147_483_647,
        policy.heartbeat_interval.total() * policy.down_after_intervals < 9_223_372_036_854_775_807
            * 1_000_000_000,
        last.lt(now),
    ensures
        policy.judgement(Some(last), now) == Liveness::Alive <==> now.nanos_since(last)
            <= policy.heartbeat_interval.total() * policy.stale_after_intervals,
        policy.judgement(Some(last), now) == Liveness::Down <==> now.nanos_since(last)
            > policy.heartbeat_interval.total() * policy.down_after_intervals,
{
    let interval = policy.heartbeat_interval.total();
    assert(interval * policy.stale_after_intervals <= interval * policy.down_after_intervals)
        by (nonlinear_arith)
        requires
            interval > 0,
            policy.stale_after_intervals < policy.down_after_intervals,
    ;
}

/// A policy is refused where its interval is not positive, where a multiplier is zero,
/// or where the stale one is not below the down one: the first of these that holds is
/// the reason.
pub proof fn policies_are_refused_for_a_reason(policy: LivenessPolicyWire)
    ensures
        ({
            let interval = policy.heartbeat_interval.total();
            let stale = policy.stale_after_intervals;
            let down = policy.down_after_intervals;
            &&& policy.valid() <==> interval > 0 && 1 <= stale < down
            &&& interval <= 0 ==> policy.complaint() == "heartbeat interval must be positive"@
            &&& interval > 0 && (stale == 0 || down == 0) ==> policy.complaint()
                == "interval multipliers must be at least 1"@
            &&& interval > 0 && 0 < down <= stale ==> policy.complaint() == "stale threshold ("@
                + text::numeral(stale as nat) + ") must be below down threshold ("@
                + text::numeral(down as nat) + ")"@
        }),
{
}

} // verus!
