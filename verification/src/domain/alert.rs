//! Alert rules and their evaluation.
//!
//! An alert is a threshold on a metric that must hold continuously for a dwell
//! period before it fires. The dwell is what separates a real condition from a
//! single noisy sample, and it is why evaluation is stateful: [`AlertEvaluation`]
//! carries the instant the breach began across polls.

use crate::domain::error::CoreError;
use crate::domain::host::{HostId, HostSelector};
use crate::domain::metric;
use crate::domain::metric::{MetricKind, MetricPoint, MetricSeries};
use crate::domain::urn;
use crate::domain::urn::Urn;
use crate::ident;
use crate::ident::Uuid;
use crate::number::Number;
use crate::text;
use crate::time;
use crate::time::{TimeDelta, Timestamp};
use vstd::prelude::*;

verus! {

/// How a sample is compared against the threshold.
#[derive(Debug, Clone, Copy, PartialEq, Eq, Hash, Structural)]
pub enum Comparator {
    GreaterThan,
    GreaterThanOrEqual,
    LessThan,
    LessThanOrEqual,
}

impl Comparator {
    /// Whether a value stands in the comparator's relation to a threshold. No
    /// relation holds of a NaN.
    pub open spec fn holds(self, value: Number, threshold: Number) -> bool {
        match self {
            Comparator::GreaterThan => threshold.lt(value),
            Comparator::GreaterThanOrEqual => threshold.le(value),
            Comparator::LessThan => value.lt(threshold),
            Comparator::LessThanOrEqual => value.le(threshold),
        }
    }

    /// The comparator's sign, as characters.
    pub open spec fn symbol_text(self) -> Seq<char> {
        match self {
            Comparator::GreaterThan => ">"@,
            Comparator::GreaterThanOrEqual => ">="@,
            Comparator::LessThan => "<"@,
            Comparator::LessThanOrEqual => "<="@,
        }
    }

    /// Whether a value stands in the comparator's relation to a threshold.
    pub fn evaluate(self, value: Number, threshold: Number) -> (r: bool)
        ensures
            r == self.holds(value, threshold),
    {
        match self {
            Comparator::GreaterThan => threshold.less(value),
            Comparator::GreaterThanOrEqual => threshold.at_most(value),
            Comparator::LessThan => value.less(threshold),
            Comparator::LessThanOrEqual => value.at_most(threshold),
        }
    }

    /// The comparator's sign.
    pub fn symbol(self) -> (r: &'static str)
        ensures
            r@ == self.symbol_text(),
    {
        match self {
            Comparator::GreaterThan => ">",
            Comparator::GreaterThanOrEqual => ">=",
            Comparator::LessThan => "<",
            Comparator::LessThanOrEqual => "<=",
        }
    }
}

/// The longest dwell a rule may carry, in seconds: one year of 365 days. It keeps
/// the instant of a breach plus the dwell within what a timestamp can hold.
pub const MAX_DWELL_SECS: i64 = 31_536_000;

/// How long a breach must hold before its rule fires: at least nothing, at most a
/// year.
#[derive(Debug, Clone, Copy, PartialEq, Eq, Structural)]
pub struct Dwell {
    span: TimeDelta,
}

/// Whether a span of so many nanoseconds can be a dwell.
pub open spec fn is_dwell(total: int) -> bool {
    0 <= total <= MAX_DWELL_SECS * time::NANOS_PER_SEC
}

impl View for Dwell {
    type V = TimeDelta;

    closed spec fn view(&self) -> TimeDelta {
        self.span
    }
}

impl Dwell {
    #[verifier::type_invariant]
    pub closed spec fn bounded(self) -> bool {
        is_dwell(self.span.total())
    }

    /// A span as a dwell, or nothing where it is negative or too long.
    pub fn new(span: TimeDelta) -> (r: Option<Dwell>)
        ensures
            r is Some <==> is_dwell(span.total()),
            r matches Some(dwell) ==> dwell@ == span,
    {
        if span.is_less(TimeDelta::seconds(0)) || TimeDelta::seconds(MAX_DWELL_SECS).is_less(span) {
            None
        } else {
            Some(Dwell { span })
        }
    }

    /// The dwell as a span.
    pub fn span(&self) -> (r: TimeDelta)
        ensures
            r == self@,
            is_dwell(r.total()),
    {
        proof {
            use_type_invariant(self);
        }
        self.span
    }
}

/// A user-configured alert.
#[derive(Debug, PartialEq, Eq)]
pub struct AlertRule {
    pub id: Urn,
    pub name: String,
    pub metric: MetricKind,
    pub selector: HostSelector,
    pub comparator: Comparator,
    pub threshold: Number,
    /// How long the breach must hold before the rule fires. Zero fires on the
    /// first breaching sample.
    pub dwell: Dwell,
    pub enabled: bool,
}

impl AlertRule {
    /// Whether two rules say the same.
    pub open spec fn same(self, other: AlertRule) -> bool {
        &&& self.id@ == other.id@
        &&& self.name == other.name
        &&& self.metric == other.metric
        &&& self.selector@ == other.selector@
        &&& self.comparator == other.comparator
        &&& self.threshold == other.threshold
        &&& self.dwell == other.dwell
        &&& self.enabled == other.enabled
    }
}

impl Clone for AlertRule {
    fn clone(&self) -> (r: AlertRule)
        ensures
            r.same(*self),
    {
        AlertRule {
            id: self.id.clone(),
            name: self.name.clone(),
            metric: self.metric,
            selector: self.selector.clone(),
            comparator: self.comparator,
            threshold: self.threshold,
            dwell: self.dwell,
            enabled: self.enabled,
        }
    }
}

/// A rule as it is stored: nothing but its id has been checked yet.
#[derive(Debug, Clone, PartialEq, Eq)]
pub struct AlertRuleWire {
    pub id: Urn,
    pub name: String,
    pub metric: MetricKind,
    pub selector: HostSelector,
    pub comparator: Comparator,
    pub threshold: Number,
    pub for_duration: TimeDelta,
    pub enabled: bool,
}

/// A number that is not finite, as text.
pub open spec fn non_finite_text(value: Number) -> Seq<char> {
    if value.nan() {
        "NaN"@
    } else if value.is_negative_spec() {
        "-inf"@
    } else {
        "inf"@
    }
}

/// Why a rule of this name, threshold and dwell is refused, or nothing where it
/// is not.
pub open spec fn rule_complaint(name: Seq<char>, threshold: Number, dwell: int) -> Option<Seq<char>> {
    if text::trimmed(name).len() == 0 {
        Some("name must not be empty"@)
    } else if !threshold.finite() {
        Some("threshold "@ + non_finite_text(threshold) + " must be finite"@)
    } else if dwell < 0 {
        Some("for_duration must not be negative"@)
    } else if dwell > MAX_DWELL_SECS * time::NANOS_PER_SEC {
        Some(
            "for_duration "@ + text::decimal(dwell / (time::NANOS_PER_SEC as int))
                + "s exceeds the maximum dwell of "@ + text::decimal(MAX_DWELL_SECS as int)
                + "s, past which `since + for_duration` overflows the representable range of a timestamp"@,
        )
    } else {
        None
    }
}

/// Checks what a rule is made of, and turns its span into a dwell.
fn checked_dwell(name: &str, threshold: Number, for_duration: TimeDelta) -> (r: Result<
    Dwell,
    CoreError,
>)
    ensures
        match rule_complaint(name@, threshold, for_duration.total()) {
            Some(message) => r matches Err(CoreError::InvalidRule(why)) && why@ == message,
            None => r matches Ok(dwell) && dwell@ == for_duration,
        },
{
    if text::trim(name).as_str().is_empty() {
        return Err(CoreError::InvalidRule("name must not be empty".to_owned()));
    }
    if !threshold.is_finite() {
        let mut why = "threshold ".to_owned();
        if threshold.is_nan() {
            why.append("NaN");
        } else if threshold.is_negative() {
            why.append("-inf");
        } else {
            why.append("inf");
        }
        why.append(" must be finite");
        return Err(CoreError::InvalidRule(why));
    }
    if for_duration.is_less(TimeDelta::seconds(0)) {
        return Err(CoreError::InvalidRule("for_duration must not be negative".to_owned()));
    }
    match Dwell::new(for_duration) {
        Some(dwell) => Ok(dwell),
        None => {
            let mut why = "for_duration ".to_owned();
            why.append(text::decimal_of(for_duration.num_seconds()).as_str());
            why.append("s exceeds the maximum dwell of ");
            why.append(text::decimal_of(MAX_DWELL_SECS).as_str());
            why.append(
                "s, past which `since + for_duration` overflows the representable range of a timestamp",
            );
            Err(CoreError::InvalidRule(why))
        },
    }
}

impl AlertRule {
    /// The longest dwell a rule may carry.
    pub fn max_for_duration() -> (r: TimeDelta)
        ensures
            r.in_balance(),
            r.total() == MAX_DWELL_SECS * time::NANOS_PER_SEC,
    {
        TimeDelta::seconds(MAX_DWELL_SECS)
    }

    /// A new rule for every host, enabled, under a freshly minted id. The name
    /// must not be blank, the threshold must be finite, the dwell must be within
    /// bounds, and the environment must be usable as a URN segment.
    pub fn new(
        environment: &str,
        name: &str,
        metric: MetricKind,
        comparator: Comparator,
        threshold: Number,
        for_duration: TimeDelta,
    ) -> (r: Result<AlertRule, CoreError>)
        ensures
            match rule_complaint(name@, threshold, for_duration.total()) {
                Some(message) => r matches Err(CoreError::InvalidRule(why)) && why@ == message,
                None => if urn::is_segment(environment@) {
                    &&& r matches Ok(rule)
                    &&& rule.id@.valid()
                    &&& rule.id@.prefix == urn::DEFAULT_URN_PREFIX@
                    &&& rule.id@.environment == environment@
                    &&& rule.id@.service == "alerts"@
                    &&& rule.id@.model == "rule"@
                    &&& ident::is_version_7(rule.id@.id)
                    &&& rule.name@ == name@
                    &&& rule.metric == metric
                    &&& rule.selector == HostSelector::All
                    &&& rule.comparator == comparator
                    &&& rule.threshold == threshold
                    &&& rule.dwell@ == for_duration
                    &&& rule.enabled
                } else {
                    r matches Err(CoreError::InvalidUrn(why)) && why@ == urn::segment_message(
                        environment@,
                    )
                },
            },
    {
        let dwell = match checked_dwell(name, threshold, for_duration) {
            Ok(dwell) => dwell,
            Err(e) => return Err(e),
        };
        proof {
            lemma_rule_segments();
        }
        match Urn::with_id(environment, "alerts", "rule", Uuid::now_v7()) {
            Err(e) => Err(e),
            Ok(id) => Ok(
                AlertRule {
                    id,
                    name: name.to_owned(),
                    metric,
                    selector: HostSelector::All,
                    comparator,
                    threshold,
                    dwell,
                    enabled: true,
                },
            ),
        }
    }

    /// The rule as it is stored.
    pub fn to_wire(&self) -> (r: AlertRuleWire)
        ensures
            r.id@ == self.id@,
            r.name@ == self.name@,
            r.metric == self.metric,
            r.selector@ == self.selector@,
            r.comparator == self.comparator,
            r.threshold == self.threshold,
            r.for_duration == self.dwell@,
            is_dwell(r.for_duration.total()),
            r.enabled == self.enabled,
    {
        AlertRuleWire {
            id: self.id.clone(),
            name: self.name.clone(),
            metric: self.metric,
            selector: self.selector.clone(),
            comparator: self.comparator,
            threshold: self.threshold,
            for_duration: self.dwell.span(),
            enabled: self.enabled,
        }
    }

    /// The rule for other hosts.
    pub fn with_selector(self, selector: HostSelector) -> (r: AlertRule)
        ensures
            r == (AlertRule { selector, ..self }),
    {
        AlertRule {
            id: self.id,
            name: self.name,
            metric: self.metric,
            selector,
            comparator: self.comparator,
            threshold: self.threshold,
            dwell: self.dwell,
            enabled: self.enabled,
        }
    }

    /// The rule, switched off.
    pub fn disabled(self) -> (r: AlertRule)
        ensures
            r == (AlertRule { enabled: false, ..self }),
    {
        AlertRule {
            id: self.id,
            name: self.name,
            metric: self.metric,
            selector: self.selector,
            comparator: self.comparator,
            threshold: self.threshold,
            dwell: self.dwell,
            enabled: false,
        }
    }

    /// What the rule is named by.
    pub fn id(&self) -> (r: &Urn)
        ensures
            *r == self.id,
    {
        &self.id
    }

    /// How long a breach must hold.
    pub fn for_duration(&self) -> (r: TimeDelta)
        ensures
            r == self.dwell@,
            is_dwell(r.total()),
    {
        self.dwell.span()
    }

    /// Whether a single value breaches the threshold, ignoring dwell.
    pub fn breaches(&self, value: Number) -> (r: bool)
        ensures
            r == self.comparator.holds(value, self.threshold),
    {
        self.comparator.evaluate(value, self.threshold)
    }

    /// A one-line description, e.g. `CPU > 0.9 for 300s`, around the threshold's
    /// decimal form.
    pub fn describe(&self, threshold: &str) -> (r: String)
        ensures
            r@ == self.metric.label_text() + " "@ + self.comparator.symbol_text() + " "@ + threshold@
                + " for "@ + text::decimal(
                time::truncated(self.dwell@.total(), time::NANOS_PER_SEC as int),
            ) + "s"@,
    {
        let mut out = self.metric.display_name().to_owned();
        out.append(" ");
        out.append(self.comparator.symbol());
        out.append(" ");
        out.append(threshold);
        out.append(" for ");
        out.append(text::decimal_of(self.dwell.span().num_seconds()).as_str());
        out.append("s");
        out
    }
}

impl vstd::std_specs::convert::TryFromSpecImpl<AlertRuleWire> for AlertRule {
    open spec fn obeys_try_from_spec() -> bool {
        false
    }

    open spec fn try_from_spec(wire: AlertRuleWire) -> Result<AlertRule, CoreError> {
        arbitrary()
    }
}

impl TryFrom<AlertRuleWire> for AlertRule {
    type Error = CoreError;

    /// Restores a stored rule, held to what [`AlertRule::new`] asks. Its id is
    /// carried through rather than minted: a fresh id would orphan every
    /// evaluation keyed to it.
    fn try_from(wire: AlertRuleWire) -> (r: Result<AlertRule, CoreError>)
        ensures
            match rule_complaint(wire.name@, wire.threshold, wire.for_duration.total()) {
                Some(message) => r matches Err(CoreError::InvalidRule(why)) && why@ == message,
                None => r matches Ok(rule) && wire.restores_to(rule),
            },
    {
        match checked_dwell(wire.name.as_str(), wire.threshold, wire.for_duration) {
            Err(e) => Err(e),
            Ok(dwell) => Ok(
                AlertRule {
                    id: wire.id,
                    name: wire.name,
                    metric: wire.metric,
                    selector: wire.selector,
                    comparator: wire.comparator,
                    threshold: wire.threshold,
                    dwell,
                    enabled: wire.enabled,
                },
            ),
        }
    }
}

impl AlertRuleWire {
    /// Whether a rule has everything that was stored.
    pub open spec fn restores_to(self, rule: AlertRule) -> bool {
        &&& rule.id == self.id
        &&& rule.name == self.name
        &&& rule.metric == self.metric
        &&& rule.selector == self.selector
        &&& rule.comparator == self.comparator
        &&& rule.threshold == self.threshold
        &&& rule.dwell@ == self.for_duration
        &&& rule.enabled == self.enabled
    }
}

proof fn lemma_rule_segments()
    ensures
        urn::is_segment("alerts"@),
        urn::is_segment("rule"@),
{
    reveal_strlit("alerts");
    reveal_strlit("rule");
    assert forall|i: int| !#[trigger] urn::separator_at("alerts"@, i) by {}
    assert forall|i: int| !#[trigger] urn::separator_at("rule"@, i) by {}
}

/// Where a rule stands for one host.
#[derive(Debug, Clone, Copy, PartialEq, Eq, Structural)]
pub enum AlertState {
    /// Not breaching.
    Clear,
    /// Breaching, but the dwell period has not elapsed. Carries when the breach
    /// started.
    Pending { since: Timestamp },
    /// Breaching and past the dwell period. Carries when the breach started, not
    /// when it fired.
    Firing { since: Timestamp },
    /// No data for this host and metric: nothing to judge. Never fires; a silent
    /// host is liveness's business, not an alert's.
    NoData,
}

impl AlertState {
    /// When the current breach began.
    pub open spec fn breach(self) -> Option<Timestamp> {
        match self {
            AlertState::Pending { since } => Some(since),
            AlertState::Firing { since } => Some(since),
            AlertState::Clear => None,
            AlertState::NoData => None,
        }
    }

    /// Whether the rule fires.
    pub fn is_firing(self) -> (r: bool)
        ensures
            r == (self is Firing),
    {
        matches!(self, AlertState::Firing { .. })
    }

    /// When the current breach began, for `Pending` and `Firing`.
    pub fn breaching_since(self) -> (r: Option<Timestamp>)
        ensures
            r == self.breach(),
    {
        match self {
            AlertState::Pending { since } => Some(since),
            AlertState::Firing { since } => Some(since),
            AlertState::Clear => None,
            AlertState::NoData => None,
        }
    }
}

/// The sample that a rule judges at `now`: the newest one not after it, unless
/// that is older than `max_age`.
pub open spec fn evidence(points: Seq<MetricPoint>, now: Timestamp, max_age: TimeDelta) -> Option<
    MetricPoint,
> {
    match metric::last_at(points, now) {
        None => None,
        Some(point) => if now.nanos_since(point.at) > max_age.total() {
            None
        } else {
            Some(point)
        },
    }
}

/// Whether a rule applies to a host at all.
pub open spec fn applies(rule: AlertRule, host: Seq<char>) -> bool {
    rule.enabled && rule.selector@.covers(host)
}

/// Whether a breach has lasted for a rule's dwell by `now`: one under way since `breach`,
/// or one that begins with the sample `at`. Where there is no dwell, a breach that
/// begins has lasted for it, however the clock counts the time since its sample.
pub open spec fn dwelt(breach: Option<Timestamp>, at: Timestamp, now: Timestamp, dwell: int) -> bool {
    match breach {
        Some(since) => now.nanos_since(since) >= dwell,
        None => dwell == 0 || now.nanos_since(at) >= dwell,
    }
}

/// The state that follows `state` once a rule has seen the points of a host.
pub open spec fn observed(
    state: AlertState,
    rule: AlertRule,
    host: Seq<char>,
    points: Seq<MetricPoint>,
    now: Timestamp,
    max_age: TimeDelta,
) -> AlertState {
    if !applies(rule, host) {
        AlertState::Clear
    } else {
        match evidence(points, now, max_age) {
            None => AlertState::NoData,
            Some(point) => if rule.comparator.holds(point.value, rule.threshold) {
                let since = match state.breach() {
                    Some(since) => since,
                    None => point.at,
                };
                if dwelt(state.breach(), point.at, now, rule.dwell@.total()) {
                    AlertState::Firing { since }
                } else {
                    AlertState::Pending { since }
                }
            } else {
                AlertState::Clear
            },
        }
    }
}

/// A rule's running state for one host, carried across polls. The evaluation is a
/// value: the caller owns where it is stored.
#[derive(Debug, Clone, PartialEq, Eq)]
pub struct AlertEvaluation {
    pub rule_id: Urn,
    pub host: HostId,
    pub state: AlertState,
}

impl AlertEvaluation {
    /// The evaluation of a rule that has seen nothing of a host.
    pub fn new(rule_id: Urn, host: HostId) -> (r: AlertEvaluation)
        ensures
            r == (AlertEvaluation { rule_id, host, state: AlertState::NoData }),
    {
        AlertEvaluation { rule_id, host, state: AlertState::NoData }
    }

    /// Where the rule stands.
    pub fn state(&self) -> (r: AlertState)
        ensures
            r == self.state,
    {
        self.state
    }

    /// Folds one poll's worth of data into the state and returns the new state.
    ///
    /// `series` is the data fetched for this rule's metric and host, `now` is the
    /// evaluation instant, and `max_age` is how old the newest sample may be before
    /// it stops counting as evidence. Past that the rule reports
    /// [`AlertState::NoData`] rather than judging the host on a reading that has
    /// stopped being refreshed. A disabled rule resets to [`AlertState::Clear`].
    pub fn observe(
        &mut self,
        rule: &AlertRule,
        series: &MetricSeries,
        now: Timestamp,
        max_age: TimeDelta,
    ) -> (r: AlertState)
        ensures
            r == observed(old(self).state, *rule, old(self).host@, series.points@, now, max_age),
            *final(self) == (AlertEvaluation { state: r, ..*old(self) }),
    {
        if !rule.enabled || !rule.selector.matches(&self.host) {
            self.state = AlertState::Clear;
            return self.state;
        }
        let point = match series.latest_at(now) {
            None => {
                self.state = AlertState::NoData;
                return self.state;
            },
            Some(point) => point,
        };
        if max_age.is_less(now.signed_duration_since(point.at)) {
            self.state = AlertState::NoData;
            return self.state;
        }
        self.state = if rule.breaches(point.value) {
            let dwell = rule.for_duration();
            let breach = self.state.breaching_since();
            let begins = breach.is_none();
            let since = match breach {
                Some(since) => since,
                None => point.at,
            };
            let immediate = begins && !TimeDelta::seconds(0).is_less(dwell);
            if immediate || !now.signed_duration_since(since).is_less(dwell) {
                AlertState::Firing { since }
            } else {
                AlertState::Pending { since }
            }
        } else {
            AlertState::Clear
        };
        self.state
    }
}

/// A rule that is disabled, or that does not cover the host, is never pending or
/// firing, whatever went before.
pub proof fn rules_elsewhere_are_ok(
    state: AlertState,
    rule: AlertRule,
    host: Seq<char>,
    points: Seq<MetricPoint>,
    now: Timestamp,
    max_age: TimeDelta,
)
    requires
        !rule.enabled || !rule.selector@.covers(host),
    ensures
        observed(state, rule, host, points, now, max_age) == AlertState::Clear,
{
}

/// Without a sample that is recent enough, a rule that applies reports no data:
/// it does not fire, or keep firing, on a host nobody has heard from.
pub proof fn silence_is_no_data(
    state: AlertState,
    rule: AlertRule,
    host: Seq<char>,
    points: Seq<MetricPoint>,
    now: Timestamp,
    max_age: TimeDelta,
)
    requires
        applies(rule, host),
        forall|i: int|
            0 <= i < points.len() && (#[trigger] points[i]).at.le(now) ==> now.nanos_since(
                points[i].at,
            ) > max_age.total(),
    ensures
        observed(state, rule, host, points, now, max_age) == AlertState::NoData,
{
    lemma_last_at_is_a_point(points, now);
}

/// A rule fires exactly when it applies, a recent sample breaches, and the breach
/// has lasted for the dwell.
pub proof fn firing_takes_a_dwelt_breach(
    state: AlertState,
    rule: AlertRule,
    host: Seq<char>,
    points: Seq<MetricPoint>,
    now: Timestamp,
    max_age: TimeDelta,
)
    ensures
        observed(state, rule, host, points, now, max_age) is Firing <==> {
            &&& applies(rule, host)
            &&& evidence(points, now, max_age) matches Some(point)
            &&& rule.comparator.holds(point.value, rule.threshold)
            &&& dwelt(state.breach(), point.at, now, rule.dwell@.total())
        },
{
}

/// A breach under way keeps its start from one poll to the next, so that the
/// dwell accumulates rather than restarting on every observation.
pub proof fn dwell_accumulates(
    state: AlertState,
    rule: AlertRule,
    host: Seq<char>,
    points: Seq<MetricPoint>,
    now: Timestamp,
    max_age: TimeDelta,
)
    requires
        state.breach() is Some,
        observed(state, rule, host, points, now, max_age).breach() is Some,
    ensures
        observed(state, rule, host, points, now, max_age).breach() == state.breach(),
{
}

/// Once a poll has found no breach, the next breach starts over at its own
/// sample: neither a recovery nor a silence lets an earlier breach count.
pub proof fn recovery_clears_the_dwell(
    state: AlertState,
    rule: AlertRule,
    host: Seq<char>,
    points: Seq<MetricPoint>,
    now: Timestamp,
    max_age: TimeDelta,
)
    requires
        state.breach() is None,
    ensures
        observed(state, rule, host, points, now, max_age).breach() matches Some(since) ==> {
            &&& evidence(points, now, max_age) matches Some(point)
            &&& since == point.at
        },
{
}

/// A rule without a dwell fires on the first breaching sample.
pub proof fn zero_dwell_fires_at_once(
    state: AlertState,
    rule: AlertRule,
    host: Seq<char>,
    points: Seq<MetricPoint>,
    now: Timestamp,
    max_age: TimeDelta,
)
    requires
        state.breach() is None,
        applies(rule, host),
        rule.dwell@.total() == 0,
        evidence(points, now, max_age) matches Some(point) && rule.comparator.holds(
            point.value,
            rule.threshold,
        ),
    ensures
        observed(state, rule, host, points, now, max_age) == (AlertState::Firing {
            since: evidence(points, now, max_age)->0.at,
        }),
{
}

proof fn lemma_last_at_is_a_point(points: Seq<MetricPoint>, at: Timestamp)
    ensures
        metric::last_at(points, at) matches Some(point) ==> point.at.le(at) && points.contains(
            point,
        ),
    decreases points.len(),
{
    if points.len() > 0 {
        let front = points.drop_last();
        if points.last().at.le(at) {
            assert(points[points.len() - 1] == points.last());
        } else {
            lemma_last_at_is_a_point(front, at);
            if metric::last_at(front, at) is Some {
                let k = choose|k: int|
                    0 <= k < front.len() && front[k] == metric::last_at(front, at)->0;
                assert(points[k] == front[k]);
            }
        }
    }
}

/// The sample a rule judges is the last one that is not after `now`.
proof fn lemma_last_at_is(points: Seq<MetricPoint>, now: Timestamp, k: int)
    requires
        0 <= k < points.len(),
        points[k].at.le(now),
        forall|j: int| k < j < points.len() ==> now.lt((#[trigger] points[j]).at),
    ensures
        metric::last_at(points, now) == Some(points[k]),
    decreases points.len(),
{
    if k < points.len() - 1 {
        let front = points.drop_last();
        assert(points.last() == points[points.len() - 1]);
        assert forall|j: int| k < j < front.len() implies now.lt((#[trigger] front[j]).at) by {
            assert(front[j] == points[j]);
        }
        lemma_last_at_is(front, now, k);
    }
}

/// A breach under way fires once the time since it began is the rule's dwell or more,
/// and is pending for as long as it is less: no rule fires on a breach that has lasted
/// for less than its dwell, and none waits longer. `points[k]` is the newest sample
/// not after `now`.
pub proof fn a_breach_under_way_fires_once_it_has_dwelt(
    since: Timestamp,
    rule: AlertRule,
    host: Seq<char>,
    points: Seq<MetricPoint>,
    k: int,
    now: Timestamp,
    max_age: TimeDelta,
)
    requires
        rule.enabled,
        rule.selector@.covers(host),
        0 <= k < points.len(),
        points[k].at.le(now),
        forall|j: int| k < j < points.len() ==> now.lt((#[trigger] points[j]).at),
        now.nanos_since(points[k].at) <= max_age.total(),
        rule.comparator.holds(points[k].value, rule.threshold),
    ensures
        now.nanos_since(since) >= rule.dwell@.total() ==> {
            &&& observed(AlertState::Pending { since }, rule, host, points, now, max_age)
                == (AlertState::Firing { since })
            &&& observed(AlertState::Firing { since }, rule, host, points, now, max_age)
                == (AlertState::Firing { since })
        },
        now.nanos_since(since) < rule.dwell@.total() ==> {
            &&& observed(AlertState::Pending { since }, rule, host, points, now, max_age)
                == (AlertState::Pending { since })
            &&& observed(AlertState::Firing { since }, rule, host, points, now, max_age)
                == (AlertState::Pending { since })
        },
{
    lemma_last_at_is(points, now, k);
}

/// A breach that begins counts from its own sample: it fires at once where that is the
/// dwell or more ago, or where there is no dwell, and is pending otherwise.
pub proof fn a_breach_begins_at_its_sample(
    rule: AlertRule,
    host: Seq<char>,
    points: Seq<MetricPoint>,
    k: int,
    now: Timestamp,
    max_age: TimeDelta,
)
    requires
        rule.enabled,
        rule.selector@.covers(host),
        0 <= k < points.len(),
        points[k].at.le(now),
        forall|j: int| k < j < points.len() ==> now.lt((#[trigger] points[j]).at),
        now.nanos_since(points[k].at) <= max_age.total(),
        rule.comparator.holds(points[k].value, rule.threshold),
        rule.dwell@.total() >= 0,
    ensures
        ({
            let since = points[k].at;
            let from_clear = observed(AlertState::Clear, rule, host, points, now, max_age);
            let from_no_data = observed(AlertState::NoData, rule, host, points, now, max_age);
            &&& from_clear == from_no_data
            &&& rule.dwell@.total() == 0 ==> from_clear == (AlertState::Firing { since })
            &&& now.nanos_since(since) >= rule.dwell@.total() ==> from_clear == (
            AlertState::Firing { since })
            &&& rule.dwell@.total() > 0 && now.nanos_since(since) < rule.dwell@.total()
                ==> from_clear == (AlertState::Pending { since })
        }),
{
    lemma_last_at_is(points, now, k);
}

/// Whatever went before, a recent sample that does not breach clears the rule, and one
/// that is older than `max_age` is no data.
pub proof fn the_newest_sample_decides(
    state: AlertState,
    rule: AlertRule,
    host: Seq<char>,
    points: Seq<MetricPoint>,
    k: int,
    now: Timestamp,
    max_age: TimeDelta,
)
    requires
        rule.enabled,
        rule.selector@.covers(host),
        0 <= k < points.len(),
        points[k].at.le(now),
        forall|j: int| k < j < points.len() ==> now.lt((#[trigger] points[j]).at),
    ensures
        now.nanos_since(points[k].at) > max_age.total() ==> observed(
            state,
            rule,
            host,
            points,
            now,
            max_age,
        ) == AlertState::NoData,
        now.nanos_since(points[k].at) <= max_age.total() && !rule.comparator.holds(
            points[k].value,
            rule.threshold,
        ) ==> observed(state, rule, host, points, now, max_age) == AlertState::Clear,
        now.nanos_since(points[k].at) <= max_age.total() && rule.comparator.holds(
            points[k].value,
            rule.threshold,
        ) ==> observed(state, rule, host, points, now, max_age) is Firing || observed(
            state,
            rule,
            host,
            points,
            now,
            max_age,
        ) is Pending,
{
    lemma_last_at_is(points, now, k);
}

/// Samples from after `now` are not seen: they neither raise nor clear an alert.
pub proof fn later_samples_are_not_seen(
    state: AlertState,
    rule: AlertRule,
    host: Seq<char>,
    points: Seq<MetricPoint>,
    later: MetricPoint,
    now: Timestamp,
    max_age: TimeDelta,
)
    requires
        now.lt(later.at),
    ensures
        observed(state, rule, host, points.push(later), now, max_age) == observed(
            state,
            rule,
            host,
            points,
            now,
            max_age,
        ),
{
    assert(points.push(later).drop_last() =~= points);
}

/// Each comparator is the relation it is named after, between the value and the
/// threshold, and none holds of a NaN.
pub proof fn comparators_are_what_they_are_named(value: Number, threshold: Number)
    ensures
        Comparator::GreaterThan.holds(value, threshold) <==> threshold.lt(value),
        Comparator::LessThan.holds(value, threshold) <==> value.lt(threshold),
        Comparator::GreaterThanOrEqual.holds(value, threshold) <==> threshold.lt(value) || (
        !value.nan() && !threshold.nan() && !value.lt(threshold)),
        Comparator::LessThanOrEqual.holds(value, threshold) <==> value.lt(threshold) || (
        !value.nan() && !threshold.nan() && !threshold.lt(value)),
        value.nan() || threshold.nan() ==> {
            &&& !Comparator::GreaterThan.holds(value, threshold)
            &&& !Comparator::GreaterThanOrEqual.holds(value, threshold)
            &&& !Comparator::LessThan.holds(value, threshold)
            &&& !Comparator::LessThanOrEqual.holds(value, threshold)
        },
{
}

/// The sign of a comparator is its own.
pub proof fn comparator_signs_are_their_own(comparator: Comparator)
    ensures
        comparator.symbol_text() == seq!['>'] <==> comparator == Comparator::GreaterThan,
        comparator.symbol_text() == seq!['>', '='] <==> comparator
            == Comparator::GreaterThanOrEqual,
        comparator.symbol_text() == seq!['<'] <==> comparator == Comparator::LessThan,
        comparator.symbol_text() == seq!['<', '='] <==> comparator == Comparator::LessThanOrEqual,
{
    reveal_strlit(">");
    reveal_strlit(">=");
    reveal_strlit("<");
    reveal_strlit("<=");
    assert(">"@ =~= seq!['>']);
    assert(">="@ =~= seq!['>', '=']);
    assert("<"@ =~= seq!['<']);
    assert("<="@ =~= seq!['<', '=']);
    assert(seq!['>'][0] == '>' && seq!['<'][0] == '<');
    assert(seq!['>', '='][0] == '>' && seq!['<', '='][0] == '<');
    assert(seq!['>'].len() == 1 && seq!['<'].len() == 1);
    assert(seq!['>', '='].len() == 2 && seq!['<', '='].len() == 2);
}

/// A rule is refused for a name of white space alone, for a threshold that is infinite
/// or NaN, or for a dwell that is negative or longer than 365 days: for these and for
/// nothing else, and for the first of them that holds.
pub proof fn rules_are_refused_for_a_reason(name: Seq<char>, threshold: Number, dwell: int)
    ensures
        ({
            let blank = forall|i: int| 0 <= i < name.len() ==> text::is_white(#[trigger] name[i]);
            let year = 365 * 86_400 * 1_000_000_000int;
            let complaint = rule_complaint(name, threshold, dwell);
            &&& complaint is None <==> !blank && threshold.finite() && 0 <= dwell <= year
            &&& blank ==> complaint == Some("name must not be empty"@)
            &&& !blank && !threshold.finite() ==> complaint == Some(
                "threshold "@ + (if threshold.nan() {
                    "NaN"@
                } else if threshold.bits >= 0x8000_0000_0000_0000 {
                    "-inf"@
                } else {
                    "inf"@
                }) + " must be finite"@,
            )
            &&& !blank && threshold.finite() && dwell < 0 ==> complaint == Some(
                "for_duration must not be negative"@,
            )
            &&& !blank && threshold.finite() && dwell > year ==> complaint == Some(
                "for_duration "@ + text::decimal(dwell / 1_000_000_000)
                    + "s exceeds the maximum dwell of "@ + text::decimal(31_536_000)
                    + "s, past which `since + for_duration` overflows the representable range of a timestamp"@,
            )
        }),
{
    text::blank_text_trims_to_nothing(name);
}

/// A dwell is anything from nothing to 365 days.
pub proof fn dwells_last_up_to_a_year(total: int)
    ensures
        is_dwell(total) <==> 0 <= total <= 365 * 86_400 * 1_000_000_000,
{
}

/// A rule that was stored comes back with its own id, its own switch and every other
/// setting it had.
pub proof fn stored_rules_come_back_whole(wire: AlertRuleWire, rule: AlertRule)
    requires
        wire.restores_to(rule),
    ensures
        rule.id@ == wire.id@ && rule.name@ == wire.name@ && rule.metric == wire.metric,
        rule.selector@ == wire.selector@ && rule.comparator == wire.comparator,
        rule.threshold == wire.threshold && rule.dwell@ == wire.for_duration,
        rule.enabled == wire.enabled,
{
}

/// Two rules that say the same judge every host and every series alike.
pub proof fn equal_rules_judge_alike(
    a: AlertRule,
    b: AlertRule,
    state: AlertState,
    host: Seq<char>,
    points: Seq<MetricPoint>,
    now: Timestamp,
    max_age: TimeDelta,
)
    requires
        a.same(b),
    ensures
        a.id@ == b.id@ && a.name@ == b.name@ && a.metric == b.metric,
        observed(state, a, host, points, now, max_age) == observed(
            state,
            b,
            host,
            points,
            now,
            max_age,
        ),
{
}

/// Only a pending or a firing state has a breach, and it is the one it carries.
pub proof fn breaches_are_carried_by_their_states(since: Timestamp)
    ensures
        (AlertState::Pending { since }).breach() == Some(since),
        (AlertState::Firing { since }).breach() == Some(since),
        AlertState::Clear.breach() is None,
        AlertState::NoData.breach() is None,
{
}

} // verus!
