//! What the user configures: how to poll, what to alert on, what to chart.

use crate::client::error::ClientError;
use crate::domain::alert;
use crate::domain::alert::{AlertRule, Comparator};
use crate::domain::error::CoreError;
use crate::domain::host::{HostId, HostSelector, SelectorView};
use crate::domain::liveness::LivenessPolicy;
use crate::domain::metric::{InstrumentKind, MetricKind};
use crate::domain::urn;
use crate::ident;
use crate::number::Number;
use crate::time;
use crate::time::TimeDelta;
use vstd::prelude::*;

verus! {

/// The chart window of the presets, in seconds: one hour.
pub const CHART_WINDOW_SECS: i64 = 3_600;

/// How far behind wall clock the presets let a backend lag, in seconds.
pub const BACKEND_LAG_SECS: i64 = 180;

/// How long the presets remember a silent host, in seconds: one day.
pub const FORGET_HOST_SECS: i64 = 86_400;

/// How many hosts the presets retain.
pub const RETAINED_HOSTS: u32 = 256;

/// The eight values a poll, a window and a dwell are measured against. Whether they
/// go together is the client core's to judge.
#[derive(Debug, Clone, Copy, PartialEq, Eq, Structural)]
pub struct PollTuning {
    pub liveness: LivenessPolicy,
    pub poll_interval: TimeDelta,
    /// The query bucket width.
    pub metric_step: TimeDelta,
    pub chart_window: TimeDelta,
    /// How old a sample may be and still be evidence for an alert, before the lag
    /// allowance is added to it.
    pub max_staleness: TimeDelta,
    /// How far behind wall clock the backend's newest queryable point lags.
    pub backend_lag_allowance: TimeDelta,
    pub forget_host_after: TimeDelta,
    pub max_retained_hosts: u32,
}

impl PollTuning {
    /// Whether this is the preset over a policy: polling and querying at its
    /// heartbeat, samples as stale as its down threshold, and fixed windows.
    pub open spec fn is_preset_of(self, policy: LivenessPolicy) -> bool {
        &&& self.liveness == policy
        &&& self.poll_interval == policy@.heartbeat_interval
        &&& self.metric_step == policy@.heartbeat_interval
        &&& self.chart_window.total() == CHART_WINDOW_SECS * time::NANOS_PER_SEC
        &&& self.max_staleness.total() == policy@.down_total()
        &&& self.backend_lag_allowance.total() == BACKEND_LAG_SECS * time::NANOS_PER_SEC
        &&& self.forget_host_after.total() == FORGET_HOST_SECS * time::NANOS_PER_SEC
        &&& self.max_retained_hosts == RETAINED_HOSTS
    }

    /// The bound that alerts are gated at, in nanoseconds: how stale a sample may
    /// be, and how far the backend lags.
    pub open spec fn evidence_horizon(self) -> int {
        self.max_staleness.total() + self.backend_lag_allowance.total()
    }

    /// The preset over a liveness policy.
    pub fn from_liveness(policy: LivenessPolicy) -> (r: PollTuning)
        ensures
            r.is_preset_of(policy),
    {
        PollTuning {
            liveness: policy,
            poll_interval: policy.heartbeat_interval(),
            metric_step: policy.heartbeat_interval(),
            chart_window: TimeDelta::seconds(CHART_WINDOW_SECS),
            max_staleness: policy.down_threshold(),
            backend_lag_allowance: TimeDelta::seconds(BACKEND_LAG_SECS),
            forget_host_after: TimeDelta::seconds(FORGET_HOST_SECS),
            max_retained_hosts: RETAINED_HOSTS,
        }
    }
}

impl Default for PollTuning {
    /// The preset over the default liveness policy.
    fn default() -> (r: PollTuning)
        ensures
            r.is_preset_of(r.liveness),
            r.liveness@.heartbeat_interval.total() == 30 * time::NANOS_PER_SEC,
            r.liveness@.stale_after_intervals == 3,
            r.liveness@.down_after_intervals == 5,
    {
        PollTuning::from_liveness(LivenessPolicy::default())
    }
}

/// Everything the user configures: which environment, how to poll, what to alert on,
/// what to chart, and which host is focused.
#[derive(Debug, PartialEq, Eq)]
pub struct FleetConfig {
    /// The URN segment every rule id embeds.
    pub environment: String,
    pub tuning: PollTuning,
    pub rules: Vec<AlertRule>,
    /// Charted for every host.
    pub overview_metrics: Vec<MetricKind>,
    /// Charted for the focused host.
    pub detail_metrics: Vec<MetricKind>,
    pub focus: Option<HostId>,
}

impl FleetConfig {
    /// Whether two configurations say the same.
    pub open spec fn same(self, other: FleetConfig) -> bool {
        &&& self.environment == other.environment
        &&& self.tuning == other.tuning
        &&& self.rules@.len() == other.rules@.len()
        &&& forall|i: int|
            0 <= i < other.rules@.len() ==> (#[trigger] self.rules@[i]).same(other.rules@[i])
        &&& self.overview_metrics@ == other.overview_metrics@
        &&& self.detail_metrics@ == other.detail_metrics@
        &&& self.focus == other.focus
    }
}

impl Clone for FleetConfig {
    fn clone(&self) -> (r: FleetConfig)
        ensures
            r.same(*self),
    {
        let mut rules: Vec<AlertRule> = Vec::new();
        let mut i: usize = 0;
        while i < self.rules.len()
            invariant
                i <= self.rules@.len(),
                rules@.len() == i,
                forall|k: int| 0 <= k < i ==> (#[trigger] rules@[k]).same(self.rules@[k]),
            decreases self.rules@.len() - i,
        {
            rules.push(self.rules[i].clone());
            i += 1;
        }
        FleetConfig {
            environment: self.environment.clone(),
            tuning: self.tuning,
            rules,
            overview_metrics: clone_kinds(&self.overview_metrics),
            detail_metrics: clone_kinds(&self.detail_metrics),
            focus: match &self.focus {
                Some(host) => Some(host.clone()),
                None => None,
            },
        }
    }
}

fn clone_kinds(kinds: &Vec<MetricKind>) -> (r: Vec<MetricKind>)
    ensures
        r@ == kinds@,
{
    let mut out: Vec<MetricKind> = Vec::new();
    let mut i: usize = 0;
    while i < kinds.len()
        invariant
            i <= kinds@.len(),
            out@ == kinds@.take(i as int),
        decreases kinds@.len() - i,
    {
        out.push(kinds[i]);
        i += 1;
        assert(out@ =~= kinds@.take(i as int));
    }
    assert(out@ =~= kinds@);
    out
}

/// A configuration that is legal and almost certainly not what its author meant.
#[derive(Debug, Clone, PartialEq, Eq)]
pub enum TuningWarning {
    /// The rule's dwell is shorter than the bound alerts are gated at, so one
    /// old-but-still-valid sample carries it straight to firing.
    SpikeCanFire { rule_id: String, rule_name: String },
    /// A rule on a counter: the threshold is compared against a rate.
    CounterThresholdIsRate { rule_id: String, metric: MetricKind },
    /// An empty set of hosts: a rule that can never match one.
    SelectorMatchesNothing { rule_id: String, rule_name: String },
}

/// What a warning says.
pub enum WarningView {
    SpikeCanFire { rule_id: Seq<char>, rule_name: Seq<char> },
    CounterThresholdIsRate { rule_id: Seq<char>, metric: MetricKind },
    SelectorMatchesNothing { rule_id: Seq<char>, rule_name: Seq<char> },
}

impl View for TuningWarning {
    type V = WarningView;

    open spec fn view(&self) -> WarningView {
        match self {
            TuningWarning::SpikeCanFire { rule_id, rule_name } => WarningView::SpikeCanFire {
                rule_id: rule_id@,
                rule_name: rule_name@,
            },
            TuningWarning::CounterThresholdIsRate { rule_id, metric } => {
                WarningView::CounterThresholdIsRate { rule_id: rule_id@, metric: *metric }
            },
            TuningWarning::SelectorMatchesNothing { rule_id, rule_name } => {
                WarningView::SelectorMatchesNothing { rule_id: rule_id@, rule_name: rule_name@ }
            },
        }
    }
}

/// What some warnings say.
pub open spec fn warning_views(warnings: Seq<TuningWarning>) -> Seq<WarningView> {
    Seq::new(warnings.len(), |i: int| warnings[i]@)
}

/// Whether a metric accumulates.
pub open spec fn is_counter(metric: MetricKind) -> bool {
    metric == MetricKind::NetworkIo || metric == MetricKind::AgentHeartbeat || metric
        == MetricKind::AgentCollectionFailures
}

/// Whether a selector names no host.
pub open spec fn names_no_host(selector: SelectorView) -> bool {
    selector matches SelectorView::AnyOf(ids) && ids.len() == 0
}

/// The warnings on one rule, in the order of their kinds.
pub open spec fn rule_warnings(rule: AlertRule, horizon: int) -> Seq<WarningView> {
    let rule_id = rule.id@.rendered();
    let spike = if rule.dwell@.total() < horizon {
        seq![WarningView::SpikeCanFire { rule_id, rule_name: rule.name@ }]
    } else {
        Seq::empty()
    };
    let rate = if is_counter(rule.metric) {
        seq![WarningView::CounterThresholdIsRate { rule_id, metric: rule.metric }]
    } else {
        Seq::empty()
    };
    let nothing = if names_no_host(rule.selector@) {
        seq![WarningView::SelectorMatchesNothing { rule_id, rule_name: rule.name@ }]
    } else {
        Seq::empty()
    };
    spike + rate + nothing
}

/// The warnings on some rules, one rule after the other.
pub open spec fn audited(rules: Seq<AlertRule>, horizon: int) -> Seq<WarningView>
    decreases rules.len(),
{
    if rules.len() == 0 {
        Seq::empty()
    } else {
        audited(rules.drop_last(), horizon) + rule_warnings(rules.last(), horizon)
    }
}

fn any_of_nobody(selector: &HostSelector) -> (r: bool)
    ensures
        r == names_no_host(selector@),
{
    match selector {
        HostSelector::AnyOf(ids) => ids.len() == 0,
        _ => false,
    }
}

/// Whether a rule's dwell is shorter than the bound alerts are gated at.
fn dwells_too_briefly(rule: &AlertRule, tuning: &PollTuning) -> (r: bool)
    ensures
        r == (rule.dwell@.total() < tuning.evidence_horizon()),
{
    proof {
        tuning.max_staleness.nanos_fit();
        tuning.backend_lag_allowance.nanos_fit();
    }
    let horizon: i128 = tuning.max_staleness.total_nanos()
        + tuning.backend_lag_allowance.total_nanos();
    rule.for_duration().total_nanos() < horizon
}

impl FleetConfig {
    /// The legal-but-wrong configurations in a config: rules in config order, and
    /// within a rule the order of the kinds of warning. Disabled rules are audited
    /// too: a warning that appears only once a rule is switched on comes too late.
    pub fn audit(&self) -> (r: Vec<TuningWarning>)
        ensures
            warning_views(r@) == audited(self.rules@, self.tuning.evidence_horizon()),
    {
        let ghost horizon = self.tuning.evidence_horizon();
        let mut out: Vec<TuningWarning> = Vec::new();
        let mut i: usize = 0;
        assert(warning_views(out@) =~= audited(self.rules@.take(0), horizon));
        while i < self.rules.len()
            invariant
                i <= self.rules@.len(),
                horizon == self.tuning.evidence_horizon(),
                warning_views(out@) == audited(self.rules@.take(i as int), horizon),
            decreases self.rules@.len() - i,
        {
            let rule = &self.rules[i];
            let ghost before = warning_views(out@);
            if dwells_too_briefly(rule, &self.tuning) {
                out.push(
                    TuningWarning::SpikeCanFire {
                        rule_id: rule.id.to_string(),
                        rule_name: rule.name.clone(),
                    },
                );
            }
            if let InstrumentKind::Counter = rule.metric.instrument_kind() {
                out.push(
                    TuningWarning::CounterThresholdIsRate {
                        rule_id: rule.id.to_string(),
                        metric: rule.metric,
                    },
                );
            }
            if any_of_nobody(&rule.selector) {
                out.push(
                    TuningWarning::SelectorMatchesNothing {
                        rule_id: rule.id.to_string(),
                        rule_name: rule.name.clone(),
                    },
                );
            }
            proof {
                assert(warning_views(out@) =~= before + rule_warnings(*rule, horizon));
                assert(self.rules@.take(i + 1).drop_last() =~= self.rules@.take(i as int));
                assert(self.rules@.take(i + 1).last() == *rule);
            }
            i += 1;
        }
        assert(self.rules@.take(self.rules@.len() as int) =~= self.rules@);
        out
    }
}

/// Why a rule could never fire, or nothing where it could: a heartbeat is liveness's
/// business, and an empty set of hosts matches none.
pub open spec fn pointless(metric: MetricKind, selector: SelectorView) -> Option<Seq<char>> {
    if metric == MetricKind::AgentHeartbeat {
        Some("the heartbeat is not alertable: a silent host is liveness's business"@)
    } else if names_no_host(selector) {
        Some("the selector names no host, so the rule could never fire"@)
    } else {
        None
    }
}

/// Refuses a rule that could never fire.
pub fn validate_rule(rule: &AlertRule) -> (r: Result<(), ClientError>)
    ensures
        match pointless(rule.metric, rule.selector@) {
            Some(message) => r matches Err(ClientError::InvalidRule(why)) && why@ == message,
            None => r is Ok,
        },
{
    if let MetricKind::AgentHeartbeat = rule.metric {
        return Err(
            ClientError::InvalidRule(
                "the heartbeat is not alertable: a silent host is liveness's business".to_owned(),
            ),
        );
    }
    if any_of_nobody(&rule.selector) {
        return Err(
            ClientError::InvalidRule(
                "the selector names no host, so the rule could never fire".to_owned(),
            ),
        );
    }
    Ok(())
}

/// A domain error raised while authoring a rule, as the client's.
fn as_client_error(error: CoreError) -> (r: ClientError)
    requires
        error is InvalidRule || error is InvalidUrn,
    ensures
        error matches CoreError::InvalidRule(m) ==> r == ClientError::InvalidRule(m),
        error matches CoreError::InvalidUrn(m) ==> r == ClientError::InvalidUrn(m),
{
    match error {
        CoreError::InvalidRule(message) => ClientError::InvalidRule(message),
        CoreError::InvalidUrn(message) => ClientError::InvalidUrn(message),
        _ => ClientError::Unauthorized,
    }
}

/// Authors a new rule: what [`AlertRule::new`] asks, the selector applied, and the
/// two checks that keep out a rule that could never fire.
pub fn draft_rule(
    environment: &str,
    name: &str,
    metric: MetricKind,
    comparator: Comparator,
    threshold: Number,
    for_duration: TimeDelta,
    selector: HostSelector,
) -> (r: Result<AlertRule, ClientError>)
    ensures
        match alert::rule_complaint(name@, threshold, for_duration.total()) {
            Some(message) => r matches Err(ClientError::InvalidRule(why)) && why@ == message,
            None => if !urn::is_segment(environment@) {
                r matches Err(ClientError::InvalidUrn(why)) && why@ == urn::segment_message(
                    environment@,
                )
            } else {
                match pointless(metric, selector@) {
                    Some(message) => r matches Err(ClientError::InvalidRule(why)) && why@
                        == message,
                    None => {
                        &&& r matches Ok(rule)
                        &&& rule.id@.valid()
                        &&& rule.id@.prefix == urn::DEFAULT_URN_PREFIX@
                        &&& rule.id@.environment == environment@
                        &&& rule.id@.service == "alerts"@
                        &&& rule.id@.model == "rule"@
                        &&& ident::is_version_7(rule.id@.id)
                        &&& rule.name@ == name@
                        &&& rule.metric == metric
                        &&& rule.selector == selector
                        &&& rule.comparator == comparator
                        &&& rule.threshold == threshold
                        &&& rule.dwell@ == for_duration
                        &&& rule.enabled
                    },
                }
            },
        },
{
    match AlertRule::new(environment, name, metric, comparator, threshold, for_duration) {
        Err(e) => Err(as_client_error(e)),
        Ok(rule) => {
            let rule = rule.with_selector(selector);
            match validate_rule(&rule) {
                Err(e) => Err(e),
                Ok(_) => Ok(rule),
            }
        },
    }
}

/// The audit of one rule warns of a spike exactly where the rule's dwell is below the
/// sum of how stale a sample may be and how far the backend lags, of a rate exactly
/// where its metric is a counter, and of an empty selector exactly where it lists no
/// host. It says nothing else, and the rule's switch has no say.
pub proof fn rules_are_warned_of_for_a_reason(rule: AlertRule, tuning: PollTuning)
    ensures
        ({
            let warnings = rule_warnings(rule, tuning.evidence_horizon());
            let rule_id = rule.id@.rendered();
            let spike = rule.dwell@.total() < tuning.max_staleness.total()
                + tuning.backend_lag_allowance.total();
            let rate = rule.metric == MetricKind::NetworkIo || rule.metric
                == MetricKind::AgentHeartbeat || rule.metric == MetricKind::AgentCollectionFailures;
            let nothing = rule.selector@ == SelectorView::AnyOf(Seq::empty());
            &&& spike <==> warnings.contains(
                WarningView::SpikeCanFire { rule_id, rule_name: rule.name@ },
            )
            &&& rate <==> warnings.contains(
                WarningView::CounterThresholdIsRate { rule_id, metric: rule.metric },
            )
            &&& nothing <==> warnings.contains(
                WarningView::SelectorMatchesNothing { rule_id, rule_name: rule.name@ },
            )
            &&& warnings.len() == (if spike {
                1int
            } else {
                0
            }) + (if rate {
                1int
            } else {
                0
            }) + (if nothing {
                1int
            } else {
                0
            })
        }),
{
    let warnings = rule_warnings(rule, tuning.evidence_horizon());
    let rule_id = rule.id@.rendered();
    let spike = rule.dwell@.total() < tuning.evidence_horizon();
    let rate = is_counter(rule.metric);
    let nothing = names_no_host(rule.selector@);
    if rule.selector@ is AnyOf {
        assert(rule.selector@->AnyOf_0.len() == 0 ==> rule.selector@->AnyOf_0 =~= Seq::empty());
    }
    let first = if spike {
        1int
    } else {
        0
    };
    let second = if rate {
        first + 1
    } else {
        first
    };
    if spike {
        assert(warnings[0] == (WarningView::SpikeCanFire { rule_id, rule_name: rule.name@ }));
    }
    if rate {
        assert(warnings[first] == (WarningView::CounterThresholdIsRate {
            rule_id,
            metric: rule.metric,
        }));
    }
    if nothing {
        assert(warnings[second] == (WarningView::SelectorMatchesNothing {
            rule_id,
            rule_name: rule.name@,
        }));
    }
}

/// The audit of a configuration is the audits of its rules, one behind the other: every
/// warning on a rule is there, and every warning there is on a rule.
pub proof fn every_rule_is_audited(rules: Seq<AlertRule>, horizon: int, warning: WarningView)
    ensures
        audited(rules, horizon).contains(warning) <==> exists|i: int|
            0 <= i < rules.len() && #[trigger] rule_warnings(rules[i], horizon).contains(warning),
    decreases rules.len(),
{
    if rules.len() > 0 {
        let front = rules.drop_last();
        let before = audited(front, horizon);
        let last = rule_warnings(rules.last(), horizon);
        let all = audited(rules, horizon);
        every_rule_is_audited(front, horizon, warning);
        if all.contains(warning) {
            let k = choose|k: int| 0 <= k < all.len() && all[k] == warning;
            if k < before.len() {
                assert(before[k] == warning);
                let i = choose|i: int|
                    0 <= i < front.len() && #[trigger] rule_warnings(front[i], horizon).contains(
                        warning,
                    );
                assert(rule_warnings(rules[i], horizon).contains(warning));
            } else {
                assert(last[k - before.len()] == warning);
                assert(rule_warnings(rules[rules.len() - 1], horizon).contains(warning));
            }
        }
        if exists|i: int|
            0 <= i < rules.len() && #[trigger] rule_warnings(rules[i], horizon).contains(warning) {
            let i = choose|i: int|
                0 <= i < rules.len() && #[trigger] rule_warnings(rules[i], horizon).contains(
                    warning,
                );
            if i < front.len() {
                assert(rule_warnings(front[i], horizon).contains(warning));
                let k = choose|k: int| 0 <= k < before.len() && before[k] == warning;
                assert(all[k] == warning);
            } else {
                let k = choose|k: int| 0 <= k < last.len() && last[k] == warning;
                assert(all[before.len() + k] == warning);
            }
        }
    }
}

/// A rule that is added is audited behind the ones before it, and changes nothing of
/// theirs.
pub proof fn rules_are_audited_in_their_order(
    rules: Seq<AlertRule>,
    rule: AlertRule,
    horizon: int,
)
    ensures
        audited(Seq::empty(), horizon) == Seq::<WarningView>::empty(),
        audited(rules.push(rule), horizon) == audited(rules, horizon) + rule_warnings(
            rule,
            horizon,
        ),
{
    assert(rules.push(rule).drop_last() =~= rules);
}

/// Switching rules on or off leaves the audit as it is: a disabled rule is warned of
/// like any other.
pub proof fn switches_leave_the_audit_unchanged(
    rules: Seq<AlertRule>,
    switched: Seq<AlertRule>,
    horizon: int,
)
    requires
        switched.len() == rules.len(),
        forall|i: int|
            0 <= i < rules.len() ==> (AlertRule { enabled: rules[i].enabled, ..#[trigger] switched[i] })
                == rules[i],
    ensures
        audited(switched, horizon) == audited(rules, horizon),
    decreases rules.len(),
{
    if rules.len() > 0 {
        assert forall|i: int| 0 <= i < rules.drop_last().len() implies (AlertRule {
            enabled: rules.drop_last()[i].enabled,
            ..#[trigger] switched.drop_last()[i]
        }) == rules.drop_last()[i] by {
            assert(switched[i] == switched.drop_last()[i]);
            assert(rules[i] == rules.drop_last()[i]);
        }
        switches_leave_the_audit_unchanged(rules.drop_last(), switched.drop_last(), horizon);
        let n = rules.len() - 1;
        assert((AlertRule { enabled: rules[n].enabled, ..switched[n] }) == rules[n]);
        assert(rule_warnings(switched.last(), horizon) =~= rule_warnings(rules.last(), horizon));
    }
}

/// What is told of a warning is the warning: its kind, its rule and what it is about.
pub proof fn warnings_are_told_as_they_are(warning: TuningWarning)
    ensures
        match warning {
            TuningWarning::SpikeCanFire { rule_id, rule_name } => warning@
                == (WarningView::SpikeCanFire { rule_id: rule_id@, rule_name: rule_name@ }),
            TuningWarning::CounterThresholdIsRate { rule_id, metric } => warning@
                == (WarningView::CounterThresholdIsRate { rule_id: rule_id@, metric }),
            TuningWarning::SelectorMatchesNothing { rule_id, rule_name } => warning@
                == (WarningView::SelectorMatchesNothing {
                rule_id: rule_id@,
                rule_name: rule_name@,
            }),
        },
{
}

/// A rule could never fire exactly where it watches the heartbeat or lists no host, and
/// the heartbeat is the reason where both hold.
pub proof fn rules_that_could_never_fire(metric: MetricKind, selector: SelectorView)
    ensures
        pointless(metric, selector) is None <==> metric != MetricKind::AgentHeartbeat && selector
            != SelectorView::AnyOf(Seq::empty()),
        metric == MetricKind::AgentHeartbeat ==> pointless(metric, selector) == Some(
            "the heartbeat is not alertable: a silent host is liveness's business"@,
        ),
        metric != MetricKind::AgentHeartbeat && selector == SelectorView::AnyOf(Seq::empty())
            ==> pointless(metric, selector) == Some(
            "the selector names no host, so the rule could never fire"@,
        ),
{
    if selector is AnyOf {
        assert(selector->AnyOf_0.len() == 0 ==> selector->AnyOf_0 =~= Seq::empty());
    }
}

/// A rule without hosts never fires, whatever it sees: what is refused as pointless is.
pub proof fn a_rule_without_hosts_never_fires(
    state: alert::AlertState,
    rule: AlertRule,
    host: Seq<char>,
    points: Seq<crate::domain::metric::MetricPoint>,
    now: time::Timestamp,
    max_age: TimeDelta,
)
    requires
        names_no_host(rule.selector@),
    ensures
        alert::observed(state, rule, host, points, now, max_age) == alert::AlertState::Clear,
{
}

/// The preset polls and queries once a heartbeat, charts an hour, lets a sample be as
/// old as a host that is down, allows three minutes of lag, and remembers 256 hosts for
/// a day.
pub proof fn presets_follow_their_policy(tuning: PollTuning, policy: LivenessPolicy)
    requires
        tuning.is_preset_of(policy),
    ensures
        tuning.liveness == policy,
        tuning.poll_interval.total() == policy@.heartbeat_interval.total(),
        tuning.metric_step.total() == policy@.heartbeat_interval.total(),
        tuning.chart_window.total() == 3_600 * 1_000_000_000,
        tuning.max_staleness.total() == policy@.down_total(),
        tuning.backend_lag_allowance.total() == 180 * 1_000_000_000,
        tuning.forget_host_after.total() == 86_400 * 1_000_000_000,
        tuning.max_retained_hosts == 256,
        tuning.evidence_horizon() == policy@.down_total() + 180 * 1_000_000_000,
{
}

/// Two configurations that say the same are audited alike, in every part.
pub proof fn equal_configurations_are_audited_alike(a: FleetConfig, b: FleetConfig)
    requires
        a.same(b),
    ensures
        a.environment@ == b.environment@,
        a.tuning == b.tuning,
        a.rules@.len() == b.rules@.len(),
        forall|i: int| 0 <= i < b.rules@.len() ==> (#[trigger] a.rules@[i]).same(b.rules@[i]),
        a.overview_metrics@ == b.overview_metrics@,
        a.detail_metrics@ == b.detail_metrics@,
        a.focus == b.focus,
{
}

} // verus!
