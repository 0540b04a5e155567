//! The settings boundary: everything the user configures, in shapes that cross it.
//!
//! Nothing here decides anything of its own: every refusal is the domain's or the
//! client core's, surfaced. A set of rules crosses as JSON text, which only the
//! boundary's outer layer reads and writes; here a rule crosses as a record.

use crate::client::config;
use crate::client::config::{
    draft_rule, validate_rule, FleetConfig, PollTuning, TuningWarning, WarningView,
};
use crate::client::error::ClientError;
use crate::domain::alert;
use crate::domain::alert::{AlertRule, AlertRuleWire, Comparator};
use crate::domain::error::CoreError;
use crate::domain::host;
use crate::domain::host::{HostId, HostSelector, SelectorView};
use crate::domain::liveness;
use crate::domain::liveness::{LivenessPolicy, LivenessPolicyWire};
use crate::domain::metric::MetricKind;
use crate::domain::urn;
use crate::domain::urn::UrnView;
use crate::ffi::convert;
use crate::ffi::convert::{
    duration_to_seconds, host_id_from_string, host_id_to_string, seconds_to_duration,
    urn_from_string, urn_to_string, FfiError,
};
use crate::ident;
use crate::number::Number;
use crate::text;
use crate::time;
use crate::time::TimeDelta;
use vstd::prelude::*;

verus! {

/// Every metric the product models, in display order.
#[derive(Debug, Clone, Copy, PartialEq, Eq, Hash, Structural)]
pub enum MetricKindRecord {
    CpuUtilization,
    MemoryUtilization,
    MemoryUsage,
    FilesystemUtilization,
    FilesystemUsage,
    NetworkIo,
    LoadAverage1m,
    LoadAverage5m,
    LoadAverage15m,
    SystemUptime,
    AgentHeartbeat,
    AgentCollectionFailures,
}

impl MetricKindRecord {
    /// The record that restates a value.
    pub open spec fn restating(value: MetricKind) -> MetricKindRecord {
        match value {
            MetricKind::CpuUtilization => MetricKindRecord::CpuUtilization,
            MetricKind::MemoryUtilization => MetricKindRecord::MemoryUtilization,
            MetricKind::MemoryUsage => MetricKindRecord::MemoryUsage,
            MetricKind::FilesystemUtilization => MetricKindRecord::FilesystemUtilization,
            MetricKind::FilesystemUsage => MetricKindRecord::FilesystemUsage,
            MetricKind::NetworkIo => MetricKindRecord::NetworkIo,
            MetricKind::LoadAverage1m => MetricKindRecord::LoadAverage1m,
            MetricKind::LoadAverage5m => MetricKindRecord::LoadAverage5m,
            MetricKind::LoadAverage15m => MetricKindRecord::LoadAverage15m,
            MetricKind::SystemUptime => MetricKindRecord::SystemUptime,
            MetricKind::AgentHeartbeat => MetricKindRecord::AgentHeartbeat,
            MetricKind::AgentCollectionFailures => MetricKindRecord::AgentCollectionFailures,
        }
    }

    /// The value that a record restates.
    pub open spec fn restated(self) -> MetricKind {
        match self {
            MetricKindRecord::CpuUtilization => MetricKind::CpuUtilization,
            MetricKindRecord::MemoryUtilization => MetricKind::MemoryUtilization,
            MetricKindRecord::MemoryUsage => MetricKind::MemoryUsage,
            MetricKindRecord::FilesystemUtilization => MetricKind::FilesystemUtilization,
            MetricKindRecord::FilesystemUsage => MetricKind::FilesystemUsage,
            MetricKindRecord::NetworkIo => MetricKind::NetworkIo,
            MetricKindRecord::LoadAverage1m => MetricKind::LoadAverage1m,
            MetricKindRecord::LoadAverage5m => MetricKind::LoadAverage5m,
            MetricKindRecord::LoadAverage15m => MetricKind::LoadAverage15m,
            MetricKindRecord::SystemUptime => MetricKind::SystemUptime,
            MetricKindRecord::AgentHeartbeat => MetricKind::AgentHeartbeat,
            MetricKindRecord::AgentCollectionFailures => MetricKind::AgentCollectionFailures,
        }
    }
}

impl vstd::std_specs::convert::FromSpecImpl<MetricKind> for MetricKindRecord {
    open spec fn obeys_from_spec() -> bool {
        true
    }

    open spec fn from_spec(value: MetricKind) -> MetricKindRecord {
        MetricKindRecord::restating(value)
    }
}

impl From<MetricKind> for MetricKindRecord {
    fn from(value: MetricKind) -> MetricKindRecord {
        match value {
            MetricKind::CpuUtilization => MetricKindRecord::CpuUtilization,
            MetricKind::MemoryUtilization => MetricKindRecord::MemoryUtilization,
            MetricKind::MemoryUsage => MetricKindRecord::MemoryUsage,
            MetricKind::FilesystemUtilization => MetricKindRecord::FilesystemUtilization,
            MetricKind::FilesystemUsage => MetricKindRecord::FilesystemUsage,
            MetricKind::NetworkIo => MetricKindRecord::NetworkIo,
            MetricKind::LoadAverage1m => MetricKindRecord::LoadAverage1m,
            MetricKind::LoadAverage5m => MetricKindRecord::LoadAverage5m,
            MetricKind::LoadAverage15m => MetricKindRecord::LoadAverage15m,
            MetricKind::SystemUptime => MetricKindRecord::SystemUptime,
            MetricKind::AgentHeartbeat => MetricKindRecord::AgentHeartbeat,
            MetricKind::AgentCollectionFailures => MetricKindRecord::AgentCollectionFailures,
        }
    }
}

impl vstd::std_specs::convert::FromSpecImpl<MetricKindRecord> for MetricKind {
    open spec fn obeys_from_spec() -> bool {
        true
    }

    open spec fn from_spec(record: MetricKindRecord) -> MetricKind {
        record.restated()
    }
}

impl From<MetricKindRecord> for MetricKind {
    fn from(record: MetricKindRecord) -> MetricKind {
        match record {
            MetricKindRecord::CpuUtilization => MetricKind::CpuUtilization,
            MetricKindRecord::MemoryUtilization => MetricKind::MemoryUtilization,
            MetricKindRecord::MemoryUsage => MetricKind::MemoryUsage,
            MetricKindRecord::FilesystemUtilization => MetricKind::FilesystemUtilization,
            MetricKindRecord::FilesystemUsage => MetricKind::FilesystemUsage,
            MetricKindRecord::NetworkIo => MetricKind::NetworkIo,
            MetricKindRecord::LoadAverage1m => MetricKind::LoadAverage1m,
            MetricKindRecord::LoadAverage5m => MetricKind::LoadAverage5m,
            MetricKindRecord::LoadAverage15m => MetricKind::LoadAverage15m,
            MetricKindRecord::SystemUptime => MetricKind::SystemUptime,
            MetricKindRecord::AgentHeartbeat => MetricKind::AgentHeartbeat,
            MetricKindRecord::AgentCollectionFailures => MetricKind::AgentCollectionFailures,
        }
    }
}

/// Every metric kind and its record restate each other.
pub proof fn metric_kind_records_round_trip(value: MetricKind, record: MetricKindRecord)
    ensures
        MetricKindRecord::restating(value).restated() == value,
        MetricKindRecord::restating(record.restated()) == record,
{
}

/// How a sample is compared against a rule's threshold.
#[derive(Debug, Clone, Copy, PartialEq, Eq, Hash, Structural)]
pub enum ComparatorRecord {
    GreaterThan,
    GreaterThanOrEqual,
    LessThan,
    LessThanOrEqual,
}

impl ComparatorRecord {
    /// The record that restates a value.
    pub open spec fn restating(value: Comparator) -> ComparatorRecord {
        match value {
            Comparator::GreaterThan => ComparatorRecord::GreaterThan,
            Comparator::GreaterThanOrEqual => ComparatorRecord::GreaterThanOrEqual,
            Comparator::LessThan => ComparatorRecord::LessThan,
            Comparator::LessThanOrEqual => ComparatorRecord::LessThanOrEqual,
        }
    }

    /// The value that a record restates.
    pub open spec fn restated(self) -> Comparator {
        match self {
            ComparatorRecord::GreaterThan => Comparator::GreaterThan,
            ComparatorRecord::GreaterThanOrEqual => Comparator::GreaterThanOrEqual,
            ComparatorRecord::LessThan => Comparator::LessThan,
            ComparatorRecord::LessThanOrEqual => Comparator::LessThanOrEqual,
        }
    }
}

impl vstd::std_specs::convert::FromSpecImpl<Comparator> for ComparatorRecord {
    open spec fn obeys_from_spec() -> bool {
        true
    }

    open spec fn from_spec(value: Comparator) -> ComparatorRecord {
        ComparatorRecord::restating(value)
    }
}

impl From<Comparator> for ComparatorRecord {
    fn from(value: Comparator) -> ComparatorRecord {
        match value {
            Comparator::GreaterThan => ComparatorRecord::GreaterThan,
            Comparator::GreaterThanOrEqual => ComparatorRecord::GreaterThanOrEqual,
            Comparator::LessThan => ComparatorRecord::LessThan,
            Comparator::LessThanOrEqual => ComparatorRecord::LessThanOrEqual,
        }
    }
}

impl vstd::std_specs::convert::FromSpecImpl<ComparatorRecord> for Comparator {
    open spec fn obeys_from_spec() -> bool {
        true
    }

    open spec fn from_spec(record: ComparatorRecord) -> Comparator {
        record.restated()
    }
}

impl From<ComparatorRecord> for Comparator {
    fn from(record: ComparatorRecord) -> Comparator {
        match record {
            ComparatorRecord::GreaterThan => Comparator::GreaterThan,
            ComparatorRecord::GreaterThanOrEqual => Comparator::GreaterThanOrEqual,
            ComparatorRecord::LessThan => Comparator::LessThan,
            ComparatorRecord::LessThanOrEqual => Comparator::LessThanOrEqual,
        }
    }
}

/// Every comparator and its record restate each other.
pub proof fn comparator_records_round_trip(value: Comparator, record: ComparatorRecord)
    ensures
        ComparatorRecord::restating(value).restated() == value,
        ComparatorRecord::restating(record.restated()) == record,
{
}

/// Which hosts a rule applies to.
#[derive(Debug, PartialEq, Eq)]
pub enum HostSelectorRecord {
    /// Every host the backend reports.
    All,
    /// Exactly one host.
    Host { host_id: String },
    /// Any of a set. An empty set matches nothing; it is carried all the same.
    AnyOf { host_ids: Vec<String> },
}

impl View for HostSelectorRecord {
    type V = SelectorView;

    open spec fn view(&self) -> SelectorView {
        match self {
            HostSelectorRecord::All => SelectorView::All,
            HostSelectorRecord::Host { host_id } => SelectorView::Host(host_id@),
            HostSelectorRecord::AnyOf { host_ids } => SelectorView::AnyOf(text::views(host_ids@)),
        }
    }
}

/// Host ids as strings, in their order.
pub fn hosts_to_strings(ids: &Vec<HostId>) -> (r: Vec<String>)
    ensures
        text::views(r@) == host::host_names(ids@),
{
    let mut out: Vec<String> = Vec::new();
    let mut i: usize = 0;
    while i < ids.len()
        invariant
            i <= ids@.len(),
            text::views(out@) == host::host_names(ids@).take(i as int),
        decreases ids@.len() - i,
    {
        let ghost before = text::views(out@);
        let ghost names = host::host_names(ids@);
        out.push(host_id_to_string(&ids[i]));
        proof {
            assert(text::views(out@) =~= before.push(names[i as int]));
            assert(names.take(i + 1) =~= names.take(i as int).push(names[i as int]));
        }
        i += 1;
    }
    assert(text::views(out@) =~= host::host_names(ids@));
    out
}

fn hosts_from_strings(names: &Vec<String>) -> (r: Vec<HostId>)
    ensures
        host::host_names(r@) == text::views(names@),
{
    let mut out: Vec<HostId> = Vec::new();
    let mut i: usize = 0;
    while i < names.len()
        invariant
            i <= names@.len(),
            host::host_names(out@) == text::views(names@).take(i as int),
        decreases names@.len() - i,
    {
        let ghost before = host::host_names(out@);
        let ghost all = text::views(names@);
        out.push(host_id_from_string(names[i].clone()));
        proof {
            assert(host::host_names(out@) =~= before.push(all[i as int]));
            assert(all.take(i + 1) =~= all.take(i as int).push(all[i as int]));
        }
        i += 1;
    }
    assert(host::host_names(out@) =~= text::views(names@));
    out
}

impl vstd::std_specs::convert::FromSpecImpl<HostSelector> for HostSelectorRecord {
    open spec fn obeys_from_spec() -> bool {
        false
    }

    open spec fn from_spec(selector: HostSelector) -> HostSelectorRecord {
        arbitrary()
    }
}

impl From<HostSelector> for HostSelectorRecord {
    fn from(selector: HostSelector) -> (r: HostSelectorRecord)
        ensures
            r@ == selector@,
    {
        match selector {
            HostSelector::All => HostSelectorRecord::All,
            HostSelector::Host(id) => HostSelectorRecord::Host { host_id: host_id_to_string(&id) },
            HostSelector::AnyOf(ids) => HostSelectorRecord::AnyOf {
                host_ids: hosts_to_strings(&ids),
            },
        }
    }
}

impl vstd::std_specs::convert::FromSpecImpl<HostSelectorRecord> for HostSelector {
    open spec fn obeys_from_spec() -> bool {
        false
    }

    open spec fn from_spec(record: HostSelectorRecord) -> HostSelector {
        arbitrary()
    }
}

impl From<HostSelectorRecord> for HostSelector {
    fn from(record: HostSelectorRecord) -> (r: HostSelector)
        ensures
            r@ == record@,
    {
        match record {
            HostSelectorRecord::All => HostSelector::All,
            HostSelectorRecord::Host { host_id } => HostSelector::Host(
                host_id_from_string(host_id),
            ),
            HostSelectorRecord::AnyOf { host_ids } => HostSelector::AnyOf(
                hosts_from_strings(&host_ids),
            ),
        }
    }
}

/// One configured alert rule, as the rule list and the rule editor see it.
#[derive(Debug, PartialEq, Eq)]
pub struct AlertRuleRecord {
    /// The rule's URN as its canonical string. Carried and never regenerated: every
    /// stored evaluation is keyed by it.
    pub id: String,
    pub name: String,
    pub metric: MetricKindRecord,
    pub selector: HostSelectorRecord,
    pub comparator: ComparatorRecord,
    pub threshold: Number,
    /// How long the breach must hold before the rule fires, in whole seconds.
    pub for_duration_seconds: i64,
    pub enabled: bool,
}

impl AlertRuleRecord {
    /// Whether the record restates a rule.
    pub open spec fn restates(self, rule: AlertRule) -> bool {
        &&& convert::renders_urn(self.id@, rule.id@)
        &&& self.name@ == rule.name@
        &&& self.metric == MetricKindRecord::restating(rule.metric)
        &&& self.selector@ == rule.selector@
        &&& self.comparator == ComparatorRecord::restating(rule.comparator)
        &&& self.threshold == rule.threshold
        &&& self.for_duration_seconds == convert::seconds_of(rule.dwell@)
        &&& self.enabled == rule.enabled
    }

    /// Whether two records say the same.
    pub open spec fn same(self, other: AlertRuleRecord) -> bool {
        &&& self.id == other.id
        &&& self.name == other.name
        &&& self.metric == other.metric
        &&& self.selector@ == other.selector@
        &&& self.comparator == other.comparator
        &&& self.threshold == other.threshold
        &&& self.for_duration_seconds == other.for_duration_seconds
        &&& self.enabled == other.enabled
    }

    /// Whether a rule can be rebuilt from the record.
    pub open spec fn buildable(self) -> bool {
        &&& urn::parsed_urn(self.id@) is Ok
        &&& convert::is_seconds(self.for_duration_seconds)
        &&& self.threshold.finite()
        &&& alert::rule_complaint(
            self.name@,
            self.threshold,
            self.for_duration_seconds * time::NANOS_PER_SEC,
        ) is None
    }

    /// Whether a rule has everything that the record says, under an id.
    pub open spec fn describes(self, id: urn::UrnView, rule: AlertRule) -> bool {
        &&& rule.id@ == id
        &&& rule.name@ == self.name@
        &&& rule.metric == self.metric.restated()
        &&& rule.selector@ == self.selector@
        &&& rule.comparator == self.comparator.restated()
        &&& rule.threshold == self.threshold
        &&& rule.dwell@.total() == self.for_duration_seconds * time::NANOS_PER_SEC
        &&& rule.dwell@.in_balance()
        &&& rule.enabled == self.enabled
    }
}

impl vstd::std_specs::convert::FromSpecImpl<&AlertRule> for AlertRuleRecord {
    open spec fn obeys_from_spec() -> bool {
        false
    }

    open spec fn from_spec(rule: &AlertRule) -> AlertRuleRecord {
        arbitrary()
    }
}

impl From<&AlertRule> for AlertRuleRecord {
    fn from(rule: &AlertRule) -> (r: AlertRuleRecord)
        ensures
            r.restates(*rule),
            alert::is_dwell(rule.dwell@.total()),
    {
        let for_duration = rule.for_duration();
        AlertRuleRecord {
            id: urn_to_string(rule.id()),
            name: rule.name.clone(),
            metric: MetricKindRecord::from(rule.metric),
            selector: HostSelectorRecord::from(rule.selector.clone()),
            comparator: ComparatorRecord::from(rule.comparator),
            threshold: rule.threshold,
            for_duration_seconds: duration_to_seconds(for_duration),
            enabled: rule.enabled,
        }
    }
}

/// What a number that is not finite is refused with: it has no JSON form but null.
pub open spec fn not_a_number_text() -> Seq<char> {
    "invalid type: null, expected f64"@
}

/// Whether this is what rebuilding a rule from its record comes to. The id must be a
/// URN, the dwell must be a span, and the rest is held to what a stored rule is.
pub open spec fn rebuilds(record: AlertRuleRecord, r: Result<AlertRule, FfiError>) -> bool {
    match urn::parsed_urn(record.id@) {
        Err(message) => r matches Err(e) && e is InvalidUrn && e.message_text() == message,
        Ok(id) => if !convert::is_seconds(record.for_duration_seconds) {
            r matches Err(e) && convert::is_seconds_error(e, record.for_duration_seconds)
        } else if !record.threshold.finite() {
            r matches Err(e) && e is InvalidRule && e.message_text() == not_a_number_text()
        } else {
            match alert::rule_complaint(
                record.name@,
                record.threshold,
                record.for_duration_seconds * time::NANOS_PER_SEC,
            ) {
                Some(message) => r matches Err(e) && e is InvalidRule && e.message_text()
                    == "invalid alert rule: "@ + message,
                None => r matches Ok(rule) && record.describes(id, rule),
            }
        },
    }
}

impl vstd::std_specs::convert::TryFromSpecImpl<AlertRuleRecord> for AlertRule {
    open spec fn obeys_try_from_spec() -> bool {
        false
    }

    open spec fn try_from_spec(record: AlertRuleRecord) -> Result<AlertRule, FfiError> {
        arbitrary()
    }
}

impl TryFrom<AlertRuleRecord> for AlertRule {
    type Error = FfiError;

    /// Rebuilds the domain rule with its id intact, by the one path that keeps a
    /// rule the same rule: what a stored rule passes.
    fn try_from(record: AlertRuleRecord) -> (r: Result<AlertRule, FfiError>)
        ensures
            rebuilds(record, r),
    {
        let id = match urn_from_string(record.id.as_str()) {
            Ok(id) => id,
            Err(e) => return Err(e),
        };
        let for_duration = match seconds_to_duration(record.for_duration_seconds) {
            Ok(span) => span,
            Err(e) => return Err(e),
        };
        if !record.threshold.is_finite() {
            return Err(
                FfiError::InvalidRule { message: "invalid type: null, expected f64".to_owned() },
            );
        }
        let wire = AlertRuleWire {
            id,
            name: record.name,
            metric: MetricKind::from(record.metric),
            selector: HostSelector::from(record.selector),
            comparator: Comparator::from(record.comparator),
            threshold: record.threshold,
            for_duration,
            enabled: record.enabled,
        };
        match AlertRule::try_from(wire) {
            Ok(rule) => Ok(rule),
            Err(e) => Err(FfiError::InvalidRule { message: e.to_string() }),
        }
    }
}

impl Clone for HostSelectorRecord {
    fn clone(&self) -> (r: HostSelectorRecord)
        ensures
            r@ == self@,
    {
        match self {
            HostSelectorRecord::All => HostSelectorRecord::All,
            HostSelectorRecord::Host { host_id } => HostSelectorRecord::Host {
                host_id: host_id.clone(),
            },
            HostSelectorRecord::AnyOf { host_ids } => HostSelectorRecord::AnyOf {
                host_ids: text::clone_all(host_ids),
            },
        }
    }
}

impl Clone for AlertRuleRecord {
    fn clone(&self) -> (r: AlertRuleRecord)
        ensures
            r.same(*self),
    {
        AlertRuleRecord {
            id: self.id.clone(),
            name: self.name.clone(),
            metric: self.metric,
            selector: self.selector.clone(),
            comparator: self.comparator,
            threshold: self.threshold,
            for_duration_seconds: self.for_duration_seconds,
            enabled: self.enabled,
        }
    }
}

/// Rebuilds a list of rules from their records, in order. The first record that is
/// refused decides.
pub fn rules_from_records(records: &Vec<AlertRuleRecord>) -> (r: Result<Vec<AlertRule>, FfiError>)
    ensures
        match r {
            Ok(rules) => {
                &&& rules@.len() == records@.len()
                &&& forall|i: int|
                    0 <= i < records@.len() ==> rebuilds(records@[i], Ok(#[trigger] rules@[i]))
            },
            Err(e) => exists|i: int|
                {
                    &&& 0 <= i < records@.len()
                    &&& rebuilds(#[trigger] records@[i], Err(e))
                    &&& !records@[i].buildable()
                    &&& forall|k: int| 0 <= k < i ==> (#[trigger] records@[k]).buildable()
                },
        },
{
    let mut rules: Vec<AlertRule> = Vec::new();
    let mut i: usize = 0;
    while i < records.len()
        invariant
            i <= records@.len(),
            rules@.len() == i,
            forall|k: int| 0 <= k < i ==> rebuilds(records@[k], Ok(#[trigger] rules@[k])),
            forall|k: int| 0 <= k < i ==> (#[trigger] records@[k]).buildable(),
        decreases records@.len() - i,
    {
        match AlertRule::try_from(records[i].clone()) {
            Ok(rule) => {
                rules.push(rule);
            },
            Err(e) => {
                assert(rebuilds(records@[i as int], Err(e)));
                return Err(e);
            },
        }
        i += 1;
    }
    Ok(rules)
}

/// The records of a list of rules, in order.
pub fn rules_to_records(rules: &Vec<AlertRule>) -> (r: Vec<AlertRuleRecord>)
    ensures
        r@.len() == rules@.len(),
        forall|i: int| 0 <= i < rules@.len() ==> (#[trigger] r@[i]).restates(rules@[i]),
{
    let mut out: Vec<AlertRuleRecord> = Vec::new();
    let mut i: usize = 0;
    while i < rules.len()
        invariant
            i <= rules@.len(),
            out@.len() == i,
            forall|k: int| 0 <= k < i ==> (#[trigger] out@[k]).restates(rules@[k]),
        decreases rules@.len() - i,
    {
        out.push(AlertRuleRecord::from(&rules[i]));
        i += 1;
    }
    out
}

/// A rule whose dwell is whole seconds, whose threshold is finite, whose name is not
/// blank and whose id reads back is rebuilt from its record as the same rule.
pub proof fn rules_survive_their_records(
    rule: AlertRule,
    record: AlertRuleRecord,
    back: Result<AlertRule, FfiError>,
)
    requires
        record.restates(rule),
        rule.id@.rereads(),
        rule.dwell@.in_balance(),
        alert::is_dwell(rule.dwell@.total()),
        rule.dwell@.total() % (time::NANOS_PER_SEC as int) == 0,
        rule.threshold.finite(),
        text::trimmed(rule.name@).len() > 0,
        rebuilds(record, back),
    ensures
        back matches Ok(same) && {
            &&& same.id@ == rule.id@
            &&& same.name@ == rule.name@
            &&& same.metric == rule.metric
            &&& same.selector@ == rule.selector@
            &&& same.comparator == rule.comparator
            &&& same.threshold == rule.threshold
            &&& same.dwell@ == rule.dwell@
            &&& same.enabled == rule.enabled
        },
{
    metric_kind_records_round_trip(rule.metric, record.metric);
    comparator_records_round_trip(rule.comparator, record.comparator);
    time::delta_is_its_total(back->Ok_0.dwell@, rule.dwell@);
}

/// The rule for turning heartbeat age into a liveness verdict.
#[derive(Debug, Clone, Copy, PartialEq, Eq, Structural)]
pub struct LivenessPolicyRecord {
    /// How often the agent claims to beat, in whole seconds. A sub-second interval
    /// becomes 0, which is refused on the way back.
    pub heartbeat_interval_seconds: i64,
    /// Intervals of silence before a host is stale.
    pub stale_after_intervals: u32,
    /// Intervals of silence before a host is down.
    pub down_after_intervals: u32,
}

/// The multiplier that a threshold is of an interval, both in nanoseconds. It is 0,
/// which no policy accepts, where the interval is not positive, where the threshold is
/// no multiple of it, or where the quotient is no `u32`.
pub open spec fn multiplier_in(threshold: int, interval: int) -> int {
    if interval <= 0 || threshold < 0 || threshold % interval != 0 || threshold / interval
        > u32::MAX {
        0
    } else {
        threshold / interval
    }
}

/// Recovers a multiplier from the threshold it produced. A policy tells its interval
/// and the two products, so dividing is the way back to what it was built from.
pub fn intervals_in(threshold: TimeDelta, interval: TimeDelta) -> (r: u32)
    ensures
        r == multiplier_in(threshold.total(), interval.total()),
{
    let per: i128 = interval.total_nanos();
    let all: i128 = threshold.total_nanos();
    if per <= 0 || all < 0 {
        return 0;
    }
    // Neither count is negative, so they are divided as unsigned numbers.
    let per: u128 = per as u128;
    let all: u128 = all as u128;
    if all % per != 0 {
        return 0;
    }
    let quotient: u128 = all / per;
    if quotient > u32::MAX as u128 {
        return 0;
    }
    quotient as u32
}

impl LivenessPolicyRecord {
    /// Whether a policy can be rebuilt from the record.
    pub open spec fn accepted(self) -> bool {
        &&& 0 < self.heartbeat_interval_seconds <= time::MAX_DELTA_SECS
        &&& 0 < self.stale_after_intervals < self.down_after_intervals
    }

    /// The record that restates a policy.
    pub open spec fn restates(self, policy: LivenessPolicyWire) -> bool {
        let interval = policy.heartbeat_interval.total();
        &&& self.heartbeat_interval_seconds == convert::seconds_of(policy.heartbeat_interval)
        &&& self.stale_after_intervals == multiplier_in(policy.stale_total(), interval)
        &&& self.down_after_intervals == multiplier_in(policy.down_total(), interval)
    }
}

impl vstd::std_specs::convert::FromSpecImpl<LivenessPolicy> for LivenessPolicyRecord {
    open spec fn obeys_from_spec() -> bool {
        false
    }

    open spec fn from_spec(policy: LivenessPolicy) -> LivenessPolicyRecord {
        arbitrary()
    }
}

impl From<LivenessPolicy> for LivenessPolicyRecord {
    fn from(policy: LivenessPolicy) -> (r: LivenessPolicyRecord)
        ensures
            r.restates(policy@),
    {
        let interval = policy.heartbeat_interval();
        LivenessPolicyRecord {
            heartbeat_interval_seconds: duration_to_seconds(interval),
            stale_after_intervals: intervals_in(policy.stale_threshold(), interval),
            down_after_intervals: intervals_in(policy.down_threshold(), interval),
        }
    }
}

/// Whether this is what rebuilding a policy from its record comes to. A refused policy
/// is a refused tuning, with the domain's message.
pub open spec fn rebuilds_policy(
    record: LivenessPolicyRecord,
    r: Result<LivenessPolicy, FfiError>,
) -> bool {
    let seconds = record.heartbeat_interval_seconds;
    if !convert::is_seconds(seconds) {
        r matches Err(e) && convert::is_seconds_error(e, seconds)
    } else if record.accepted() {
        &&& r matches Ok(policy)
        &&& convert::lasts(policy@.heartbeat_interval, seconds)
        &&& policy@.stale_after_intervals == record.stale_after_intervals
        &&& policy@.down_after_intervals == record.down_after_intervals
    } else {
        &&& r matches Err(e)
        &&& e is InvalidTuning
        &&& e.message_text() == if seconds <= 0 {
            "heartbeat interval must be positive"@
        } else if record.stale_after_intervals == 0 || record.down_after_intervals == 0 {
            "interval multipliers must be at least 1"@
        } else {
            "stale threshold ("@ + text::numeral(record.stale_after_intervals as nat)
                + ") must be below down threshold ("@ + text::numeral(
                record.down_after_intervals as nat,
            ) + ")"@
        }
    }
}

impl vstd::std_specs::convert::TryFromSpecImpl<LivenessPolicyRecord> for LivenessPolicy {
    open spec fn obeys_try_from_spec() -> bool {
        false
    }

    open spec fn try_from_spec(record: LivenessPolicyRecord) -> Result<LivenessPolicy, FfiError> {
        arbitrary()
    }
}

impl TryFrom<LivenessPolicyRecord> for LivenessPolicy {
    type Error = FfiError;

    fn try_from(record: LivenessPolicyRecord) -> (r: Result<LivenessPolicy, FfiError>)
        ensures
            rebuilds_policy(record, r),
    {
        let interval = match seconds_to_duration(record.heartbeat_interval_seconds) {
            Ok(span) => span,
            Err(e) => return Err(e),
        };
        match LivenessPolicy::new(
            interval,
            record.stale_after_intervals,
            record.down_after_intervals,
        ) {
            Ok(policy) => Ok(policy),
            Err(e) => Err(as_invalid_tuning(e)),
        }
    }
}

/// Reclassifies a domain error raised while building a poll tuning: a defect on the
/// polling screen is not an alert rule's. The message stays the domain's.
fn as_invalid_tuning(error: CoreError) -> (r: FfiError)
    ensures
        match error {
            CoreError::InvalidRule(m) => r == (FfiError::InvalidTuning { message: m }),
            _ => r.restates_core(error),
        },
{
    match error {
        CoreError::InvalidRule(message) => FfiError::InvalidTuning { message },
        other => FfiError::from(other),
    }
}

/// Division recovers the multiplier that made a threshold, exactly. A threshold that
/// gave way to a shorter span, because the product or the multiplier is past what a
/// span can hold or be multiplied by, no longer has it.
pub proof fn multipliers_are_recovered(interval: int, multiplier: int)
    requires
        interval > 0,
        0 < multiplier <= i32::MAX,
        !liveness::saturates(interval, multiplier),
    ensures
        multiplier_in(liveness::scaled(interval, multiplier), interval) == multiplier,
{
    let all = interval * multiplier;
    assert(all % interval == 0 && all / interval == multiplier && all > 0) by (nonlinear_arith)
        requires
            all == interval * multiplier,
            interval > 0,
            multiplier > 0,
    ;
}

/// A policy rebuilt from a record restates that record, as long as both multipliers are
/// within what a span can be multiplied by and neither product is too long to hold.
pub proof fn policy_records_survive(
    record: LivenessPolicyRecord,
    policy: LivenessPolicy,
    back: LivenessPolicyRecord,
)
    requires
        rebuilds_policy(record, Ok(policy)),
        record.down_after_intervals <= i32::MAX,
        record.heartbeat_interval_seconds * record.down_after_intervals < i64::MAX,
        back.restates(policy@),
    ensures
        back == record,
{
    let seconds = record.heartbeat_interval_seconds as int;
    let interval = seconds * time::NANOS_PER_SEC;
    let stale = record.stale_after_intervals as int;
    let down = record.down_after_intervals as int;
    assert(interval * down == seconds * down * 1_000_000_000) by (nonlinear_arith)
        requires
            interval == seconds * 1_000_000_000,
    ;
    assert(interval * stale <= interval * down) by (nonlinear_arith)
        requires
            interval > 0,
            stale < down,
    ;
    multipliers_are_recovered(interval, stale);
    multipliers_are_recovered(interval, down);
}

/// Every duration a poll, a window, or a dwell is measured against, in whole seconds.
/// A record is just eight numbers until it has been judged.
#[derive(Debug, Clone, Copy, PartialEq, Eq, Structural)]
pub struct PollTuningRecord {
    pub liveness: LivenessPolicyRecord,
    pub poll_interval_seconds: i64,
    pub metric_step_seconds: i64,
    pub chart_window_seconds: i64,
    pub max_staleness_seconds: i64,
    pub backend_lag_allowance_seconds: i64,
    pub forget_host_after_seconds: i64,
    pub max_retained_hosts: u32,
}

impl PollTuningRecord {
    /// Whether the record restates a tuning.
    pub open spec fn restates(self, tuning: PollTuning) -> bool {
        &&& self.liveness.restates(tuning.liveness@)
        &&& self.poll_interval_seconds == convert::seconds_of(tuning.poll_interval)
        &&& self.metric_step_seconds == convert::seconds_of(tuning.metric_step)
        &&& self.chart_window_seconds == convert::seconds_of(tuning.chart_window)
        &&& self.max_staleness_seconds == convert::seconds_of(tuning.max_staleness)
        &&& self.backend_lag_allowance_seconds == convert::seconds_of(
            tuning.backend_lag_allowance,
        )
        &&& self.forget_host_after_seconds == convert::seconds_of(tuning.forget_host_after)
        &&& self.max_retained_hosts == tuning.max_retained_hosts
    }

    /// The six spans, in the order they are read.
    pub open spec fn spans(self) -> Seq<i64> {
        seq![
            self.poll_interval_seconds,
            self.metric_step_seconds,
            self.chart_window_seconds,
            self.max_staleness_seconds,
            self.backend_lag_allowance_seconds,
            self.forget_host_after_seconds,
        ]
    }

    /// Whether a tuning has everything that the record says.
    pub open spec fn describes(self, tuning: PollTuning) -> bool {
        &&& rebuilds_policy(self.liveness, Ok(tuning.liveness))
        &&& convert::lasts(tuning.poll_interval, self.poll_interval_seconds)
        &&& convert::lasts(tuning.metric_step, self.metric_step_seconds)
        &&& convert::lasts(tuning.chart_window, self.chart_window_seconds)
        &&& convert::lasts(tuning.max_staleness, self.max_staleness_seconds)
        &&& convert::lasts(tuning.backend_lag_allowance, self.backend_lag_allowance_seconds)
        &&& convert::lasts(tuning.forget_host_after, self.forget_host_after_seconds)
        &&& tuning.max_retained_hosts == self.max_retained_hosts
    }
}

/// Whether this is what reading a tuning from its record comes to: the first field that
/// cannot be read decides.
pub open spec fn reads_tuning(record: PollTuningRecord, r: Result<PollTuning, FfiError>) -> bool {
    let spans = record.spans();
    match r {
        Ok(tuning) => record.describes(tuning),
        Err(e) => {
            ||| !record.liveness.accepted() && rebuilds_policy(record.liveness, Err(e))
            ||| {
                &&& record.liveness.accepted()
                &&& exists|i: int|
                    {
                        &&& 0 <= i < 6
                        &&& !convert::is_seconds(#[trigger] spans[i])
                        &&& convert::is_seconds_error(e, spans[i])
                        &&& forall|k: int| 0 <= k < i ==> convert::is_seconds(#[trigger] spans[k])
                    }
            }
        },
    }
}

impl vstd::std_specs::convert::FromSpecImpl<PollTuning> for PollTuningRecord {
    open spec fn obeys_from_spec() -> bool {
        false
    }

    open spec fn from_spec(tuning: PollTuning) -> PollTuningRecord {
        arbitrary()
    }
}

impl From<PollTuning> for PollTuningRecord {
    fn from(tuning: PollTuning) -> (r: PollTuningRecord)
        ensures
            r.restates(tuning),
    {
        PollTuningRecord {
            liveness: LivenessPolicyRecord::from(tuning.liveness),
            poll_interval_seconds: duration_to_seconds(tuning.poll_interval),
            metric_step_seconds: duration_to_seconds(tuning.metric_step),
            chart_window_seconds: duration_to_seconds(tuning.chart_window),
            max_staleness_seconds: duration_to_seconds(tuning.max_staleness),
            backend_lag_allowance_seconds: duration_to_seconds(tuning.backend_lag_allowance),
            forget_host_after_seconds: duration_to_seconds(tuning.forget_host_after),
            max_retained_hosts: tuning.max_retained_hosts,
        }
    }
}

impl vstd::std_specs::convert::TryFromSpecImpl<PollTuningRecord> for PollTuning {
    open spec fn obeys_try_from_spec() -> bool {
        false
    }

    open spec fn try_from_spec(record: PollTuningRecord) -> Result<PollTuning, FfiError> {
        arbitrary()
    }
}

impl TryFrom<PollTuningRecord> for PollTuning {
    type Error = FfiError;

    /// Reads the eight values. Whether they go together is still to be judged: see
    /// [`poll_tuning_validated`].
    fn try_from(record: PollTuningRecord) -> (r: Result<PollTuning, FfiError>)
        ensures
            reads_tuning(record, r),
            r is Ok <==> {
                &&& record.liveness.accepted()
                &&& forall|i: int| 0 <= i < 6 ==> convert::is_seconds(#[trigger] record.spans()[i])
            },
    {
        let ghost spans = record.spans();
        let liveness = match LivenessPolicy::try_from(record.liveness) {
            Ok(policy) => policy,
            Err(e) => return Err(e),
        };
        let poll_interval = match seconds_to_duration(record.poll_interval_seconds) {
            Ok(span) => span,
            Err(e) => {
                assert(!convert::is_seconds(spans[0]));
                return Err(e);
            },
        };
        assert(convert::is_seconds(spans[0]));
        let metric_step = match seconds_to_duration(record.metric_step_seconds) {
            Ok(span) => span,
            Err(e) => {
                assert(!convert::is_seconds(spans[1]));
                return Err(e);
            },
        };
        assert(convert::is_seconds(spans[1]));
        let chart_window = match seconds_to_duration(record.chart_window_seconds) {
            Ok(span) => span,
            Err(e) => {
                assert(!convert::is_seconds(spans[2]));
                return Err(e);
            },
        };
        assert(convert::is_seconds(spans[2]));
        let max_staleness = match seconds_to_duration(record.max_staleness_seconds) {
            Ok(span) => span,
            Err(e) => {
                assert(!convert::is_seconds(spans[3]));
                return Err(e);
            },
        };
        assert(convert::is_seconds(spans[3]));
        let backend_lag_allowance = match seconds_to_duration(
            record.backend_lag_allowance_seconds,
        ) {
            Ok(span) => span,
            Err(e) => {
                assert(!convert::is_seconds(spans[4]));
                return Err(e);
            },
        };
        assert(convert::is_seconds(spans[4]));
        let forget_host_after = match seconds_to_duration(record.forget_host_after_seconds) {
            Ok(span) => span,
            Err(e) => {
                assert(!convert::is_seconds(spans[5]));
                return Err(e);
            },
        };
        assert(convert::is_seconds(spans[5]));
        Ok(
            PollTuning {
                liveness,
                poll_interval,
                metric_step,
                chart_window,
                max_staleness,
                backend_lag_allowance,
                forget_host_after,
                max_retained_hosts: record.max_retained_hosts,
            },
        )
    }
}

/// A tuning read from a record restates that record, within the bounds that
/// [`policy_records_survive`] puts on its policy.
pub proof fn tuning_records_survive(
    record: PollTuningRecord,
    tuning: PollTuning,
    back: PollTuningRecord,
)
    requires
        record.describes(tuning),
        record.liveness.down_after_intervals <= i32::MAX,
        record.liveness.heartbeat_interval_seconds * record.liveness.down_after_intervals
            < i64::MAX,
        back.restates(tuning),
    ensures
        back == record,
{
    policy_records_survive(record.liveness, tuning.liveness, back.liveness);
}

/// The preset over the default liveness policy: a 30-second beat, stale at 90 s, down
/// at 150 s, a one-hour chart window.
pub fn poll_tuning_defaults() -> (r: PollTuningRecord)
    ensures
        r == (PollTuningRecord {
            liveness: LivenessPolicyRecord {
                heartbeat_interval_seconds: 30,
                stale_after_intervals: 3,
                down_after_intervals: 5,
            },
            poll_interval_seconds: 30,
            metric_step_seconds: 30,
            chart_window_seconds: 3_600,
            max_staleness_seconds: 150,
            backend_lag_allowance_seconds: 180,
            forget_host_after_seconds: 86_400,
            max_retained_hosts: 256,
        }),
{
    let tuning = PollTuning::default();
    proof {
        let interval = tuning.liveness@.heartbeat_interval.total();
        assert(interval == 30_000_000_000);
        assert(liveness::scaled(interval, 3) == 90_000_000_000);
        assert(liveness::scaled(interval, 5) == 150_000_000_000);
        multipliers_are_recovered(interval, 3);
        multipliers_are_recovered(interval, 5);
    }
    PollTuningRecord::from(tuning)
}

/// The preset over a policy, record to record.
pub open spec fn preset_record(liveness: LivenessPolicyRecord) -> PollTuningRecord {
    let seconds = liveness.heartbeat_interval_seconds;
    let interval = seconds * time::NANOS_PER_SEC;
    let stale = liveness::scaled(interval, liveness.stale_after_intervals as int);
    let down = liveness::scaled(interval, liveness.down_after_intervals as int);
    PollTuningRecord {
        liveness: LivenessPolicyRecord {
            heartbeat_interval_seconds: seconds,
            stale_after_intervals: multiplier_in(stale, interval) as u32,
            down_after_intervals: multiplier_in(down, interval) as u32,
        },
        poll_interval_seconds: seconds,
        metric_step_seconds: seconds,
        chart_window_seconds: config::CHART_WINDOW_SECS,
        max_staleness_seconds: (down / (time::NANOS_PER_SEC as int)) as i64,
        backend_lag_allowance_seconds: config::BACKEND_LAG_SECS,
        forget_host_after_seconds: config::FORGET_HOST_SECS,
        max_retained_hosts: config::RETAINED_HOSTS,
    }
}

/// The preset over a liveness policy the user chose. It is derived from the policy
/// rather than checked against it.
pub fn poll_tuning_from_liveness(liveness: LivenessPolicyRecord) -> (r: Result<
    PollTuningRecord,
    FfiError,
>)
    ensures
        r is Ok <==> liveness.accepted(),
        r matches Ok(record) ==> record == preset_record(liveness),
        r matches Err(e) ==> rebuilds_policy(liveness, Err(e)),
{
    match LivenessPolicy::try_from(liveness) {
        Err(e) => Err(e),
        Ok(policy) => {
            proof {
                liveness::thresholds_are_positive(policy@);
            }
            Ok(PollTuningRecord::from(PollTuning::from_liveness(policy)))
        },
    }
}

/// The judged tuning as the record to keep: `verdict` is the client core's answer to
/// whether the eight values go together.
pub fn poll_tuning_validated(tuning: PollTuning, verdict: Result<(), ClientError>) -> (r: Result<
    PollTuningRecord,
    FfiError,
>)
    ensures
        match verdict {
            Ok(_) => r matches Ok(record) && record.restates(tuning),
            Err(error) => r matches Err(e) && e.restates_client(error),
        },
{
    match verdict {
        Ok(_) => Ok(PollTuningRecord::from(tuning)),
        Err(error) => Err(FfiError::from(error)),
    }
}

/// Everything the user configures.
#[derive(Debug, Clone, PartialEq, Eq)]
pub struct FleetConfigRecord {
    /// The URN segment every rule id embeds. Must be non-empty and free of `::`.
    pub environment: String,
    pub tuning: PollTuningRecord,
    /// The rule set as a JSON array, which keeps every rule's id.
    pub rules_json: String,
    /// Charted for every host.
    pub overview_metrics: Vec<MetricKindRecord>,
    /// Charted for the focused host.
    pub detail_metrics: Vec<MetricKindRecord>,
    /// The focused host's id, if any.
    pub focus: Option<String>,
}

/// The error for an environment, around its quoted form.
pub fn environment_refusal(quoted: &str) -> (r: FfiError)
    ensures
        r is InvalidConfig,
        r.message_text() == "environment "@ + quoted@ + " must be non-empty and free of `::`"@,
{
    let mut message = "environment ".to_owned();
    message.append(quoted);
    message.append(" must be non-empty and free of `::`");
    FfiError::InvalidConfig { message }
}

/// The records that restate some metrics, in their order.
pub open spec fn kind_records(kinds: Seq<MetricKind>) -> Seq<MetricKindRecord> {
    Seq::new(kinds.len(), |i: int| MetricKindRecord::restating(kinds[i]))
}

/// The metrics that some records restate, in their order.
pub open spec fn record_kinds(records: Seq<MetricKindRecord>) -> Seq<MetricKind> {
    Seq::new(records.len(), |i: int| records[i].restated())
}

fn kinds_to_records(kinds: &Vec<MetricKind>) -> (r: Vec<MetricKindRecord>)
    ensures
        r@ == kind_records(kinds@),
{
    let mut out: Vec<MetricKindRecord> = Vec::new();
    let mut i: usize = 0;
    while i < kinds.len()
        invariant
            i <= kinds@.len(),
            out@ == kind_records(kinds@).take(i as int),
        decreases kinds@.len() - i,
    {
        out.push(MetricKindRecord::from(kinds[i]));
        i += 1;
        assert(out@ =~= kind_records(kinds@).take(i as int));
    }
    assert(out@ =~= kind_records(kinds@));
    out
}

fn records_to_kinds(records: &Vec<MetricKindRecord>) -> (r: Vec<MetricKind>)
    ensures
        r@ == record_kinds(records@),
{
    let mut out: Vec<MetricKind> = Vec::new();
    let mut i: usize = 0;
    while i < records.len()
        invariant
            i <= records@.len(),
            out@ == record_kinds(records@).take(i as int),
        decreases records@.len() - i,
    {
        out.push(MetricKind::from(records[i]));
        i += 1;
        assert(out@ =~= record_kinds(records@).take(i as int));
    }
    assert(out@ =~= record_kinds(records@));
    out
}

/// The characters of a host id that may be missing.
pub open spec fn focus_text(focus: Option<HostId>) -> Option<Seq<char>> {
    match focus {
        Some(host) => Some(host@),
        None => None,
    }
}

/// The characters of a string that may be missing.
pub open spec fn optional_text(s: Option<String>) -> Option<Seq<char>> {
    match s {
        Some(s) => Some(s@),
        None => None,
    }
}

impl FleetConfigRecord {
    /// The record of a configuration, around the JSON text of its rules.
    pub fn from_config(config: FleetConfig, rules_json: String) -> (r: FleetConfigRecord)
        ensures
            r.environment == config.environment,
            r.tuning.restates(config.tuning),
            r.rules_json == rules_json,
            r.overview_metrics@ == kind_records(config.overview_metrics@),
            r.detail_metrics@ == kind_records(config.detail_metrics@),
            optional_text(r.focus) == focus_text(config.focus),
    {
        FleetConfigRecord {
            environment: config.environment,
            tuning: PollTuningRecord::from(config.tuning),
            rules_json,
            overview_metrics: kinds_to_records(&config.overview_metrics),
            detail_metrics: kinds_to_records(&config.detail_metrics),
            focus: match config.focus {
                Some(host) => Some(host_id_to_string(&host)),
                None => None,
            },
        }
    }

    /// Why an environment is refused.
    pub open spec fn environment_message(environment: Seq<char>) -> Seq<char> {
        "environment "@ + text::quoted(environment) + " must be non-empty and free of `::`"@
    }

    /// The configuration that the record describes, around what its tuning was judged
    /// to be and what its JSON text was read as. The tuning is asked first, then the
    /// environment, then the rules.
    pub fn into_config(
        self,
        tuning: Result<PollTuning, FfiError>,
        rules: Result<Vec<AlertRule>, FfiError>,
    ) -> (r: Result<FleetConfig, FfiError>)
        ensures
            match tuning {
                Err(e) => r == Err::<FleetConfig, FfiError>(e),
                Ok(tuning) => if !urn::is_segment(self.environment@) {
                    r matches Err(e) && e is InvalidConfig && e.message_text()
                        == FleetConfigRecord::environment_message(self.environment@)
                } else {
                    match rules {
                        Err(e) => r == Err::<FleetConfig, FfiError>(e),
                        Ok(rules) => {
                            &&& r matches Ok(config)
                            &&& config.environment == self.environment
                            &&& config.tuning == tuning
                            &&& config.rules == rules
                            &&& config.overview_metrics@ == record_kinds(self.overview_metrics@)
                            &&& config.detail_metrics@ == record_kinds(self.detail_metrics@)
                            &&& focus_text(config.focus) == optional_text(self.focus)
                        },
                    }
                },
            },
    {
        let tuning = match tuning {
            Ok(tuning) => tuning,
            Err(e) => return Err(e),
        };
        if !urn::can_be_segment(self.environment.as_str()) {
            return Err(
                environment_refusal(text::quote(self.environment.as_str()).as_str()),
            );
        }
        let rules = match rules {
            Ok(rules) => rules,
            Err(e) => return Err(e),
        };
        Ok(
            FleetConfig {
                environment: self.environment,
                tuning,
                rules,
                overview_metrics: records_to_kinds(&self.overview_metrics),
                detail_metrics: records_to_kinds(&self.detail_metrics),
                focus: match self.focus {
                    Some(host) => Some(host_id_from_string(host)),
                    None => None,
                },
            },
        )
    }
}

/// Lists of metrics survive their records.
pub proof fn metric_lists_survive(kinds: Seq<MetricKind>)
    ensures
        record_kinds(kind_records(kinds)) == kinds,
{
    assert forall|i: int| 0 <= i < kinds.len() implies record_kinds(kind_records(kinds))[i]
        == kinds[i] by {
        metric_kind_records_round_trip(kinds[i], MetricKindRecord::restating(kinds[i]));
    }
    assert(record_kinds(kind_records(kinds)) =~= kinds);
}

/// A configuration that is legal and almost certainly not what its author meant.
#[derive(Debug, Clone, PartialEq, Eq)]
pub enum TuningWarningRecord {
    /// The rule's dwell is shorter than the bound alerts are gated at.
    SpikeCanFire { rule_id: String, rule_name: String },
    /// A rule on a counter, whose threshold is compared against a rate.
    CounterThresholdIsRate { rule_id: String, metric: MetricKindRecord },
    /// A rule that can never match a host.
    SelectorMatchesNothing { rule_id: String, rule_name: String },
}

impl TuningWarningRecord {
    /// The record that restates a warning.
    pub open spec fn restating(warning: TuningWarning) -> TuningWarningRecord {
        match warning {
            TuningWarning::SpikeCanFire { rule_id, rule_name } => {
                TuningWarningRecord::SpikeCanFire { rule_id, rule_name }
            },
            TuningWarning::CounterThresholdIsRate { rule_id, metric } => {
                TuningWarningRecord::CounterThresholdIsRate {
                    rule_id,
                    metric: MetricKindRecord::restating(metric),
                }
            },
            TuningWarning::SelectorMatchesNothing { rule_id, rule_name } => {
                TuningWarningRecord::SelectorMatchesNothing { rule_id, rule_name }
            },
        }
    }

    /// The warning that a record restates.
    pub open spec fn restated(self) -> TuningWarning {
        match self {
            TuningWarningRecord::SpikeCanFire { rule_id, rule_name } => {
                TuningWarning::SpikeCanFire { rule_id, rule_name }
            },
            TuningWarningRecord::CounterThresholdIsRate { rule_id, metric } => {
                TuningWarning::CounterThresholdIsRate { rule_id, metric: metric.restated() }
            },
            TuningWarningRecord::SelectorMatchesNothing { rule_id, rule_name } => {
                TuningWarning::SelectorMatchesNothing { rule_id, rule_name }
            },
        }
    }

    /// The record that restates a warning, which stays with its owner.
    pub fn of(warning: &TuningWarning) -> (r: TuningWarningRecord)
        ensures
            r == TuningWarningRecord::restating(*warning),
    {
        match warning {
            TuningWarning::SpikeCanFire { rule_id, rule_name } => {
                TuningWarningRecord::SpikeCanFire {
                    rule_id: rule_id.clone(),
                    rule_name: rule_name.clone(),
                }
            },
            TuningWarning::CounterThresholdIsRate { rule_id, metric } => {
                TuningWarningRecord::CounterThresholdIsRate {
                    rule_id: rule_id.clone(),
                    metric: MetricKindRecord::from(*metric),
                }
            },
            TuningWarning::SelectorMatchesNothing { rule_id, rule_name } => {
                TuningWarningRecord::SelectorMatchesNothing {
                    rule_id: rule_id.clone(),
                    rule_name: rule_name.clone(),
                }
            },
        }
    }
}

impl vstd::std_specs::convert::FromSpecImpl<TuningWarning> for TuningWarningRecord {
    open spec fn obeys_from_spec() -> bool {
        true
    }

    open spec fn from_spec(warning: TuningWarning) -> TuningWarningRecord {
        TuningWarningRecord::restating(warning)
    }
}

impl From<TuningWarning> for TuningWarningRecord {
    fn from(warning: TuningWarning) -> TuningWarningRecord {
        TuningWarningRecord::of(&warning)
    }
}

impl vstd::std_specs::convert::FromSpecImpl<TuningWarningRecord> for TuningWarning {
    open spec fn obeys_from_spec() -> bool {
        true
    }

    open spec fn from_spec(record: TuningWarningRecord) -> TuningWarning {
        record.restated()
    }
}

impl From<TuningWarningRecord> for TuningWarning {
    fn from(record: TuningWarningRecord) -> TuningWarning {
        match record {
            TuningWarningRecord::SpikeCanFire { rule_id, rule_name } => {
                TuningWarning::SpikeCanFire { rule_id, rule_name }
            },
            TuningWarningRecord::CounterThresholdIsRate { rule_id, metric } => {
                TuningWarning::CounterThresholdIsRate { rule_id, metric: MetricKind::from(metric) }
            },
            TuningWarningRecord::SelectorMatchesNothing { rule_id, rule_name } => {
                TuningWarning::SelectorMatchesNothing { rule_id, rule_name }
            },
        }
    }
}

/// Every warning and its record restate each other.
pub proof fn tuning_warning_records_round_trip(value: TuningWarning, record: TuningWarningRecord)
    ensures
        TuningWarningRecord::restating(value).restated() == value,
        TuningWarningRecord::restating(record.restated()) == record,
{
}

/// The records that restate some warnings, in their order.
pub open spec fn warning_records(warnings: Seq<TuningWarning>) -> Seq<TuningWarningRecord> {
    Seq::new(warnings.len(), |i: int| TuningWarningRecord::restating(warnings[i]))
}

/// The records of some warnings.
pub fn warnings_to_records(warnings: &Vec<TuningWarning>) -> (r: Vec<TuningWarningRecord>)
    ensures
        r@ == warning_records(warnings@),
{
    let mut out: Vec<TuningWarningRecord> = Vec::new();
    let mut i: usize = 0;
    while i < warnings.len()
        invariant
            i <= warnings@.len(),
            out@ == warning_records(warnings@).take(i as int),
        decreases warnings@.len() - i,
    {
        out.push(TuningWarningRecord::of(&warnings[i]));
        i += 1;
        assert(out@ =~= warning_records(warnings@).take(i as int));
    }
    assert(out@ =~= warning_records(warnings@));
    out
}

/// The audit of a configuration, as records.
pub fn warnings_of(config: &FleetConfig) -> (r: Vec<TuningWarningRecord>)
    ensures
        warning_record_views(r@) == config::audited(
            config.rules@,
            config.tuning.evidence_horizon(),
        ),
{
    let warnings = config.audit();
    let records = warnings_to_records(&warnings);
    proof {
        let views = config::warning_views(warnings@);
        assert forall|i: int| 0 <= i < views.len() implies views[i]
            == #[trigger] warning_record_views(records@)[i] by {
            tuning_warning_records_round_trip(warnings@[i], records@[i]);
        }
        assert(warning_record_views(records@) =~= views);
    }
    records
}

/// The legal-but-wrong configurations in a config: rules in config order, and within a
/// rule the order of the kinds. A config that was refused is not advised on: its
/// refusal comes back instead.
pub fn fleet_config_audit(config: Result<FleetConfig, FfiError>) -> (r: Result<
    Vec<TuningWarningRecord>,
    FfiError,
>)
    ensures
        match config {
            Err(e) => r == Err::<Vec<TuningWarningRecord>, FfiError>(e),
            Ok(config) => {
                &&& r matches Ok(records)
                &&& warning_record_views(records@) == config::audited(
                    config.rules@,
                    config.tuning.evidence_horizon(),
                )
            },
        },
{
    match config {
        Err(e) => Err(e),
        Ok(config) => Ok(warnings_of(&config)),
    }
}

/// What some records say.
pub open spec fn warning_record_views(records: Seq<TuningWarningRecord>) -> Seq<WarningView> {
    Seq::new(records.len(), |i: int| records[i].restated()@)
}

/// Whether an id is one that a new rule of an environment gets.
pub open spec fn is_rule_id(id: UrnView, environment: Seq<char>) -> bool {
    &&& id.valid()
    &&& id.prefix == urn::DEFAULT_URN_PREFIX@
    &&& id.environment == environment
    &&& id.service == "alerts"@
    &&& id.model == "rule"@
    &&& ident::is_version_7(id.id)
}

/// Whether a record is a new rule, enabled, with these settings.
pub open spec fn is_draft(
    record: AlertRuleRecord,
    environment: Seq<char>,
    name: Seq<char>,
    metric: MetricKindRecord,
    comparator: ComparatorRecord,
    threshold: Number,
    for_duration_seconds: i64,
    selector: SelectorView,
) -> bool {
    &&& exists|id: UrnView|
        is_rule_id(id, environment) && #[trigger] convert::renders_urn(record.id@, id)
    &&& record.name@ == name
    &&& record.metric == metric
    &&& record.selector@ == selector
    &&& record.comparator == comparator
    &&& record.threshold == threshold
    &&& record.for_duration_seconds == for_duration_seconds
    &&& record.enabled
}

/// A drafted rule passes its own validation and is rebuilt under its own id, unless the
/// environment it embeds ends in a colon.
pub proof fn drafts_pass_validation(
    record: AlertRuleRecord,
    environment: Seq<char>,
    name: Seq<char>,
    metric: MetricKindRecord,
    comparator: ComparatorRecord,
    threshold: Number,
    for_duration_seconds: i64,
    selector: SelectorView,
)
    requires
        environment.last() != ':',
        convert::is_seconds(for_duration_seconds),
        alert::rule_complaint(
            name,
            threshold,
            for_duration_seconds * time::NANOS_PER_SEC,
        ) is None,
        config::pointless(metric.restated(), selector) is None,
        is_draft(
            record,
            environment,
            name,
            metric,
            comparator,
            threshold,
            for_duration_seconds,
            selector,
        ),
    ensures
        record.buildable(),
        config::pointless(record.metric.restated(), record.selector@) is None,
        urn::parsed_urn(record.id@) matches Ok(id) && is_rule_id(id, environment),
{
    let id = choose|id: UrnView|
        is_rule_id(id, environment) && #[trigger] convert::renders_urn(record.id@, id);
    reveal_strlit("pessimal");
    reveal_strlit("alerts");
    reveal_strlit("rule");
    assert(id.rereads());
}

/// Authors a new rule, enabled, under a freshly minted id.
pub fn draft_alert_rule(
    environment: String,
    name: String,
    metric: MetricKindRecord,
    comparator: ComparatorRecord,
    threshold: Number,
    for_duration_seconds: i64,
    selector: HostSelectorRecord,
) -> (r: Result<AlertRuleRecord, FfiError>)
    ensures
        if !convert::is_seconds(for_duration_seconds) {
            r matches Err(e) && convert::is_seconds_error(e, for_duration_seconds)
        } else {
            match alert::rule_complaint(
                name@,
                threshold,
                for_duration_seconds * time::NANOS_PER_SEC,
            ) {
                Some(message) => r matches Err(e) && e is InvalidRule && e.message_text()
                    == message,
                None => if !urn::is_segment(environment@) {
                    r matches Err(e) && e is InvalidUrn && e.message_text() == urn::segment_message(
                        environment@,
                    )
                } else {
                    match config::pointless(metric.restated(), selector@) {
                        Some(message) => r matches Err(e) && e is InvalidRule && e.message_text()
                            == message,
                        None => r matches Ok(record) && is_draft(
                            record,
                            environment@,
                            name@,
                            metric,
                            comparator,
                            threshold,
                            for_duration_seconds,
                            selector@,
                        ),
                    }
                },
            }
        },
{
    let for_duration = match seconds_to_duration(for_duration_seconds) {
        Ok(span) => span,
        Err(e) => return Err(e),
    };
    match draft_rule(
        environment.as_str(),
        name.as_str(),
        MetricKind::from(metric),
        Comparator::from(comparator),
        threshold,
        for_duration,
        HostSelector::from(selector),
    ) {
        Err(e) => Err(FfiError::from(e)),
        Ok(rule) => {
            proof {
                metric_kind_records_round_trip(rule.metric, metric);
                comparator_records_round_trip(rule.comparator, comparator);
                assert(is_rule_id(rule.id@, environment@));
            }
            Ok(AlertRuleRecord::from(&rule))
        },
    }
}

/// Checks an edited rule: first that it can be rebuilt, then that it could ever fire.
/// Stricter than carrying a stored rule, on purpose.
pub fn validate_alert_rule(rule: AlertRuleRecord) -> (r: Result<(), FfiError>)
    ensures
        match r {
            Ok(_) => {
                &&& rule.buildable()
                &&& config::pointless(rule.metric.restated(), rule.selector@) is None
            },
            Err(e) => {
                ||| !rule.buildable() && rebuilds(rule, Err(e))
                ||| {
                    &&& rule.buildable()
                    &&& config::pointless(rule.metric.restated(), rule.selector@) matches Some(
                        message,
                    )
                    &&& e is InvalidRule
                    &&& e.message_text() == message
                }
            },
        },
{
    match AlertRule::try_from(rule) {
        Err(e) => Err(e),
        Ok(built) => {
            match validate_rule(&built) {
                Ok(_) => Ok(()),
                Err(e) => Err(FfiError::from(e)),
            }
        },
    }
}

/// A metric crosses the boundary under its own name, both ways.
pub proof fn metric_kind_records_keep_their_names(value: MetricKind, record: MetricKindRecord)
    ensures
        MetricKindRecord::restating(value) == MetricKindRecord::CpuUtilization <==> value == MetricKind::CpuUtilization,
        record.restated() == MetricKind::CpuUtilization <==> record == MetricKindRecord::CpuUtilization,
        MetricKindRecord::restating(value) == MetricKindRecord::MemoryUtilization <==> value == MetricKind::MemoryUtilization,
        record.restated() == MetricKind::MemoryUtilization <==> record == MetricKindRecord::MemoryUtilization,
        MetricKindRecord::restating(value) == MetricKindRecord::MemoryUsage <==> value == MetricKind::MemoryUsage,
        record.restated() == MetricKind::MemoryUsage <==> record == MetricKindRecord::MemoryUsage,
        MetricKindRecord::restating(value) == MetricKindRecord::FilesystemUtilization <==> value == MetricKind::FilesystemUtilization,
        record.restated() == MetricKind::FilesystemUtilization <==> record == MetricKindRecord::FilesystemUtilization,
        MetricKindRecord::restating(value) == MetricKindRecord::FilesystemUsage <==> value == MetricKind::FilesystemUsage,
        record.restated() == MetricKind::FilesystemUsage <==> record == MetricKindRecord::FilesystemUsage,
        MetricKindRecord::restating(value) == MetricKindRecord::NetworkIo <==> value == MetricKind::NetworkIo,
        record.restated() == MetricKind::NetworkIo <==> record == MetricKindRecord::NetworkIo,
        MetricKindRecord::restating(value) == MetricKindRecord::LoadAverage1m <==> value == MetricKind::LoadAverage1m,
        record.restated() == MetricKind::LoadAverage1m <==> record == MetricKindRecord::LoadAverage1m,
        MetricKindRecord::restating(value) == MetricKindRecord::LoadAverage5m <==> value == MetricKind::LoadAverage5m,
        record.restated() == MetricKind::LoadAverage5m <==> record == MetricKindRecord::LoadAverage5m,
        MetricKindRecord::restating(value) == MetricKindRecord::LoadAverage15m <==> value == MetricKind::LoadAverage15m,
        record.restated() == MetricKind::LoadAverage15m <==> record == MetricKindRecord::LoadAverage15m,
        MetricKindRecord::restating(value) == MetricKindRecord::SystemUptime <==> value == MetricKind::SystemUptime,
        record.restated() == MetricKind::SystemUptime <==> record == MetricKindRecord::SystemUptime,
        MetricKindRecord::restating(value) == MetricKindRecord::AgentHeartbeat <==> value == MetricKind::AgentHeartbeat,
        record.restated() == MetricKind::AgentHeartbeat <==> record == MetricKindRecord::AgentHeartbeat,
        MetricKindRecord::restating(value) == MetricKindRecord::AgentCollectionFailures <==> value == MetricKind::AgentCollectionFailures,
        record.restated() == MetricKind::AgentCollectionFailures <==> record == MetricKindRecord::AgentCollectionFailures,
{
}

/// A comparator crosses the boundary under its own name, both ways.
pub proof fn comparator_records_keep_their_names(value: Comparator, record: ComparatorRecord)
    ensures
        ComparatorRecord::restating(value) == ComparatorRecord::GreaterThan <==> value == Comparator::GreaterThan,
        record.restated() == Comparator::GreaterThan <==> record == ComparatorRecord::GreaterThan,
        ComparatorRecord::restating(value) == ComparatorRecord::GreaterThanOrEqual <==> value == Comparator::GreaterThanOrEqual,
        record.restated() == Comparator::GreaterThanOrEqual <==> record == ComparatorRecord::GreaterThanOrEqual,
        ComparatorRecord::restating(value) == ComparatorRecord::LessThan <==> value == Comparator::LessThan,
        record.restated() == Comparator::LessThan <==> record == ComparatorRecord::LessThan,
        ComparatorRecord::restating(value) == ComparatorRecord::LessThanOrEqual <==> value == Comparator::LessThanOrEqual,
        record.restated() == Comparator::LessThanOrEqual <==> record == ComparatorRecord::LessThanOrEqual,
{
}

/// A comparator's record means the relation it is named after, between the value and
/// the threshold.
pub proof fn comparator_records_mean_what_they_say(value: Number, threshold: Number)
    ensures
        ComparatorRecord::GreaterThan.restated().holds(value, threshold) <==> threshold.lt(value),
        ComparatorRecord::GreaterThanOrEqual.restated().holds(value, threshold) <==> threshold.le(
            value,
        ),
        ComparatorRecord::LessThan.restated().holds(value, threshold) <==> value.lt(threshold),
        ComparatorRecord::LessThanOrEqual.restated().holds(value, threshold) <==> value.le(
            threshold,
        ),
{
}

/// What a record of a rule says is what the rule says: its name, its threshold, its
/// switch and its hosts as they are, its metric and comparator under their own names,
/// its id as text and its dwell in whole seconds.
pub proof fn rule_records_say_what_their_rules_say(record: AlertRuleRecord, rule: AlertRule)
    requires
        record.restates(rule),
    ensures
        record.id@ == rule.id@.rendered(),
        record.name@ == rule.name@,
        record.metric.restated() == rule.metric,
        record.selector@ == rule.selector@,
        record.comparator == ComparatorRecord::GreaterThan <==> rule.comparator
            == Comparator::GreaterThan,
        record.comparator == ComparatorRecord::GreaterThanOrEqual <==> rule.comparator
            == Comparator::GreaterThanOrEqual,
        record.comparator == ComparatorRecord::LessThan <==> rule.comparator
            == Comparator::LessThan,
        record.comparator == ComparatorRecord::LessThanOrEqual <==> rule.comparator
            == Comparator::LessThanOrEqual,
        record.threshold == rule.threshold,
        record.enabled == rule.enabled,
        0 <= rule.dwell@.total() <= 365 * 86_400 * 1_000_000_000 ==> 0 <= rule.dwell@.total()
            - record.for_duration_seconds * 1_000_000_000 < 1_000_000_000,
{
    metric_kind_records_round_trip(rule.metric, record.metric);
    if 0 <= rule.dwell@.total() <= 365 * 86_400 * 1_000_000_000 {
        convert::seconds_are_the_whole_ones(rule.dwell@);
    }
}

/// A rule that was rebuilt from a record is the rule that the record says: a value
/// breaches it exactly where the record's comparator, by its own name, holds of the
/// value and the record's threshold.
pub proof fn rebuilt_rules_are_what_their_records_say(
    record: AlertRuleRecord,
    rule: AlertRule,
    value: Number,
)
    requires
        rebuilds(record, Ok(rule)),
    ensures
        urn::parsed_urn(record.id@) == Ok::<UrnView, Seq<char>>(rule.id@),
        rule.name@ == record.name@,
        MetricKindRecord::restating(rule.metric) == record.metric,
        rule.selector@ == record.selector@,
        rule.threshold == record.threshold,
        rule.dwell@.total() == record.for_duration_seconds * 1_000_000_000,
        rule.enabled == record.enabled,
        rule.comparator.holds(value, rule.threshold) <==> match record.comparator {
            ComparatorRecord::GreaterThan => record.threshold.lt(value),
            ComparatorRecord::GreaterThanOrEqual => record.threshold.le(value),
            ComparatorRecord::LessThan => value.lt(record.threshold),
            ComparatorRecord::LessThanOrEqual => value.le(record.threshold),
        },
{
    metric_kind_records_round_trip(rule.metric, record.metric);
}

/// A rule is rebuilt exactly where its id reads as a URN, its threshold is finite, its
/// name is more than white space and its dwell is no more than 365 days. A bad id is
/// told as one, a dwell past all counting as a fault, and the rest as a bad rule.
pub proof fn rules_are_rebuilt_where_they_can_be(
    record: AlertRuleRecord,
    r: Result<AlertRule, FfiError>,
)
    requires
        rebuilds(record, r),
    ensures
        ({
            let blank = forall|i: int|
                0 <= i < record.name@.len() ==> text::is_white(#[trigger] record.name@[i]);
            let reads = urn::parsed_urn(record.id@) is Ok;
            let counted = -9_223_372_036_854_775 <= record.for_duration_seconds
                <= 9_223_372_036_854_775;
            &&& r is Ok <==> reads && !blank && record.threshold.finite() && 0
                <= record.for_duration_seconds <= 31_536_000
            &&& r is Ok <==> record.buildable()
            &&& r is Err ==> (r->Err_0 is InvalidUrn <==> !reads)
            &&& r is Err ==> (r->Err_0 is Internal <==> reads && !counted)
            &&& r is Err ==> (r->Err_0 is InvalidRule <==> reads && counted)
            &&& r is Err && !reads ==> r->Err_0.message_text() == urn::parsed_urn(record.id@)->Err_0
            &&& r is Err && reads && counted && !record.threshold.finite()
                ==> r->Err_0.message_text() == "invalid type: null, expected f64"@
            &&& r is Err && reads && counted && record.threshold.finite() && blank
                ==> r->Err_0.message_text() == "invalid alert rule: "@ + "name must not be empty"@
            &&& r is Err && reads && counted && record.threshold.finite() && !blank
                && record.for_duration_seconds < 0 ==> r->Err_0.message_text()
                == "invalid alert rule: "@ + "for_duration must not be negative"@
        }),
{
    alert::rules_are_refused_for_a_reason(
        record.name@,
        record.threshold,
        record.for_duration_seconds * time::NANOS_PER_SEC,
    );
}

/// A threshold that is so many intervals gives that many back, and one that is no whole
/// number of intervals, or too many, gives none.
pub proof fn multipliers_count_whole_intervals(threshold: int, interval: int, times: int)
    ensures
        interval > 0 && 0 <= times <= u32::MAX && threshold == interval * times ==> multiplier_in(
            threshold,
            interval,
        ) == times,
        multiplier_in(threshold, interval) != 0 ==> {
            &&& threshold == interval * multiplier_in(threshold, interval)
            &&& 0 < multiplier_in(threshold, interval) <= u32::MAX
        },
        interval <= 0 ==> multiplier_in(threshold, interval) == 0,
{
    if interval > 0 && 0 <= times && threshold == interval * times {
        assert(threshold % interval == 0 && threshold / interval == times && threshold >= 0)
            by (nonlinear_arith)
            requires
                interval > 0,
                times >= 0,
                threshold == interval * times,
        ;
    }
    if multiplier_in(threshold, interval) != 0 {
        assert(threshold == interval * (threshold / interval)) by (nonlinear_arith)
            requires
                interval > 0,
                threshold % interval == 0,
        ;
        assert(threshold / interval >= 0) by (nonlinear_arith)
            requires
                interval > 0,
                threshold >= 0,
        ;
    }
}

/// A policy is rebuilt with the interval and the multipliers of its record, and exactly
/// where the interval is positive and can be counted, and the stale multiplier is
/// positive and below the down one.
pub proof fn policies_are_rebuilt_where_they_can_be(
    record: LivenessPolicyRecord,
    r: Result<LivenessPolicy, FfiError>,
)
    requires
        rebuilds_policy(record, r),
    ensures
        r is Ok <==> {
            &&& 0 < record.heartbeat_interval_seconds <= 9_223_372_036_854_775
            &&& 1 <= record.stale_after_intervals < record.down_after_intervals
        },
        r is Ok ==> {
            &&& r->Ok_0@.heartbeat_interval.total() == record.heartbeat_interval_seconds
                * 1_000_000_000
            &&& r->Ok_0@.stale_after_intervals == record.stale_after_intervals
            &&& r->Ok_0@.down_after_intervals == record.down_after_intervals
        },
        r is Err ==> (r->Err_0 is InvalidTuning <==> -9_223_372_036_854_775
            <= record.heartbeat_interval_seconds <= 9_223_372_036_854_775),
        r is Err ==> r->Err_0 is InvalidTuning || r->Err_0 is Internal,
        r is Err && r->Err_0 is InvalidTuning ==> {
            let message = r->Err_0.message_text();
            &&& record.heartbeat_interval_seconds <= 0 ==> message
                == "heartbeat interval must be positive"@
            &&& record.heartbeat_interval_seconds > 0 && (record.stale_after_intervals == 0
                || record.down_after_intervals == 0) ==> message
                == "interval multipliers must be at least 1"@
            &&& record.heartbeat_interval_seconds > 0 && 0 < record.down_after_intervals
                <= record.stale_after_intervals ==> message == "stale threshold ("@ + text::numeral(
                record.stale_after_intervals as nat,
            ) + ") must be below down threshold ("@ + text::numeral(
                record.down_after_intervals as nat,
            ) + ")"@
        },
{
}

/// The record of a policy holds its interval in whole seconds, and multipliers that,
/// times the interval, are its thresholds.
pub proof fn policy_records_say_what_their_policies_say(
    record: LivenessPolicyRecord,
    policy: LivenessPolicyWire,
)
    requires
        record.restates(policy),
        0 < policy.heartbeat_interval.total() <= time::max_total(),
    ensures
        0 <= policy.heartbeat_interval.total() - record.heartbeat_interval_seconds * 1_000_000_000
            < 1_000_000_000,
        record.stale_after_intervals != 0 ==> policy.heartbeat_interval.total()
            * record.stale_after_intervals == policy.stale_total(),
        record.down_after_intervals != 0 ==> policy.heartbeat_interval.total()
            * record.down_after_intervals == policy.down_total(),
        record.stale_after_intervals == 0 ==> forall|times: int|
            0 < times <= u32::MAX ==> policy.stale_total()
                != #[trigger] (policy.heartbeat_interval.total() * times),
        record.down_after_intervals == 0 ==> forall|times: int|
            0 < times <= u32::MAX ==> policy.down_total()
                != #[trigger] (policy.heartbeat_interval.total() * times),
{
    let interval = policy.heartbeat_interval.total();
    assert forall|times: int| 0 < times <= u32::MAX && record.stale_after_intervals
        == 0 implies policy.stale_total() != #[trigger] (interval * times) by {
        multipliers_count_whole_intervals(policy.stale_total(), interval, times);
    }
    assert forall|times: int| 0 < times <= u32::MAX && record.down_after_intervals
        == 0 implies policy.down_total() != #[trigger] (interval * times) by {
        multipliers_count_whole_intervals(policy.down_total(), interval, times);
    }
    convert::seconds_are_the_whole_ones(policy.heartbeat_interval);
    multipliers_count_whole_intervals(policy.stale_total(), policy.heartbeat_interval.total(), 0);
    multipliers_count_whole_intervals(policy.down_total(), policy.heartbeat_interval.total(), 0);
}

/// A tuning that was read from a record has each of the record's spans under its own
/// name, to the second.
pub proof fn tunings_are_what_their_records_say(record: PollTuningRecord, tuning: PollTuning)
    requires
        reads_tuning(record, Ok(tuning)),
    ensures
        tuning.poll_interval.total() == record.poll_interval_seconds * 1_000_000_000,
        tuning.metric_step.total() == record.metric_step_seconds * 1_000_000_000,
        tuning.chart_window.total() == record.chart_window_seconds * 1_000_000_000,
        tuning.max_staleness.total() == record.max_staleness_seconds * 1_000_000_000,
        tuning.backend_lag_allowance.total() == record.backend_lag_allowance_seconds
            * 1_000_000_000,
        tuning.forget_host_after.total() == record.forget_host_after_seconds * 1_000_000_000,
        tuning.max_retained_hosts == record.max_retained_hosts,
        tuning.liveness@.heartbeat_interval.total() == record.liveness.heartbeat_interval_seconds
            * 1_000_000_000,
        tuning.liveness@.stale_after_intervals == record.liveness.stale_after_intervals,
        tuning.liveness@.down_after_intervals == record.liveness.down_after_intervals,
{
}

/// A tuning is refused only for a policy that is refused, or for a span that cannot be
/// counted; the first such span is the one that is told.
pub proof fn tunings_are_refused_for_a_reason(record: PollTuningRecord, e: FfiError)
    requires
        reads_tuning(record, Err(e)),
    ensures
        ({
            let counted = |seconds: i64|
                -9_223_372_036_854_775 <= seconds <= 9_223_372_036_854_775;
            let policy = 0 < record.liveness.heartbeat_interval_seconds <= 9_223_372_036_854_775
                && 1 <= record.liveness.stale_after_intervals
                < record.liveness.down_after_intervals;
            &&& !(policy && counted(record.poll_interval_seconds) && counted(
                record.metric_step_seconds,
            ) && counted(record.chart_window_seconds) && counted(record.max_staleness_seconds)
                && counted(record.backend_lag_allowance_seconds) && counted(
                record.forget_host_after_seconds,
            ))
            &&& policy && !counted(record.poll_interval_seconds) ==> convert::is_seconds_error(
                e,
                record.poll_interval_seconds,
            )
            &&& policy && counted(record.poll_interval_seconds) && !counted(
                record.metric_step_seconds,
            ) ==> convert::is_seconds_error(e, record.metric_step_seconds)
            &&& policy && counted(record.poll_interval_seconds) && counted(
                record.metric_step_seconds,
            ) && !counted(record.chart_window_seconds) ==> convert::is_seconds_error(
                e,
                record.chart_window_seconds,
            )
            &&& policy && counted(record.poll_interval_seconds) && counted(
                record.metric_step_seconds,
            ) && counted(record.chart_window_seconds) && !counted(record.max_staleness_seconds)
                ==> convert::is_seconds_error(e, record.max_staleness_seconds)
            &&& policy ==> e is Internal
            &&& !policy ==> rebuilds_policy(record.liveness, Err(e))
        }),
{
    if record.liveness.accepted() {
        let spans = record.spans();
        let i = choose|i: int|
            {
                &&& 0 <= i < 6
                &&& !convert::is_seconds(#[trigger] spans[i])
                &&& convert::is_seconds_error(e, spans[i])
                &&& forall|k: int| 0 <= k < i ==> convert::is_seconds(#[trigger] spans[k])
            };
        assert(spans[0] == record.poll_interval_seconds);
        assert(spans[1] == record.metric_step_seconds);
        assert(spans[2] == record.chart_window_seconds);
        assert(spans[3] == record.max_staleness_seconds);
        assert(spans[4] == record.backend_lag_allowance_seconds);
        assert(spans[5] == record.forget_host_after_seconds);
        assert(i > 0 ==> convert::is_seconds(spans[0]));
        assert(i > 1 ==> convert::is_seconds(spans[1]));
        assert(i > 2 ==> convert::is_seconds(spans[2]));
        assert(i > 3 ==> convert::is_seconds(spans[3]));
    }
}

/// The record of a tuning has each span under its own name, in whole seconds.
pub proof fn tuning_records_say_what_their_tunings_say(record: PollTuningRecord, tuning: PollTuning)
    requires
        record.restates(tuning),
    ensures
        record.poll_interval_seconds == convert::seconds_of(tuning.poll_interval),
        record.metric_step_seconds == convert::seconds_of(tuning.metric_step),
        record.chart_window_seconds == convert::seconds_of(tuning.chart_window),
        record.max_staleness_seconds == convert::seconds_of(tuning.max_staleness),
        record.backend_lag_allowance_seconds == convert::seconds_of(tuning.backend_lag_allowance),
        record.forget_host_after_seconds == convert::seconds_of(tuning.forget_host_after),
        record.max_retained_hosts == tuning.max_retained_hosts,
        record.liveness.restates(tuning.liveness@),
{
}

/// The preset over a policy keeps the policy, polls and queries once a heartbeat, and
/// lets a sample be as old as a host that is down, wherever that can be counted.
pub proof fn preset_records_follow_their_policy(policy: LivenessPolicyRecord)
    requires
        policy.accepted(),
        policy.down_after_intervals <= i32::MAX,
        policy.heartbeat_interval_seconds * policy.down_after_intervals < i64::MAX,
    ensures
        preset_record(policy).liveness == policy,
        preset_record(policy).poll_interval_seconds == policy.heartbeat_interval_seconds,
        preset_record(policy).metric_step_seconds == policy.heartbeat_interval_seconds,
        preset_record(policy).chart_window_seconds == 3_600,
        preset_record(policy).max_staleness_seconds == policy.heartbeat_interval_seconds
            * policy.down_after_intervals,
        preset_record(policy).backend_lag_allowance_seconds == 180,
        preset_record(policy).forget_host_after_seconds == 86_400,
        preset_record(policy).max_retained_hosts == 256,
{
    let seconds = policy.heartbeat_interval_seconds as int;
    let interval = seconds * 1_000_000_000;
    let stale = policy.stale_after_intervals as int;
    let down = policy.down_after_intervals as int;
    assert(interval * down == seconds * down * 1_000_000_000) by (nonlinear_arith)
        requires
            interval == seconds * 1_000_000_000,
    ;
    assert(interval * stale <= interval * down && seconds * down >= 0) by (nonlinear_arith)
        requires
            interval > 0,
            seconds > 0,
            0 < stale < down,
    ;
    multipliers_are_recovered(interval, stale);
    multipliers_are_recovered(interval, down);
}

/// Lists of metrics cross one for one, in their order, each under its own name.
pub proof fn metric_lists_cross_one_for_one(
    kinds: Seq<MetricKind>,
    records: Seq<MetricKindRecord>,
)
    ensures
        kind_records(kinds).len() == kinds.len(),
        forall|i: int|
            0 <= i < kinds.len() ==> (#[trigger] kind_records(kinds)[i]).restated() == kinds[i],
        record_kinds(records).len() == records.len(),
        forall|i: int|
            0 <= i < records.len() ==> MetricKindRecord::restating(
                #[trigger] record_kinds(records)[i],
            ) == records[i],
{
    assert forall|i: int| 0 <= i < kinds.len() implies (
    #[trigger] kind_records(kinds)[i]).restated() == kinds[i] by {
        metric_kind_records_round_trip(kinds[i], MetricKindRecord::restating(kinds[i]));
    }
    assert forall|i: int| 0 <= i < records.len() implies MetricKindRecord::restating(
        #[trigger] record_kinds(records)[i],
    ) == records[i] by {
        metric_kind_records_round_trip(records[i].restated(), records[i]);
    }
}

/// A missing host stays missing, and one that is named keeps its name.
pub proof fn focus_is_told_as_it_is(host: HostId, s: String)
    ensures
        focus_text(Some(host)) == Some(host@),
        focus_text(None) is None,
        optional_text(Some(s)) == Some(s@),
        optional_text(None) is None,
{
}

/// A warning crosses as the kind it is, with its rule's id and what it is about.
pub proof fn warning_records_keep_their_kind(
    rule_id: String,
    rule_name: String,
    metric: MetricKind,
)
    ensures
        TuningWarningRecord::restating(TuningWarning::SpikeCanFire { rule_id, rule_name }) == (
        TuningWarningRecord::SpikeCanFire { rule_id, rule_name }),
        TuningWarningRecord::restating(TuningWarning::SelectorMatchesNothing { rule_id, rule_name })
            == (TuningWarningRecord::SelectorMatchesNothing { rule_id, rule_name }),
        TuningWarningRecord::restating(TuningWarning::CounterThresholdIsRate { rule_id, metric })
            == (TuningWarningRecord::CounterThresholdIsRate {
            rule_id,
            metric: MetricKindRecord::restating(metric),
        }),
{
}

/// Lists of warnings cross one for one, in their order.
pub proof fn warnings_cross_one_for_one(warnings: Seq<TuningWarning>)
    ensures
        warning_records(warnings).len() == warnings.len(),
        forall|i: int|
            0 <= i < warnings.len() ==> (#[trigger] warning_records(warnings)[i]).restated()
                == warnings[i],
        warning_record_views(warning_records(warnings)) == config::warning_views(warnings),
{
    assert forall|i: int| 0 <= i < warnings.len() implies (
    #[trigger] warning_records(warnings)[i]).restated() == warnings[i] by {
        tuning_warning_records_round_trip(warnings[i], warning_records(warnings)[i]);
    }
    assert(warning_record_views(warning_records(warnings)) =~= config::warning_views(warnings));
}

/// A draft is what was asked for, switched on, under a new id of its environment.
pub proof fn drafts_are_what_was_asked_for(
    record: AlertRuleRecord,
    environment: Seq<char>,
    name: Seq<char>,
    metric: MetricKindRecord,
    comparator: ComparatorRecord,
    threshold: Number,
    for_duration_seconds: i64,
    selector: SelectorView,
)
    requires
        is_draft(
            record,
            environment,
            name,
            metric,
            comparator,
            threshold,
            for_duration_seconds,
            selector,
        ),
    ensures
        record.enabled,
        record.name@ == name,
        record.metric == metric,
        record.comparator == comparator,
        record.threshold == threshold,
        record.for_duration_seconds == for_duration_seconds,
        record.selector@ == selector,
        exists|id: UrnView|
            {
                &&& record.id@ == #[trigger] id.rendered()
                &&& id.prefix == "pessimal"@
                &&& id.environment == environment
                &&& id.service == "alerts"@
                &&& id.model == "rule"@
                &&& ident::is_version_7(id.id)
            },
{
    let id = choose|id: UrnView|
        is_rule_id(id, environment) && #[trigger] convert::renders_urn(record.id@, id);
    assert(record.id@ == id.rendered());
}

/// A selector and its record say the same: every host, one host by its name, or the
/// hosts that are listed, in their order.
pub proof fn selectors_say_whom_they_mean(
    selector: HostSelector,
    record: HostSelectorRecord,
)
    requires
        record@ == selector@,
    ensures
        record is All <==> selector is All,
        record is Host <==> selector is Host,
        record is AnyOf <==> selector is AnyOf,
        selector is Host ==> record->host_id@ == selector->Host_0@,
        selector is AnyOf ==> record->host_ids@.len() == selector->AnyOf_0@.len(),
        selector is AnyOf ==> forall|i: int|
            0 <= i < selector->AnyOf_0@.len() ==> (#[trigger] record->host_ids@[i])@
                == selector->AnyOf_0@[i]@,
{
    if selector is AnyOf && record is AnyOf {
        let names = text::views(record->host_ids@);
        assert(names.len() == selector->AnyOf_0@.len());
        assert forall|i: int| 0 <= i < selector->AnyOf_0@.len() implies (
        #[trigger] record->host_ids@[i])@ == selector->AnyOf_0@[i]@ by {
            assert(names[i] == selector@->AnyOf_0[i]);
        }
    }
}

/// Two records of a rule that say the same are equal in every part.
pub proof fn equal_rule_records_agree(a: AlertRuleRecord, b: AlertRuleRecord)
    requires
        a.same(b),
    ensures
        a.id@ == b.id@ && a.name@ == b.name@ && a.metric == b.metric && a.selector@ == b.selector@,
        a.comparator == b.comparator && a.threshold == b.threshold && a.enabled == b.enabled,
        a.for_duration_seconds == b.for_duration_seconds,
{
}

/// A refused environment is told as it came, and a threshold that is no number as the
/// null it would be stored as.
pub proof fn refusals_say_what_was_refused(environment: Seq<char>)
    ensures
        FleetConfigRecord::environment_message(environment) == "environment "@ + text::quoted(
            environment,
        ) + " must be non-empty and free of `::`"@,
        not_a_number_text() == "invalid type: null, expected f64"@,
{
}

} // verus!
