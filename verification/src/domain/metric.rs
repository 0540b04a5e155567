//! Metric identity, units, and time series.
//!
//! Metric names follow the OpenTelemetry system semantic conventions.
//! [`MetricKind`] is the closed set that is charted and alerted on.

use crate::domain::error::CoreError;
use crate::domain::host::HostId;
use crate::number::Number;
use crate::text;
use crate::text_map::TextMap;
use crate::time;
use crate::time::{TimeDelta, Timestamp};
use vstd::prelude::*;

verus! {

/// Metric namespace for Pessimal's own instrumentation, as opposed to `system.*`
/// semantic-convention metrics.
pub const PESSIMAL_METRIC_NAMESPACE: &'static str = "pessimal.agent";

/// Whether a metric's values stand alone or accumulate.
#[derive(Debug, Clone, Copy, PartialEq, Eq, Hash, Structural)]
pub enum InstrumentKind {
    /// A value that is meaningful on its own, e.g. current CPU utilisation.
    Gauge,
    /// A monotonically increasing total since the process or host started.
    Counter,
}

/// The unit a metric's values carry.
#[derive(Debug, Clone, Copy, PartialEq, Eq, Hash, Structural)]
pub enum MetricUnit {
    /// Dimensionless ratio in `0.0..=1.0`. OTLP unit `1`.
    Ratio,
    /// Bytes. OTLP unit `By`.
    Bytes,
    /// Seconds. OTLP unit `s`.
    Seconds,
    /// A plain count. OTLP unit `{count}`.
    Count,
    /// Run-queue load average: dimensionless but not a ratio.
    Load,
}

impl MetricUnit {
    /// The OTLP unit.
    pub fn otel_unit(self) -> (r: &'static str)
        ensures
            r@ == (match self {
                MetricUnit::Ratio | MetricUnit::Load => "1"@,
                MetricUnit::Bytes => "By"@,
                MetricUnit::Seconds => "s"@,
                MetricUnit::Count => "{count}"@,
            }),
    {
        match self {
            MetricUnit::Ratio | MetricUnit::Load => "1",
            MetricUnit::Bytes => "By",
            MetricUnit::Seconds => "s",
            MetricUnit::Count => "{count}",
        }
    }
}

/// The metrics Pessimal models end to end: collected by the agent, charted by the
/// apps, and alertable.
#[derive(Debug, Clone, Copy, PartialEq, Eq, Hash, PartialOrd, Ord, Structural)]
pub enum MetricKind {
    CpuUtilization,
    MemoryUtilization,
    MemoryUsage,
    FilesystemUtilization,
    FilesystemUsage,
    NetworkIo,
    LoadAverage1m,
    LoadAverage5m,
    LoadAverage15m,
    SystemUptime,
    /// Pessimal's own liveness beat.
    AgentHeartbeat,
    /// Cumulative host-sampling failures.
    AgentCollectionFailures,
}

impl MetricKind {
    /// Every modelled metric, in display order.
    pub const ALL: [MetricKind; 12] = [
        MetricKind::CpuUtilization,
        MetricKind::MemoryUtilization,
        MetricKind::MemoryUsage,
        MetricKind::FilesystemUtilization,
        MetricKind::FilesystemUsage,
        MetricKind::NetworkIo,
        MetricKind::LoadAverage1m,
        MetricKind::LoadAverage5m,
        MetricKind::LoadAverage15m,
        MetricKind::SystemUptime,
        MetricKind::AgentHeartbeat,
        MetricKind::AgentCollectionFailures,
    ];

    /// The OpenTelemetry instrument name, as characters.
    pub open spec fn name_text(self) -> Seq<char> {
        match self {
            MetricKind::CpuUtilization => "system.cpu.utilization"@,
            MetricKind::MemoryUtilization => "system.memory.utilization"@,
            MetricKind::MemoryUsage => "system.memory.usage"@,
            MetricKind::FilesystemUtilization => "system.filesystem.utilization"@,
            MetricKind::FilesystemUsage => "system.filesystem.usage"@,
            MetricKind::NetworkIo => "system.network.io"@,
            MetricKind::LoadAverage1m => "system.cpu.load_average.1m"@,
            MetricKind::LoadAverage5m => "system.cpu.load_average.5m"@,
            MetricKind::LoadAverage15m => "system.cpu.load_average.15m"@,
            MetricKind::SystemUptime => "system.uptime"@,
            MetricKind::AgentHeartbeat => "pessimal.agent.heartbeat"@,
            MetricKind::AgentCollectionFailures => "pessimal.agent.collection_failures"@,
        }
    }

    /// The human label, as characters.
    pub open spec fn label_text(self) -> Seq<char> {
        match self {
            MetricKind::CpuUtilization => "CPU"@,
            MetricKind::MemoryUtilization => "Memory"@,
            MetricKind::MemoryUsage => "Memory used"@,
            MetricKind::FilesystemUtilization => "Disk"@,
            MetricKind::FilesystemUsage => "Disk used"@,
            MetricKind::NetworkIo => "Network I/O"@,
            MetricKind::LoadAverage1m => "Load (1m)"@,
            MetricKind::LoadAverage5m => "Load (5m)"@,
            MetricKind::LoadAverage15m => "Load (15m)"@,
            MetricKind::SystemUptime => "Uptime"@,
            MetricKind::AgentHeartbeat => "Heartbeat"@,
            MetricKind::AgentCollectionFailures => "Collection failures"@,
        }
    }

    /// The OpenTelemetry instrument name this metric is exported and queried
    /// under.
    pub fn otel_name(self) -> (r: &'static str)
        ensures
            r@ == self.name_text(),
    {
        match self {
            MetricKind::CpuUtilization => "system.cpu.utilization",
            MetricKind::MemoryUtilization => "system.memory.utilization",
            MetricKind::MemoryUsage => "system.memory.usage",
            MetricKind::FilesystemUtilization => "system.filesystem.utilization",
            MetricKind::FilesystemUsage => "system.filesystem.usage",
            MetricKind::NetworkIo => "system.network.io",
            MetricKind::LoadAverage1m => "system.cpu.load_average.1m",
            MetricKind::LoadAverage5m => "system.cpu.load_average.5m",
            MetricKind::LoadAverage15m => "system.cpu.load_average.15m",
            MetricKind::SystemUptime => "system.uptime",
            MetricKind::AgentHeartbeat => "pessimal.agent.heartbeat",
            MetricKind::AgentCollectionFailures => "pessimal.agent.collection_failures",
        }
    }

    /// Which OTel instrument this metric is exported as.
    pub fn instrument_kind(self) -> (r: InstrumentKind)
        ensures
            r == InstrumentKind::Counter <==> self == MetricKind::NetworkIo || self
                == MetricKind::AgentHeartbeat || self == MetricKind::AgentCollectionFailures,
    {
        match self {
            MetricKind::NetworkIo
            | MetricKind::AgentHeartbeat
            | MetricKind::AgentCollectionFailures => InstrumentKind::Counter,
            _ => InstrumentKind::Gauge,
        }
    }

    /// The unit of each metric.
    pub open spec fn unit_of(self) -> MetricUnit {
        match self {
            MetricKind::CpuUtilization
            | MetricKind::MemoryUtilization
            | MetricKind::FilesystemUtilization => MetricUnit::Ratio,
            MetricKind::MemoryUsage | MetricKind::FilesystemUsage | MetricKind::NetworkIo => {
                MetricUnit::Bytes
            },
            MetricKind::SystemUptime => MetricUnit::Seconds,
            MetricKind::LoadAverage1m | MetricKind::LoadAverage5m | MetricKind::LoadAverage15m => {
                MetricUnit::Load
            },
            MetricKind::AgentHeartbeat | MetricKind::AgentCollectionFailures => MetricUnit::Count,
        }
    }

    /// The unit its values carry.
    pub fn unit(self) -> (r: MetricUnit)
        ensures
            r == self.unit_of(),
    {
        match self {
            MetricKind::CpuUtilization
            | MetricKind::MemoryUtilization
            | MetricKind::FilesystemUtilization => MetricUnit::Ratio,
            MetricKind::MemoryUsage | MetricKind::FilesystemUsage | MetricKind::NetworkIo => {
                MetricUnit::Bytes
            },
            MetricKind::SystemUptime => MetricUnit::Seconds,
            MetricKind::LoadAverage1m | MetricKind::LoadAverage5m | MetricKind::LoadAverage15m => {
                MetricUnit::Load
            },
            MetricKind::AgentHeartbeat | MetricKind::AgentCollectionFailures => MetricUnit::Count,
        }
    }

    /// A short human label. Not localised: the UI layer owns presentation.
    pub fn display_name(self) -> (r: &'static str)
        ensures
            r@ == self.label_text(),
    {
        match self {
            MetricKind::CpuUtilization => "CPU",
            MetricKind::MemoryUtilization => "Memory",
            MetricKind::MemoryUsage => "Memory used",
            MetricKind::FilesystemUtilization => "Disk",
            MetricKind::FilesystemUsage => "Disk used",
            MetricKind::NetworkIo => "Network I/O",
            MetricKind::LoadAverage1m => "Load (1m)",
            MetricKind::LoadAverage5m => "Load (5m)",
            MetricKind::LoadAverage15m => "Load (15m)",
            MetricKind::SystemUptime => "Uptime",
            MetricKind::AgentHeartbeat => "Heartbeat",
            MetricKind::AgentCollectionFailures => "Collection failures",
        }
    }

    /// Resolves an OTel instrument name back to a modelled metric.
    pub fn from_otel_name(name: &str) -> (r: Result<MetricKind, CoreError>)
        ensures
            match r {
                Ok(kind) => kind.name_text() == name@,
                Err(e) => {
                    &&& e matches CoreError::UnknownMetric(what)
                    &&& what@ == name@
                    &&& forall|kind: MetricKind| #[trigger] kind.name_text() != name@
                },
            },
    {
        let all = MetricKind::ALL;
        let mut i: usize = 0;
        while i < 12
            invariant
                i <= 12,
                all == MetricKind::ALL,
                forall|k: int| 0 <= k < i ==> (#[trigger] all@[k]).name_text() != name@,
            decreases 12 - i,
        {
            if text::same(all[i].otel_name(), name) {
                return Ok(all[i]);
            }
            i += 1;
        }
        proof {
            assert forall|kind: MetricKind| #[trigger] kind.name_text() != name@ by {
                all_is_complete(kind);
                let k = choose|k: int| 0 <= k < 12 && all@[k] == kind;
                assert(all@[k].name_text() != name@);
            }
        }
        Err(CoreError::UnknownMetric(name.to_owned()))
    }
}

/// Every metric is listed.
pub proof fn all_is_complete(kind: MetricKind)
    ensures
        MetricKind::ALL@.contains(kind),
{
    assert(MetricKind::ALL@[0] == MetricKind::CpuUtilization);
}

/// No two metrics share an instrument name, so a name resolves back to its own
/// metric.
pub proof fn metric_names_are_unique(a: MetricKind, b: MetricKind)
    requires
        a.name_text() == b.name_text(),
    ensures
        a == b,
{
    reveal_strlit("system.cpu.utilization");
    reveal_strlit("system.memory.utilization");
    reveal_strlit("system.memory.usage");
    reveal_strlit("system.filesystem.utilization");
    reveal_strlit("system.filesystem.usage");
    reveal_strlit("system.network.io");
    reveal_strlit("system.cpu.load_average.1m");
    reveal_strlit("system.cpu.load_average.5m");
    reveal_strlit("system.cpu.load_average.15m");
    reveal_strlit("system.uptime");
    reveal_strlit("pessimal.agent.heartbeat");
    reveal_strlit("pessimal.agent.collection_failures");
    assert("system.cpu.utilization"@.len() == 22);
    assert("system.memory.utilization"@.len() == 25);
    assert("system.memory.usage"@.len() == 19);
    assert("system.filesystem.utilization"@.len() == 29);
    assert("system.filesystem.usage"@.len() == 23);
    assert("system.network.io"@.len() == 17);
    assert("system.cpu.load_average.1m"@.len() == 26);
    assert("system.cpu.load_average.5m"@.len() == 26);
    assert("system.cpu.load_average.15m"@.len() == 27);
    assert("system.uptime"@.len() == 13);
    assert("pessimal.agent.heartbeat"@.len() == 24);
    assert("pessimal.agent.collection_failures"@.len() == 34);
    assert("system.cpu.load_average.1m"@[24] == '1' && "system.cpu.load_average.5m"@[24] == '5');
}

/// Pessimal's own metrics stand under its namespace and no other does; those stand
/// under `system.`.
pub proof fn metric_names_are_namespaced(kind: MetricKind)
    ensures
        PESSIMAL_METRIC_NAMESPACE@.is_prefix_of(kind.name_text()) <==> kind
            == MetricKind::AgentHeartbeat || kind == MetricKind::AgentCollectionFailures,
        "system."@.is_prefix_of(kind.name_text()) <==> !(kind == MetricKind::AgentHeartbeat || kind
            == MetricKind::AgentCollectionFailures),
{
    reveal_strlit("pessimal.agent");
    reveal_strlit("system.");
    reveal_strlit("system.cpu.utilization");
    reveal_strlit("system.memory.utilization");
    reveal_strlit("system.memory.usage");
    reveal_strlit("system.filesystem.utilization");
    reveal_strlit("system.filesystem.usage");
    reveal_strlit("system.network.io");
    reveal_strlit("system.cpu.load_average.1m");
    reveal_strlit("system.cpu.load_average.5m");
    reveal_strlit("system.cpu.load_average.15m");
    reveal_strlit("system.uptime");
    reveal_strlit("pessimal.agent.heartbeat");
    reveal_strlit("pessimal.agent.collection_failures");
    let name = kind.name_text();
    if kind == MetricKind::AgentHeartbeat || kind == MetricKind::AgentCollectionFailures {
        assert("pessimal.agent"@ =~= name.subrange(0, 14));
        assert("system."@[0] == 's' && name[0] == 'p');
    } else {
        assert("system."@ =~= name.subrange(0, 7));
        assert("pessimal.agent"@[0] == 'p' && name[0] == 's');
    }
}

/// A half-open query window, `start..end`.
#[derive(Debug, Clone, Copy, PartialEq, Eq, Structural)]
pub struct TimeRange {
    start: Timestamp,
    end: Timestamp,
}

/// A window as it is stored: nothing has checked it yet.
#[derive(Debug, Clone, Copy, PartialEq, Eq, Structural)]
pub struct TimeRangeWire {
    pub start: Timestamp,
    pub end: Timestamp,
}

/// Why a window that does not start before its end is refused.
pub open spec fn order_message(start: Timestamp, end: Timestamp) -> Seq<char> {
    "start "@ + time::timestamp_text(start.secs(), start.nanos()) + " is not before end "@
        + time::timestamp_text(end.secs(), end.nanos())
}

/// The error for a window, around its ends as text.
pub fn order_refusal(start: &str, end: &str) -> (r: CoreError)
    ensures
        r matches CoreError::InvalidTimeRange(why) && why@ == "start "@ + start@
            + " is not before end "@ + end@,
{
    let mut why = "start ".to_owned();
    why.append(start);
    why.append(" is not before end ");
    why.append(end);
    CoreError::InvalidTimeRange(why)
}

impl TimeRange {
    #[verifier::type_invariant]
    pub closed spec fn ordered(self) -> bool {
        self.start.lt(self.end)
    }

    pub closed spec fn spec_start(&self) -> Timestamp {
        self.start
    }

    pub closed spec fn spec_end(&self) -> Timestamp {
        self.end
    }

    /// Whether an instant lies in the window, whose end is excluded.
    pub open spec fn covers(self, at: Timestamp) -> bool {
        self.spec_start().le(at) && at.lt(self.spec_end())
    }

    /// The window from `start` to `end`, where `start` comes first.
    pub fn new(start: Timestamp, end: Timestamp) -> (r: Result<TimeRange, CoreError>)
        ensures
            r is Ok <==> start.lt(end),
            r matches Ok(range) ==> range.ordered() && range.spec_start() == start
                && range.spec_end() == end,
            r matches Err(e) ==> {
                &&& e matches CoreError::InvalidTimeRange(why)
                &&& why@ == order_message(start, end)
            },
    {
        if !start.is_before(end) {
            return Err(order_refusal(start.to_string().as_str(), end.to_string().as_str()));
        }
        Ok(TimeRange { start, end })
    }

    /// The window of length `window` ending at `now`. The window must be
    /// positive, and must not reach back past the calendar.
    pub fn ending_at(now: Timestamp, window: TimeDelta) -> (r: Result<TimeRange, CoreError>)
        ensures
            r is Ok <==> window.total() > 0 && now.total() - window.total() >= time::MIN_SECS
                * time::NANOS_PER_SEC,
            r matches Ok(range) ==> {
                &&& range.ordered()
                &&& range.spec_end() == now
                &&& range.spec_start().total() == now.total() - window.total()
                &&& range.spec_start().on_calendar()
                &&& if now.is_leap() && window.total() < time::NANOS_PER_SEC {
                    range.spec_start().secs() == now.secs()
                } else {
                    !range.spec_start().is_leap()
                }
            },
            r matches Err(e) ==> {
                &&& e matches CoreError::InvalidTimeRange(why)
                &&& why@ == if window.total() <= 0 {
                    "window "@ + time::delta_text(window.total()) + " must be positive"@
                } else {
                    "window reaches back past the representable range of a timestamp"@
                }
            },
    {
        if !TimeDelta::seconds(0).is_less(window) {
            let mut why = "window ".to_owned();
            why.append(window.to_string().as_str());
            why.append(" must be positive");
            return Err(CoreError::InvalidTimeRange(why));
        }
        proof {
            use_type_invariant(&now);
            time::timestamp_is_its_fields(now, now);
        }
        match now.checked_sub_signed(window) {
            None => Err(
                CoreError::InvalidTimeRange(
                    "window reaches back past the representable range of a timestamp".to_owned(),
                ),
            ),
            Some(start) => {
                proof {
                    time::timestamp_is_its_fields(start, start);
                    assert(start.lt(now));
                }
                TimeRange::new(start, now)
            },
        }
    }

    /// The window as it is stored.
    pub fn to_wire(&self) -> (r: TimeRangeWire)
        ensures
            r == (TimeRangeWire { start: self.spec_start(), end: self.spec_end() }),
            r.start.lt(r.end),
    {
        proof {
            use_type_invariant(self);
        }
        TimeRangeWire { start: self.start, end: self.end }
    }

    /// The first instant of the window.
    pub fn start(&self) -> (r: Timestamp)
        ensures
            r == self.spec_start(),
            r.lt(self.spec_end()),
    {
        proof {
            use_type_invariant(self);
        }
        self.start
    }

    /// The instant at which the window is over.
    pub fn end(&self) -> (r: Timestamp)
        ensures
            r == self.spec_end(),
            self.spec_start().lt(r),
    {
        proof {
            use_type_invariant(self);
        }
        self.end
    }

    /// How long the window is.
    pub fn duration(&self) -> (r: TimeDelta)
        ensures
            r.in_balance(),
            r.total() == self.spec_end().nanos_since(self.spec_start()),
    {
        self.end.signed_duration_since(self.start)
    }

    /// Whether an instant lies in the window.
    pub fn contains(&self, at: Timestamp) -> (r: bool)
        ensures
            r == self.covers(at),
    {
        !at.is_before(self.start) && at.is_before(self.end)
    }
}

impl vstd::std_specs::convert::TryFromSpecImpl<TimeRangeWire> for TimeRange {
    open spec fn obeys_try_from_spec() -> bool {
        false
    }

    open spec fn try_from_spec(wire: TimeRangeWire) -> Result<TimeRange, CoreError> {
        arbitrary()
    }
}

impl TryFrom<TimeRangeWire> for TimeRange {
    type Error = CoreError;

    /// Restores a stored window, held to what [`TimeRange::new`] asks.
    fn try_from(wire: TimeRangeWire) -> (r: Result<TimeRange, CoreError>)
        ensures
            r is Ok <==> wire.start.lt(wire.end),
            r matches Ok(range) ==> range.ordered() && range.spec_start() == wire.start
                && range.spec_end() == wire.end,
            r matches Err(e) ==> {
                &&& e matches CoreError::InvalidTimeRange(why)
                &&& why@ == order_message(wire.start, wire.end)
            },
    {
        TimeRange::new(wire.start, wire.end)
    }
}

/// A window covers its start and not its end.
pub proof fn time_range_is_half_open(range: TimeRange)
    requires
        range.ordered(),
    ensures
        range.covers(range.spec_start()),
        !range.covers(range.spec_end()),
{
}

/// A window that ends at `now` is as long as was asked for, unless `now` lies in
/// a leap second at an earlier time of day than the window's start.
pub proof fn ending_at_has_the_requested_length(start: Timestamp, now: Timestamp, window: TimeDelta)
    requires
        start.total() == now.total() - window.total(),
        if now.is_leap() && window.total() < time::NANOS_PER_SEC {
            start.secs() == now.secs()
        } else {
            !start.is_leap()
        },
        !(now.is_leap() && now.secs() % 86_400 < start.secs() % 86_400),
    ensures
        now.nanos_since(start) == window.total(),
{
}

/// One observation.
#[derive(Debug, Clone, Copy, PartialEq, Eq, Structural)]
pub struct MetricPoint {
    pub at: Timestamp,
    pub value: Number,
}

impl MetricPoint {
    /// The observation of `value` at an instant.
    pub fn new(at: Timestamp, value: Number) -> (r: MetricPoint)
        ensures
            r == (MetricPoint { at, value }),
    {
        MetricPoint { at, value }
    }
}

/// Whether points stand oldest first.
pub open spec fn oldest_first(points: Seq<MetricPoint>) -> bool {
    forall|i: int, j: int|
        0 <= i < j < points.len() ==> (#[trigger] points[i]).at.le((#[trigger] points[j]).at)
}

/// The points at one instant, in their order.
pub open spec fn points_at(points: Seq<MetricPoint>, at: Timestamp) -> Seq<MetricPoint>
    decreases points.len(),
{
    if points.len() == 0 {
        Seq::empty()
    } else if points.last().at == at {
        points_at(points.drop_last(), at).push(points.last())
    } else {
        points_at(points.drop_last(), at)
    }
}

/// Whether `sorted` holds the points of `points`, oldest first, those of one
/// instant in the order they came in.
pub open spec fn is_stable_sort(points: Seq<MetricPoint>, sorted: Seq<MetricPoint>) -> bool {
    &&& oldest_first(sorted)
    &&& sorted.len() == points.len()
    &&& forall|at: Timestamp| #[trigger] points_at(sorted, at) == points_at(points, at)
}

/// The last point not after `at`, or nothing where all are.
pub open spec fn last_at(points: Seq<MetricPoint>, at: Timestamp) -> Option<MetricPoint>
    decreases points.len(),
{
    if points.len() == 0 {
        None
    } else if points.last().at.le(at) {
        Some(points.last())
    } else {
        last_at(points.drop_last(), at)
    }
}

/// The points that a window covers, in their order.
pub open spec fn covered(points: Seq<MetricPoint>, range: TimeRange) -> Seq<MetricPoint>
    decreases points.len(),
{
    if points.len() == 0 {
        Seq::empty()
    } else if range.covers(points.last().at) {
        covered(points.drop_last(), range).push(points.last())
    } else {
        covered(points.drop_last(), range)
    }
}

proof fn lemma_points_at_append(a: Seq<MetricPoint>, b: Seq<MetricPoint>, at: Timestamp)
    ensures
        points_at(a + b, at) == points_at(a, at) + points_at(b, at),
    decreases b.len(),
{
    if b.len() == 0 {
        assert(a + b =~= a);
        assert(points_at(a, at) + points_at(b, at) =~= points_at(a, at));
    } else {
        assert((a + b).drop_last() =~= a + b.drop_last());
        lemma_points_at_append(a, b.drop_last(), at);
        assert(points_at(a + b, at) =~= points_at(a, at) + points_at(b, at));
    }
}

proof fn lemma_no_points_at(points: Seq<MetricPoint>, at: Timestamp)
    requires
        forall|i: int| 0 <= i < points.len() ==> (#[trigger] points[i]).at != at,
    ensures
        points_at(points, at) == Seq::<MetricPoint>::empty(),
    decreases points.len(),
{
    if points.len() > 0 {
        assert(points.last() == points[points.len() - 1]);
        assert forall|i: int| 0 <= i < points.drop_last().len() implies (
        #[trigger] points.drop_last()[i]).at != at by {
            assert(points.drop_last()[i] == points[i]);
        }
        lemma_no_points_at(points.drop_last(), at);
    }
}

/// Putting a point behind all that are not after it, and before the rest, keeps
/// a stable sort of one more point.
proof fn lemma_insert_sorts(
    points: Seq<MetricPoint>,
    sorted: Seq<MetricPoint>,
    i: int,
    point: MetricPoint,
)
    requires
        is_stable_sort(points, sorted),
        0 <= i <= sorted.len(),
        forall|k: int| 0 <= k < i ==> (#[trigger] sorted[k]).at.le(point.at),
        i < sorted.len() ==> point.at.lt(sorted[i].at),
    ensures
        is_stable_sort(points.push(point), sorted.insert(i, point)),
{
    reveal_with_fuel(points_at, 2);
    let after = sorted.insert(i, point);
    let head = sorted.take(i);
    let tail = sorted.skip(i);
    assert(sorted =~= head + tail);
    assert(after =~= (head + seq![point]) + tail);
    assert forall|x: int, y: int| 0 <= x < y < after.len() implies (#[trigger] after[x]).at.le(
        (#[trigger] after[y]).at,
    ) by {
        if y < i {
            assert(sorted[x].at.le(sorted[y].at));
        } else if y == i {
            assert(sorted[x].at.le(point.at));
        } else if x < i {
            assert(sorted[x].at.le(sorted[y - 1].at));
        } else if x == i {
            if y - 1 > i {
                assert(sorted[i].at.le(sorted[y - 1].at));
            }
        } else {
            assert(sorted[x - 1].at.le(sorted[y - 1].at));
        }
    }
    assert forall|at: Timestamp| #[trigger] points_at(after, at) == points_at(
        points.push(point),
        at,
    ) by {
        lemma_points_at_append(head + seq![point], tail, at);
        lemma_points_at_append(head, seq![point], at);
        lemma_points_at_append(head, tail, at);
        assert(points.push(point).drop_last() =~= points);
        assert(points_at(sorted, at) == points_at(points, at));
        assert(seq![point].drop_last() =~= Seq::<MetricPoint>::empty());
        if point.at == at {
            assert forall|k: int| 0 <= k < tail.len() implies (#[trigger] tail[k]).at != at by {
                assert(tail[k] == sorted[i + k]);
                if k > 0 {
                    assert(sorted[i].at.le(sorted[i + k].at));
                }
            }
            lemma_no_points_at(tail, at);
            assert(points_at(after, at) =~= points_at(head, at).push(point));
            assert(points_at(sorted, at) =~= points_at(head, at));
        } else {
            assert(points_at(seq![point], at) =~= Seq::<MetricPoint>::empty());
            assert(points_at(after, at) =~= points_at(sorted, at));
        }
    }
}

/// Points in the order of their instants.
#[derive(Debug, PartialEq, Eq)]
pub struct SortedPoints {
    points: Vec<MetricPoint>,
}

impl View for SortedPoints {
    type V = Seq<MetricPoint>;

    closed spec fn view(&self) -> Seq<MetricPoint> {
        self.points@
    }
}

impl SortedPoints {
    #[verifier::type_invariant]
    pub closed spec fn sorted(self) -> bool {
        oldest_first(self.points@)
    }

    /// Sorts points oldest first. Points of one instant keep their order.
    pub fn sort(points: Vec<MetricPoint>) -> (r: SortedPoints)
        ensures
            is_stable_sort(points@, r@),
    {
        let mut sorted: Vec<MetricPoint> = Vec::new();
        let mut n: usize = 0;
        while n < points.len()
            invariant
                n <= points@.len(),
                is_stable_sort(points@.take(n as int), sorted@),
            decreases points@.len() - n,
        {
            let point = points[n];
            let mut i: usize = sorted.len();
            while i > 0 && point.at.is_before(sorted[i - 1].at)
                invariant
                    i <= sorted@.len(),
                    i < sorted@.len() ==> point.at.lt(sorted@[i as int].at),
                decreases i,
            {
                i -= 1;
            }
            proof {
                assert forall|k: int| 0 <= k < i implies (#[trigger] sorted@[k]).at.le(point.at) by {
                    if k < i - 1 {
                        assert(sorted@[k].at.le(sorted@[i - 1].at));
                    }
                }
                lemma_insert_sorts(points@.take(n as int), sorted@, i as int, point);
                assert(points@.take(n as int).push(point) =~= points@.take(n + 1));
            }
            sorted.insert(i, point);
            n += 1;
        }
        assert(points@.take(points@.len() as int) =~= points@);
        SortedPoints { points: sorted }
    }

    /// The points, oldest first.
    pub fn as_vec(&self) -> (r: &Vec<MetricPoint>)
        ensures
            r@ == self@,
            oldest_first(r@),
    {
        proof {
            use_type_invariant(self);
        }
        &self.points
    }
}

impl Clone for SortedPoints {
    fn clone(&self) -> (r: SortedPoints)
        ensures
            r@ == self@,
    {
        let mut points: Vec<MetricPoint> = Vec::new();
        let mut i: usize = 0;
        while i < self.points.len()
            invariant
                i <= self.points@.len(),
                points@ == self.points@.take(i as int),
            decreases self.points@.len() - i,
        {
            points.push(self.points[i]);
            i += 1;
            assert(points@ =~= self.points@.take(i as int));
        }
        proof {
            use_type_invariant(self);
            assert(points@ =~= self.points@);
        }
        SortedPoints { points }
    }
}

/// A metric's values for one host over a window, oldest point first.
#[derive(Debug, Clone, PartialEq, Eq)]
pub struct MetricSeries {
    pub host: HostId,
    pub kind: MetricKind,
    /// Distinguishing labels for a per-device or per-mount series. Empty for
    /// host-wide metrics.
    pub attributes: TextMap,
    pub points: SortedPoints,
}

/// A series as it is stored: its points may stand in any order.
#[derive(Debug, Clone, PartialEq, Eq)]
pub struct MetricSeriesWire {
    pub host: HostId,
    pub kind: MetricKind,
    pub attributes: TextMap,
    pub points: Vec<MetricPoint>,
}

/// The greatest of some numbers: one of them, which no other exceeds. It is NaN
/// only where all of them are.
pub open spec fn is_greatest(points: Seq<MetricPoint>, greatest: Number) -> bool {
    &&& exists|i: int| 0 <= i < points.len() && (#[trigger] points[i]).value == greatest
    &&& forall|i: int|
        0 <= i < points.len() && !(#[trigger] points[i]).value.nan() ==> points[i].value.le(
            greatest,
        )
}

/// The least of some numbers: one of them, which exceeds no other. It is NaN only
/// where all of them are.
pub open spec fn is_least(points: Seq<MetricPoint>, least: Number) -> bool {
    &&& exists|i: int| 0 <= i < points.len() && (#[trigger] points[i]).value == least
    &&& forall|i: int|
        0 <= i < points.len() && !(#[trigger] points[i]).value.nan() ==> least.le(points[i].value)
}

impl MetricSeries {
    /// Builds a series, sorting points oldest first so callers need not.
    pub fn new(host: HostId, kind: MetricKind, points: Vec<MetricPoint>) -> (r: MetricSeries)
        ensures
            r.host == host,
            r.kind == kind,
            r.attributes@ == Map::<Seq<char>, Seq<char>>::empty(),
            is_stable_sort(points@, r.points@),
    {
        MetricSeries { host, kind, attributes: TextMap::new(), points: SortedPoints::sort(points) }
    }

    /// The series with its distinguishing labels.
    pub fn with_attributes(self, attributes: TextMap) -> (r: MetricSeries)
        ensures
            r.host == self.host,
            r.kind == self.kind,
            r.attributes == attributes,
            r.points@ == self.points@,
    {
        MetricSeries { host: self.host, kind: self.kind, attributes, points: self.points }
    }

    /// Restores a stored series: its points are sorted as [`MetricSeries::new`]
    /// sorts them, and its labels survive.
    pub fn from_wire(wire: MetricSeriesWire) -> (r: MetricSeries)
        ensures
            r.host == wire.host,
            r.kind == wire.kind,
            r.attributes == wire.attributes,
            is_stable_sort(wire.points@, r.points@),
    {
        MetricSeries::new(wire.host, wire.kind, wire.points).with_attributes(wire.attributes)
    }

    /// The series as it is stored.
    pub fn to_wire(&self) -> (r: MetricSeriesWire)
        ensures
            r.host == self.host,
            r.kind == self.kind,
            r.attributes@ == self.attributes@,
            r.points@ == self.points@,
            oldest_first(r.points@),
    {
        let kept = self.points();
        let mut points: Vec<MetricPoint> = Vec::new();
        let mut i: usize = 0;
        while i < kept.len()
            invariant
                i <= kept@.len(),
                points@ == kept@.take(i as int),
            decreases kept@.len() - i,
        {
            points.push(kept[i]);
            i += 1;
            assert(points@ =~= kept@.take(i as int));
        }
        assert(points@ =~= kept@);
        MetricSeriesWire {
            host: self.host.clone(),
            kind: self.kind,
            attributes: self.attributes.clone(),
            points,
        }
    }

    /// The points, oldest first.
    pub fn points(&self) -> (r: &Vec<MetricPoint>)
        ensures
            r@ == self.points@,
            oldest_first(r@),
    {
        self.points.as_vec()
    }

    /// Whether there is no point.
    pub fn is_empty(&self) -> (r: bool)
        ensures
            r == (self.points@.len() == 0),
    {
        self.points().len() == 0
    }

    /// The unit its values carry.
    pub fn unit(&self) -> (r: MetricUnit)
        ensures
            r == self.kind.unit_of(),
    {
        self.kind.unit()
    }

    /// The most recent point, if any.
    pub fn latest(&self) -> (r: Option<MetricPoint>)
        ensures
            r == (if self.points@.len() == 0 {
                None
            } else {
                Some(self.points@.last())
            }),
            r matches Some(p) ==> forall|i: int|
                0 <= i < self.points@.len() ==> (#[trigger] self.points@[i]).at.le(p.at),
    {
        let points = self.points();
        if points.len() == 0 {
            None
        } else {
            Some(points[points.len() - 1])
        }
    }

    /// The most recent point at or before `at`: what an alert evaluated "as of" a
    /// past instant should see.
    pub fn latest_at(&self, at: Timestamp) -> (r: Option<MetricPoint>)
        ensures
            r == last_at(self.points@, at),
    {
        let points = self.points();
        let mut n: usize = points.len();
        assert(points@.take(n as int) =~= points@);
        while n > 0
            invariant
                n <= points@.len(),
                points@ == self.points@,
                last_at(self.points@, at) == last_at(points@.take(n as int), at),
            decreases n,
        {
            assert(points@.take(n as int).last() == points@[n - 1]);
            assert(points@.take(n as int).drop_last() =~= points@.take(n - 1));
            if !at.is_before(points[n - 1].at) {
                return Some(points[n - 1]);
            }
            n -= 1;
        }
        None
    }

    /// Points falling inside `range`.
    pub fn within(&self, range: TimeRange) -> (r: Vec<MetricPoint>)
        ensures
            r@ == covered(self.points@, range),
    {
        let points = self.points();
        let mut out: Vec<MetricPoint> = Vec::new();
        let mut i: usize = 0;
        while i < points.len()
            invariant
                i <= points@.len(),
                out@ == covered(points@.take(i as int), range),
            decreases points@.len() - i,
        {
            assert(points@.take(i + 1).drop_last() =~= points@.take(i as int));
            assert(points@.take(i + 1).last() == points@[i as int]);
            if range.contains(points[i].at) {
                out.push(points[i]);
            }
            i += 1;
        }
        assert(points@.take(points@.len() as int) =~= points@);
        out
    }

    /// The greatest value, or nothing where there is no point. A NaN gives way to
    /// any other value.
    pub fn max(&self) -> (r: Option<Number>)
        ensures
            r is None <==> self.points@.len() == 0,
            r matches Some(greatest) ==> is_greatest(self.points@, greatest),
    {
        let points = self.points();
        if points.len() == 0 {
            return None;
        }
        let mut best = points[0].value;
        assert(points@[0].value == best);
        let mut i: usize = 1;
        while i < points.len()
            invariant
                1 <= i <= points@.len(),
                exists|k: int| 0 <= k < points@.len() && (#[trigger] points@[k]).value == best,
                forall|k: int|
                    0 <= k < i && !(#[trigger] points@[k]).value.nan() ==> points@[k].value.le(best),
            decreases points@.len() - i,
        {
            let value = points[i].value;
            if best.is_nan() || best.less(value) {
                best = value;
                assert(points@[i as int].value == best);
            }
            i += 1;
        }
        Some(best)
    }

    /// The least value, or nothing where there is no point. A NaN gives way to any
    /// other value.
    pub fn min(&self) -> (r: Option<Number>)
        ensures
            r is None <==> self.points@.len() == 0,
            r matches Some(least) ==> is_least(self.points@, least),
    {
        let points = self.points();
        if points.len() == 0 {
            return None;
        }
        let mut best = points[0].value;
        assert(points@[0].value == best);
        let mut i: usize = 1;
        while i < points.len()
            invariant
                1 <= i <= points@.len(),
                exists|k: int| 0 <= k < points@.len() && (#[trigger] points@[k]).value == best,
                forall|k: int|
                    0 <= k < i && !(#[trigger] points@[k]).value.nan() ==> best.le(points@[k].value),
            decreases points@.len() - i,
        {
            let value = points[i].value;
            if best.is_nan() || value.less(best) {
                best = value;
                assert(points@[i as int].value == best);
            }
            i += 1;
        }
        Some(best)
    }
}

/// What [`MetricSeries::latest_at`] finds in sorted points is the newest of those
/// not after the instant, and nothing only where all come later.
pub proof fn last_at_is_newest(points: Seq<MetricPoint>, at: Timestamp)
    requires
        oldest_first(points),
    ensures
        match last_at(points, at) {
            Some(found) => {
                &&& points.contains(found)
                &&& found.at.le(at)
                &&& forall|i: int|
                    0 <= i < points.len() && (#[trigger] points[i]).at.le(at) ==> points[i].at.le(
                        found.at,
                    )
            },
            None => forall|i: int| 0 <= i < points.len() ==> at.lt((#[trigger] points[i]).at),
        },
    decreases points.len(),
{
    if points.len() > 0 {
        let front = points.drop_last();
        assert(points.last() == points[points.len() - 1]);
        if points.last().at.le(at) {
            assert(points.contains(points.last()));
        } else {
            assert(oldest_first(front)) by {
                assert forall|i: int, j: int| 0 <= i < j < front.len() implies (
                #[trigger] front[i]).at.le((#[trigger] front[j]).at) by {
                    assert(points[i].at.le(points[j].at));
                }
            }
            last_at_is_newest(front, at);
            match last_at(front, at) {
                Some(found) => {
                    let k = choose|k: int| 0 <= k < front.len() && front[k] == found;
                    assert(points[k] == found);
                    assert forall|i: int|
                        0 <= i < points.len() && (#[trigger] points[i]).at.le(
                            at,
                        ) implies points[i].at.le(found.at) by {
                        assert(front[i] == points[i]);
                    }
                },
                None => {
                    assert forall|i: int| 0 <= i < points.len() implies at.lt(
                        (#[trigger] points[i]).at,
                    ) by {
                        if i < front.len() {
                            assert(front[i] == points[i]);
                        }
                    }
                },
            }
        }
    }
}

proof fn lemma_points_at_members(points: Seq<MetricPoint>, at: Timestamp)
    ensures
        points_at(points, at).len() > 0 <==> exists|i: int|
            0 <= i < points.len() && (#[trigger] points[i]).at == at,
    decreases points.len(),
{
    if points.len() > 0 {
        let front = points.drop_last();
        lemma_points_at_members(front, at);
        assert(points.last() == points[points.len() - 1]);
        if exists|i: int| 0 <= i < front.len() && (#[trigger] front[i]).at == at {
            let i = choose|i: int| 0 <= i < front.len() && (#[trigger] front[i]).at == at;
            assert(points[i].at == at);
        }
        if exists|i: int| 0 <= i < points.len() && (#[trigger] points[i]).at == at {
            let i = choose|i: int| 0 <= i < points.len() && (#[trigger] points[i]).at == at;
            if i < front.len() {
                assert(front[i].at == at);
            }
        }
    }
}

proof fn lemma_front_is_oldest_first(points: Seq<MetricPoint>)
    requires
        oldest_first(points),
        points.len() > 0,
    ensures
        oldest_first(points.drop_last()),
{
    let front = points.drop_last();
    assert forall|i: int, j: int| 0 <= i < j < front.len() implies (#[trigger] front[i]).at.le(
        (#[trigger] front[j]).at,
    ) by {
        assert(points[i].at.le(points[j].at));
    }
}

/// Two sorted lists that hold the same points at every instant, in the same
/// order, are the same: how the points arrived leaves no other trace.
pub proof fn sorted_points_are_canonical(a: Seq<MetricPoint>, b: Seq<MetricPoint>)
    requires
        oldest_first(a),
        oldest_first(b),
        forall|at: Timestamp| #[trigger] points_at(a, at) == points_at(b, at),
    ensures
        a == b,
    decreases a.len(),
{
    if a.len() == 0 {
        if b.len() > 0 {
            lemma_points_at_members(b, b[0].at);
            assert(points_at(a, b[0].at) == points_at(b, b[0].at));
        }
        assert(a =~= b);
    } else {
        let x = a.last();
        assert(x == a[a.len() - 1]);
        lemma_points_at_members(a, x.at);
        lemma_points_at_members(b, x.at);
        assert(points_at(a, x.at) == points_at(b, x.at));
        let k = choose|k: int| 0 <= k < b.len() && (#[trigger] b[k]).at == x.at;
        let y = b.last();
        assert(y == b[b.len() - 1]);
        lemma_points_at_members(b, y.at);
        lemma_points_at_members(a, y.at);
        assert(points_at(a, y.at) == points_at(b, y.at));
        let m = choose|m: int| 0 <= m < a.len() && (#[trigger] a[m]).at == y.at;
        assert(b[k].at.le(y.at) || k == b.len() - 1);
        assert(a[m].at.le(x.at) || m == a.len() - 1);
        time::timestamp_is_its_fields(x.at, y.at);
        assert(x.at == y.at);
        assert(points_at(a, x.at).last() == x);
        assert(points_at(b, y.at).last() == y);
        assert(x == y);
        let front_a = a.drop_last();
        let front_b = b.drop_last();
        lemma_front_is_oldest_first(a);
        lemma_front_is_oldest_first(b);
        assert forall|at: Timestamp| #[trigger] points_at(front_a, at) == points_at(
            front_b,
            at,
        ) by {
            assert(points_at(a, at) == points_at(b, at));
            if at == x.at {
                assert(points_at(front_a, at) =~= points_at(a, at).drop_last());
                assert(points_at(front_b, at) =~= points_at(b, at).drop_last());
            }
        }
        sorted_points_are_canonical(front_a, front_b);
        assert(a =~= front_a.push(x));
        assert(b =~= front_b.push(y));
    }
}

/// Storing a series and restoring it keeps its points.
pub proof fn restored_points_are_kept(points: Seq<MetricPoint>, restored: Seq<MetricPoint>)
    requires
        oldest_first(points),
        is_stable_sort(points, restored),
    ensures
        restored == points,
{
    sorted_points_are_canonical(restored, points);
}

/// Every metric has its own name on the wire.
pub proof fn metric_names_are_their_own(kind: MetricKind)
    ensures
        kind.name_text() == "system.cpu.utilization"@ <==> kind == MetricKind::CpuUtilization,
        kind.name_text() == "system.memory.utilization"@ <==> kind
            == MetricKind::MemoryUtilization,
        kind.name_text() == "system.memory.usage"@ <==> kind == MetricKind::MemoryUsage,
        kind.name_text() == "system.filesystem.utilization"@ <==> kind
            == MetricKind::FilesystemUtilization,
        kind.name_text() == "system.filesystem.usage"@ <==> kind == MetricKind::FilesystemUsage,
        kind.name_text() == "system.network.io"@ <==> kind == MetricKind::NetworkIo,
        kind.name_text() == "system.cpu.load_average.1m"@ <==> kind == MetricKind::LoadAverage1m,
        kind.name_text() == "system.cpu.load_average.5m"@ <==> kind == MetricKind::LoadAverage5m,
        kind.name_text() == "system.cpu.load_average.15m"@ <==> kind == MetricKind::LoadAverage15m,
        kind.name_text() == "system.uptime"@ <==> kind == MetricKind::SystemUptime,
        kind.name_text() == "pessimal.agent.heartbeat"@ <==> kind == MetricKind::AgentHeartbeat,
        kind.name_text() == "pessimal.agent.collection_failures"@ <==> kind
            == MetricKind::AgentCollectionFailures,
{
    assert forall|other: MetricKind| #[trigger] other.name_text() == kind.name_text() implies other
        == kind by {
        metric_names_are_unique(other, kind);
    }
    assert(MetricKind::CpuUtilization.name_text() == "system.cpu.utilization"@);
    assert(MetricKind::MemoryUtilization.name_text() == "system.memory.utilization"@);
    assert(MetricKind::MemoryUsage.name_text() == "system.memory.usage"@);
    assert(MetricKind::FilesystemUtilization.name_text() == "system.filesystem.utilization"@);
    assert(MetricKind::FilesystemUsage.name_text() == "system.filesystem.usage"@);
    assert(MetricKind::NetworkIo.name_text() == "system.network.io"@);
    assert(MetricKind::LoadAverage1m.name_text() == "system.cpu.load_average.1m"@);
    assert(MetricKind::LoadAverage5m.name_text() == "system.cpu.load_average.5m"@);
    assert(MetricKind::LoadAverage15m.name_text() == "system.cpu.load_average.15m"@);
    assert(MetricKind::SystemUptime.name_text() == "system.uptime"@);
    assert(MetricKind::AgentHeartbeat.name_text() == "pessimal.agent.heartbeat"@);
    assert(MetricKind::AgentCollectionFailures.name_text()
        == "pessimal.agent.collection_failures"@);
}

/// Every metric has its own label on the screen.
pub proof fn metric_labels_are_their_own(kind: MetricKind)
    ensures
        kind.label_text() == "CPU"@ <==> kind == MetricKind::CpuUtilization,
        kind.label_text() == "Memory"@ <==> kind == MetricKind::MemoryUtilization,
        kind.label_text() == "Memory used"@ <==> kind == MetricKind::MemoryUsage,
        kind.label_text() == "Disk"@ <==> kind == MetricKind::FilesystemUtilization,
        kind.label_text() == "Disk used"@ <==> kind == MetricKind::FilesystemUsage,
        kind.label_text() == "Network I/O"@ <==> kind == MetricKind::NetworkIo,
        kind.label_text() == "Load (1m)"@ <==> kind == MetricKind::LoadAverage1m,
        kind.label_text() == "Load (5m)"@ <==> kind == MetricKind::LoadAverage5m,
        kind.label_text() == "Load (15m)"@ <==> kind == MetricKind::LoadAverage15m,
        kind.label_text() == "Uptime"@ <==> kind == MetricKind::SystemUptime,
        kind.label_text() == "Heartbeat"@ <==> kind == MetricKind::AgentHeartbeat,
        kind.label_text() == "Collection failures"@ <==> kind
            == MetricKind::AgentCollectionFailures,
{
    reveal_strlit("CPU");
    reveal_strlit("Memory");
    reveal_strlit("Memory used");
    reveal_strlit("Disk");
    reveal_strlit("Disk used");
    reveal_strlit("Network I/O");
    reveal_strlit("Load (1m)");
    reveal_strlit("Load (5m)");
    reveal_strlit("Load (15m)");
    reveal_strlit("Uptime");
    reveal_strlit("Heartbeat");
    reveal_strlit("Collection failures");
    assert("CPU"@.len() == 3);
    assert("Memory"@.len() == 6);
    assert("Memory used"@.len() == 11);
    assert("Disk"@.len() == 4);
    assert("Disk used"@.len() == 9);
    assert("Network I/O"@.len() == 11);
    assert("Load (1m)"@.len() == 9);
    assert("Load (5m)"@.len() == 9);
    assert("Load (15m)"@.len() == 10);
    assert("Uptime"@.len() == 6);
    assert("Heartbeat"@.len() == 9);
    assert("Collection failures"@.len() == 19);
    assert("Memory"@[0] == 'M' && "Uptime"@[0] == 'U');
    assert("Memory used"@[0] == 'M' && "Network I/O"@[0] == 'N');
    assert("Disk used"@[0] == 'D' && "Load (1m)"@[0] == 'L' && "Load (5m)"@[0] == 'L'
        && "Heartbeat"@[0] == 'H');
    assert("Load (1m)"@[6] == '1' && "Load (5m)"@[6] == '5');
}

/// What a metric measures goes by its name: a utilization is a ratio, a usage or an I/O
/// is bytes, an uptime is seconds, a load average is a load, and what the agent counts
/// of itself is a count.
pub proof fn units_go_with_their_metrics(kind: MetricKind)
    ensures
        kind.unit_of() == MetricUnit::Ratio <==> kind == MetricKind::CpuUtilization || kind
            == MetricKind::MemoryUtilization || kind == MetricKind::FilesystemUtilization,
        kind.unit_of() == MetricUnit::Bytes <==> kind == MetricKind::MemoryUsage || kind
            == MetricKind::FilesystemUsage || kind == MetricKind::NetworkIo,
        kind.unit_of() == MetricUnit::Seconds <==> kind == MetricKind::SystemUptime,
        kind.unit_of() == MetricUnit::Load <==> kind == MetricKind::LoadAverage1m || kind
            == MetricKind::LoadAverage5m || kind == MetricKind::LoadAverage15m,
        kind.unit_of() == MetricUnit::Count <==> PESSIMAL_METRIC_NAMESPACE@.is_prefix_of(
            kind.name_text(),
        ),
{
    metric_names_are_namespaced(kind);
}

/// A window covers an instant exactly where its start is not after it and its end is.
pub proof fn windows_cover_what_lies_between_their_ends(range: TimeRange, at: Timestamp)
    ensures
        range.covers(at) <==> !at.lt(range.spec_start()) && at.lt(range.spec_end()),
{
}

proof fn lemma_points_at_counts(points: Seq<MetricPoint>, point: MetricPoint)
    ensures
        points.to_multiset().count(point) == points_at(points, point.at).to_multiset().count(point),
    decreases points.len(),
{
    broadcast use vstd::seq_lib::group_to_multiset_ensures;

    if points.len() > 0 {
        let front = points.drop_last();
        lemma_points_at_counts(front, point);
        assert(points =~= front.push(points.last()));
        assert(points.to_multiset() =~= front.to_multiset().insert(points.last()));
        if points.last().at == point.at {
            assert(points_at(points, point.at).to_multiset() =~= points_at(
                front,
                point.at,
            ).to_multiset().insert(points.last()));
        }
    }
}

/// Sorting keeps every point, as often as it came, and puts none behind a later one.
pub proof fn sorting_loses_and_adds_nothing(points: Seq<MetricPoint>, sorted: Seq<MetricPoint>)
    requires
        is_stable_sort(points, sorted),
    ensures
        sorted.to_multiset() == points.to_multiset(),
        forall|i: int, j: int|
            0 <= i < j < sorted.len() ==> !(#[trigger] sorted[j]).at.lt((#[trigger] sorted[i]).at),
{
    assert forall|point: MetricPoint| #[trigger]
        sorted.to_multiset().count(point) == points.to_multiset().count(point) by {
        lemma_points_at_counts(sorted, point);
        lemma_points_at_counts(points, point);
        assert(points_at(sorted, point.at) == points_at(points, point.at));
    }
    assert(sorted.to_multiset() =~= points.to_multiset());
    assert forall|i: int, j: int| 0 <= i < j < sorted.len() implies !(#[trigger] sorted[j]).at.lt(
        (#[trigger] sorted[i]).at,
    ) by {
        assert(sorted[i].at.le(sorted[j].at));
    }
}

/// Two points of one instant keep the order they came in: a sort of two such points
/// changes nothing.
pub proof fn points_of_one_instant_keep_their_order(
    a: MetricPoint,
    b: MetricPoint,
    sorted: Seq<MetricPoint>,
)
    requires
        !b.at.lt(a.at),
        is_stable_sort(seq![a, b], sorted),
    ensures
        sorted == seq![a, b],
{
    assert(oldest_first(seq![a, b]));
    restored_points_are_kept(seq![a, b], sorted);
}

/// A window picks the points from its start up to its end, in their order, and only
/// those.
pub proof fn windows_pick_the_points_between_their_ends(points: Seq<MetricPoint>, range: TimeRange)
    ensures
        covered(points, range) == points.filter(
            |p: MetricPoint| !p.at.lt(range.spec_start()) && p.at.lt(range.spec_end()),
        ),
    decreases points.len(),
{
    reveal(Seq::filter);
    if points.len() > 0 {
        windows_pick_the_points_between_their_ends(points.drop_last(), range);
    }
}

/// The last point at or before an instant is the last one in the series: of several at
/// one instant, the one that stands last.
pub proof fn last_at_stands_last(points: Seq<MetricPoint>, at: Timestamp, k: int)
    requires
        0 <= k < points.len(),
        !at.lt(points[k].at),
        forall|j: int| k < j < points.len() ==> at.lt((#[trigger] points[j]).at),
    ensures
        last_at(points, at) == Some(points[k]),
    decreases points.len(),
{
    if k < points.len() - 1 {
        let front = points.drop_last();
        assert(points.last() == points[points.len() - 1]);
        assert forall|j: int| k < j < front.len() implies at.lt((#[trigger] front[j]).at) by {
            assert(front[j] == points[j]);
        }
        last_at_stands_last(front, at, k);
    }
}

/// The greatest value is one of the series, and no value of the series is above it. It
/// is NaN only where every value is.
pub proof fn no_value_is_above_the_greatest(points: Seq<MetricPoint>, greatest: Number)
    requires
        is_greatest(points, greatest),
    ensures
        exists|i: int| 0 <= i < points.len() && (#[trigger] points[i]).value == greatest,
        forall|i: int| 0 <= i < points.len() ==> !greatest.lt((#[trigger] points[i]).value),
        greatest.nan() ==> forall|i: int|
            0 <= i < points.len() ==> (#[trigger] points[i]).value.nan(),
{
}

/// The least value is one of the series, and no value of the series is below it. It is
/// NaN only where every value is.
pub proof fn no_value_is_below_the_least(points: Seq<MetricPoint>, least: Number)
    requires
        is_least(points, least),
    ensures
        exists|i: int| 0 <= i < points.len() && (#[trigger] points[i]).value == least,
        forall|i: int| 0 <= i < points.len() ==> !(#[trigger] points[i]).value.lt(least),
        least.nan() ==> forall|i: int|
            0 <= i < points.len() ==> (#[trigger] points[i]).value.nan(),
{
}

/// No metric is listed twice.
pub proof fn metrics_are_listed_once(i: int, j: int)
    requires
        0 <= i < j < MetricKind::ALL@.len(),
    ensures
        MetricKind::ALL@[i] != MetricKind::ALL@[j],
        MetricKind::ALL@.len() == 12,
{
}

/// A refused window is told with both its ends, the start first.
pub proof fn refused_windows_name_both_ends(start: Timestamp, end: Timestamp)
    ensures
        order_message(start, end) == "start "@ + time::timestamp_text(start.secs(), start.nanos())
            + " is not before end "@ + time::timestamp_text(end.secs(), end.nanos()),
{
}

} // verus!
