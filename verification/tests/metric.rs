use pessimal::domain::error::CoreError;
use pessimal::domain::host::{HostId, HostSelector};
use pessimal::domain::metric::{
    order_refusal, InstrumentKind, MetricKind, MetricPoint, MetricSeries, MetricSeriesWire,
    MetricUnit, TimeRange, TimeRangeWire, PESSIMAL_METRIC_NAMESPACE,
};
use pessimal::domain::ports::{all_metrics_for, SeriesRequest};
use pessimal::number::Number;
use pessimal::text_map::TextMap;
use pessimal::time::{TimeDelta, Timestamp};

fn at(secs: i64) -> Timestamp {
    Timestamp::from_timestamp(1_760_000_000 + secs, 0).expect("valid timestamp")
}

fn host() -> HostId {
    HostId::new("web-1")
}

fn number(value: f64) -> Number {
    Number::from_bits(value.to_bits())
}

fn float(value: Number) -> f64 {
    f64::from_bits(value.bits)
}

fn point(at: Timestamp, value: f64) -> MetricPoint {
    MetricPoint::new(at, number(value))
}

fn mean(series: &MetricSeries) -> Option<f64> {
    if series.is_empty() {
        return None;
    }
    let sum: f64 = series.points().iter().map(|p| float(p.value)).sum();
    Some(sum / series.points().len() as f64)
}

#[test]
fn every_metric_name_resolves_back_to_its_kind() {
    for kind in MetricKind::ALL {
        assert_eq!(
            MetricKind::from_otel_name(kind.otel_name()).expect("modelled"),
            kind
        );
    }
}

#[test]
fn metric_names_are_unique() {
    let mut names: Vec<&str> = MetricKind::ALL.iter().map(|k| k.otel_name()).collect();
    names.sort_unstable();
    let count = names.len();
    names.dedup();
    assert_eq!(names.len(), count, "duplicate `OTel` metric name");
}

#[test]
fn system_metrics_use_semconv_names_and_pessimal_metrics_are_namespaced() {
    assert_eq!(
        MetricKind::CpuUtilization.otel_name(),
        "system.cpu.utilization"
    );
    assert!(MetricKind::AgentHeartbeat
        .otel_name()
        .starts_with(PESSIMAL_METRIC_NAMESPACE));
}

#[test]
fn rejects_an_unmodelled_metric_name() {
    assert!(matches!(
        MetricKind::from_otel_name("system.paging.faults"),
        Err(CoreError::UnknownMetric(_))
    ));
}

#[test]
fn cumulative_metrics_are_counters_and_the_rest_are_gauges() {
    assert_eq!(
        MetricKind::NetworkIo.instrument_kind(),
        InstrumentKind::Counter,
        "network I/O is cumulative bytes, not a level"
    );
    assert_eq!(
        MetricKind::AgentHeartbeat.instrument_kind(),
        InstrumentKind::Counter
    );
    assert_eq!(
        MetricKind::CpuUtilization.instrument_kind(),
        InstrumentKind::Gauge
    );
    assert_eq!(
        MetricKind::MemoryUsage.instrument_kind(),
        InstrumentKind::Gauge,
        "bytes in use is a level, despite sharing a unit with network I/O"
    );
}

#[test]
fn utilisation_metrics_are_ratios_and_usage_metrics_are_bytes() {
    assert_eq!(MetricKind::CpuUtilization.unit(), MetricUnit::Ratio);
    assert_eq!(MetricKind::MemoryUsage.unit(), MetricUnit::Bytes);
    assert_eq!(MetricUnit::Ratio.otel_unit(), "1");
    assert_eq!(MetricUnit::Bytes.otel_unit(), "By");
}

#[test]
fn time_range_requires_start_before_end() {
    assert!(TimeRange::new(at(0), at(60)).is_ok());
    assert!(TimeRange::new(at(60), at(0)).is_err());
    assert!(TimeRange::new(at(0), at(0)).is_err(), "empty range");
}

#[test]
fn time_range_is_half_open() {
    let range = TimeRange::new(at(0), at(60)).expect("valid");
    assert!(range.contains(at(0)));
    assert!(range.contains(at(59)));
    assert!(!range.contains(at(60)), "end is exclusive");
}

#[test]
fn ending_at_builds_a_window_of_the_requested_length() {
    let range = TimeRange::ending_at(at(600), TimeDelta::seconds(5 * 60)).expect("valid");
    assert_eq!(range.end(), at(600));
    assert_eq!(range.duration(), TimeDelta::seconds(5 * 60));
    assert!(TimeRange::ending_at(at(600), TimeDelta::seconds(0)).is_err());
}

#[test]
fn series_sorts_points_oldest_first() {
    let series = MetricSeries::new(
        host(),
        MetricKind::CpuUtilization,
        vec![point(at(120), 0.3), point(at(0), 0.1), point(at(60), 0.2)],
    );
    let times: Vec<_> = series.points().iter().map(|p| p.at).collect();
    assert_eq!(times, vec![at(0), at(60), at(120)]);
    assert_eq!(float(series.latest().expect("non-empty").value), 0.3);
}

#[test]
fn latest_at_ignores_points_after_the_instant() {
    let series = MetricSeries::new(
        host(),
        MetricKind::CpuUtilization,
        vec![point(at(0), 0.1), point(at(60), 0.2), point(at(120), 0.3)],
    );
    assert_eq!(
        float(series.latest_at(at(90)).expect("has point").value),
        0.2
    );
    assert_eq!(
        float(series.latest_at(at(60)).expect("has point").value),
        0.2
    );
    assert!(series.latest_at(at(-1)).is_none());
}

#[test]
fn aggregates_are_none_for_an_empty_series() {
    let series = MetricSeries::new(host(), MetricKind::CpuUtilization, vec![]);
    assert!(series.is_empty());
    assert!(series.latest().is_none());
    assert!(mean(&series).is_none());
    assert!(series.min().is_none());
    assert!(series.max().is_none());
}

#[test]
fn aggregates_summarise_the_points() {
    let series = MetricSeries::new(
        host(),
        MetricKind::CpuUtilization,
        vec![point(at(0), 0.2), point(at(60), 0.4), point(at(120), 0.6)],
    );
    assert!((mean(&series).expect("non-empty") - 0.4).abs() < f64::EPSILON);
    assert!((float(series.min().expect("non-empty")) - 0.2).abs() < f64::EPSILON);
    assert!((float(series.max().expect("non-empty")) - 0.6).abs() < f64::EPSILON);
}

#[test]
fn within_filters_to_the_range() {
    let series = MetricSeries::new(
        host(),
        MetricKind::CpuUtilization,
        vec![point(at(0), 0.1), point(at(60), 0.2), point(at(120), 0.3)],
    );
    let range = TimeRange::new(at(60), at(120)).expect("valid");
    let values: Vec<f64> = series
        .within(range)
        .iter()
        .map(|p| float(p.value))
        .collect();
    assert_eq!(values, vec![0.2]);
}

#[test]
fn points_at_one_instant_keep_their_order() {
    let series = MetricSeries::new(
        host(),
        MetricKind::CpuUtilization,
        vec![point(at(60), 0.3), point(at(0), 0.1), point(at(0), 0.2)],
    );
    let values: Vec<f64> = series.points().iter().map(|p| float(p.value)).collect();
    assert_eq!(values, vec![0.1, 0.2, 0.3]);
    assert_eq!(
        float(series.latest_at(at(0)).expect("has point").value),
        0.2,
        "the newest of equals is the last"
    );
}

#[test]
fn an_extremum_passes_over_what_is_no_number() {
    let series = MetricSeries::new(
        host(),
        MetricKind::CpuUtilization,
        vec![
            point(at(0), f64::NAN),
            point(at(60), -1.5),
            point(at(120), 2.5),
            point(at(180), f64::NAN),
        ],
    );
    assert_eq!(float(series.max().expect("non-empty")), 2.5);
    assert_eq!(float(series.min().expect("non-empty")), -1.5);
}

#[test]
fn a_series_keeps_its_attributes_through_its_wire_form() {
    let mut attributes = TextMap::new();
    attributes.insert("device".to_owned(), "eth0".to_owned());
    let series = MetricSeries::new(host(), MetricKind::NetworkIo, vec![point(at(0), 1.0)])
        .with_attributes(attributes.clone());
    assert_eq!(series.attributes, attributes);
    assert_eq!(series.unit(), MetricUnit::Bytes);
    assert_eq!(MetricSeries::from_wire(series.to_wire()), series);
}

#[test]
fn a_wire_series_out_of_order_is_put_in_order() {
    let series = MetricSeries::from_wire(MetricSeriesWire {
        host: host(),
        kind: MetricKind::CpuUtilization,
        attributes: TextMap::new(),
        points: vec![point(at(60), 0.2), point(at(0), 0.1)],
    });
    assert_eq!(
        series.points(),
        &vec![point(at(0), 0.1), point(at(60), 0.2)]
    );
}

#[test]
fn a_refused_window_says_why() {
    assert_eq!(
        TimeRange::new(at(60), at(0)),
        Err(CoreError::InvalidTimeRange(
            "start 2025-10-09 08:54:20 UTC is not before end 2025-10-09 08:53:20 UTC".to_owned()
        ))
    );
    assert_eq!(
        TimeRange::ending_at(at(0), TimeDelta::seconds(-5)),
        Err(CoreError::InvalidTimeRange(
            "window -PT5S must be positive".to_owned()
        ))
    );
}

#[test]
fn a_window_survives_its_wire_form() {
    let range = TimeRange::new(at(0), at(60)).expect("valid");
    assert_eq!(
        range.to_wire(),
        TimeRangeWire {
            start: at(0),
            end: at(60)
        }
    );
    assert_eq!(TimeRange::try_from(range.to_wire()), Ok(range));
    assert_eq!(range.start(), at(0));
}

#[test]
fn every_metric_of_a_host_is_asked_for_once_in_order() {
    let range = TimeRange::new(at(0), at(60)).expect("valid");
    let step = TimeDelta::seconds(30);
    let requests = all_metrics_for(&host(), range, step);
    let metrics: Vec<MetricKind> = requests.iter().map(|r| r.metric).collect();
    assert_eq!(metrics, MetricKind::ALL.to_vec());
    assert_eq!(
        requests[0],
        SeriesRequest::new(
            MetricKind::ALL[0],
            HostSelector::Host(host()),
            range,
            step
        )
    );
}

#[test]
fn units_and_labels_are_the_ones_people_read() {
    assert_eq!(MetricUnit::Count.otel_unit(), "{count}");
    assert_eq!(MetricUnit::Seconds.otel_unit(), "s");
    assert_eq!(MetricUnit::Load.otel_unit(), "1");
    assert_eq!(MetricKind::CpuUtilization.display_name(), "CPU");
}

#[test]
fn a_window_out_of_order_is_refused_around_its_ends() {
    assert_eq!(
        order_refusal("later", "earlier"),
        CoreError::InvalidTimeRange("start later is not before end earlier".to_owned())
    );
}
