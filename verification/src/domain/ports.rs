//! What the domain asks of a telemetry backend.

use crate::domain::host::{HostId, HostSelector, SelectorView};
use crate::domain::metric::{MetricKind, TimeRange};
use crate::time::TimeDelta;
use vstd::prelude::*;

verus! {

/// What to fetch in one query.
#[derive(Debug, Clone, PartialEq, Eq)]
pub struct SeriesRequest {
    pub metric: MetricKind,
    pub selector: HostSelector,
    pub range: TimeRange,
    /// Requested spacing between points. Backends treat this as a hint and may
    /// return a coarser step for a long window.
    pub step: TimeDelta,
}

impl SeriesRequest {
    /// The request for one metric of some hosts over a window.
    pub fn new(metric: MetricKind, selector: HostSelector, range: TimeRange, step: TimeDelta) -> (r:
        SeriesRequest)
        ensures
            r == (SeriesRequest { metric, selector, range, step }),
    {
        SeriesRequest { metric, selector, range, step }
    }
}

/// Requests every modelled metric for one host over a window, in display order.
pub fn all_metrics_for(host: &HostId, range: TimeRange, step: TimeDelta) -> (r: Vec<SeriesRequest>)
    ensures
        r@.len() == 12,
        forall|i: int|
            0 <= i < 12 ==> {
                &&& (#[trigger] r@[i]).metric == MetricKind::ALL@[i]
                &&& r@[i].selector@ == SelectorView::Host(host@)
                &&& r@[i].range == range
                &&& r@[i].step == step
            },
{
    let all = MetricKind::ALL;
    let mut out: Vec<SeriesRequest> = Vec::new();
    let mut n: usize = 0;
    while n < 12
        invariant
            n <= 12,
            all == MetricKind::ALL,
            out@.len() == n,
            forall|i: int|
                0 <= i < n ==> {
                    &&& (#[trigger] out@[i]).metric == all@[i]
                    &&& out@[i].selector@ == SelectorView::Host(host@)
                    &&& out@[i].range == range
                    &&& out@[i].step == step
                },
        decreases 12 - n,
    {
        out.push(SeriesRequest::new(all[n], HostSelector::Host(host.clone()), range, step));
        n += 1;
    }
    out
}

} // verus!
