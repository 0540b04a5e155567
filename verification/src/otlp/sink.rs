//! What is posted, and what the answer comes to.
//!
//! A failure to report is never a failure for the caller, but it is still visible:
//! every outcome lands in [`Diagnostics`]. Nothing is buffered for a retry.

use crate::json::Json;
use crate::otlp::destination::Destination;
use crate::usage::consent::Consent;
use crate::usage::encode;
use crate::usage::encode::export_trace_request;
use crate::usage::resource::UsageResource;
use crate::usage::span::UsageTrace;
use vstd::prelude::*;

verus! {

/// How long a report may take before it is abandoned, in seconds.
pub const REQUEST_TIMEOUT_SECS: u64 = 10;

/// Counts, for a diagnostics surface. They wrap around.
#[derive(Debug, Clone, Copy, PartialEq, Eq, Structural)]
pub struct Diagnostics {
    pub sent: u64,
    pub rejected: u64,
    pub failed: u64,
    pub spans_reported: u64,
}

/// A point-in-time copy.
#[derive(Debug, Clone, Copy, PartialEq, Eq, Structural)]
pub struct DiagnosticsSnapshot {
    /// Reports the backend accepted.
    pub sent: u64,
    /// Reports the backend answered, but with a refusal.
    pub rejected: u64,
    /// Reports that never got an answer.
    pub failed: u64,
    /// Spans in accepted reports.
    pub spans_reported: u64,
}

impl Diagnostics {
    /// A copy of the counts.
    pub fn snapshot(&self) -> (r: DiagnosticsSnapshot)
        ensures
            r == (DiagnosticsSnapshot {
                sent: self.sent,
                rejected: self.rejected,
                failed: self.failed,
                spans_reported: self.spans_reported,
            }),
    {
        DiagnosticsSnapshot {
            sent: self.sent,
            rejected: self.rejected,
            failed: self.failed,
            spans_reported: self.spans_reported,
        }
    }
}

impl Default for Diagnostics {
    fn default() -> (r: Diagnostics)
        ensures
            r == (Diagnostics { sent: 0, rejected: 0, failed: 0, spans_reported: 0 }),
    {
        Diagnostics { sent: 0, rejected: 0, failed: 0, spans_reported: 0 }
    }
}

impl Default for DiagnosticsSnapshot {
    fn default() -> (r: DiagnosticsSnapshot)
        ensures
            r == (DiagnosticsSnapshot { sent: 0, rejected: 0, failed: 0, spans_reported: 0 }),
    {
        DiagnosticsSnapshot { sent: 0, rejected: 0, failed: 0, spans_reported: 0 }
    }
}

/// Why a report did not land. Kept coarse, and never carrying a response body.
#[derive(Debug, Clone, Copy, PartialEq, Eq, Structural)]
pub enum SendFailure {
    /// No answer: connection refused, timed out, DNS, TLS.
    Unreachable,
    /// The credential was refused.
    Unauthorized,
    /// The backend answered with a refusal other than 401 or 403.
    Rejected(u16),
}

/// What an answer comes to. No answer is `None`.
pub open spec fn verdict(response: Option<u16>) -> Result<(), SendFailure> {
    match response {
        None => Err(SendFailure::Unreachable),
        Some(status) => if 200 <= status <= 299 {
            Ok(())
        } else if status == 401 || status == 403 {
            Err(SendFailure::Unauthorized)
        } else {
            Err(SendFailure::Rejected(status))
        },
    }
}

/// `a + b`, wrapped around past the greatest `u64`.
pub open spec fn wrapped_sum(a: u64, b: u64) -> u64 {
    ((a + b) % 0x1_0000_0000_0000_0000) as u64
}

/// The counts after an answer to a report of so many spans.
pub open spec fn counted(before: Diagnostics, spans: u64, response: Option<u16>) -> Diagnostics {
    match verdict(response) {
        Ok(_) => Diagnostics {
            sent: wrapped_sum(before.sent, 1),
            spans_reported: wrapped_sum(before.spans_reported, spans),
            ..before
        },
        Err(SendFailure::Unreachable) => Diagnostics {
            failed: wrapped_sum(before.failed, 1),
            ..before
        },
        Err(_) => Diagnostics { rejected: wrapped_sum(before.rejected, 1), ..before },
    }
}

/// One report, ready to be posted.
#[derive(PartialEq, Eq)]
pub struct Report {
    pub url: String,
    pub header_name: String,
    /// The credential, in clear text.
    pub key: String,
    pub body: Json,
    /// How many spans the body holds.
    pub spans: u64,
}

/// Prepares reports for one destination, and counts what becomes of them.
///
/// Construct it only once consent is granted: a sink that does not exist cannot
/// report. A clone goes on counting for itself.
#[derive(Clone)]
pub struct UsageSink {
    pub destination: Destination,
    pub resource: UsageResource,
    pub diagnostics: Diagnostics,
}

/// How many spans some traces hold.
pub fn count_spans(traces: &[UsageTrace]) -> (r: u64)
    requires
        encode::span_count(traces@) <= u64::MAX,
    ensures
        r == encode::span_count(traces@),
{
    let mut total: u64 = 0;
    let mut i: usize = 0;
    while i < traces.len()
        invariant
            i <= traces@.len(),
            encode::span_count(traces@) <= u64::MAX,
            total == encode::span_count(traces@.take(i as int)),
        decreases traces@.len() - i,
    {
        proof {
            assert(traces@.take(i + 1).drop_last() =~= traces@.take(i as int));
            lemma_span_count_grows(traces@, i + 1);
        }
        total = total + traces[i].spans.len() as u64;
        i += 1;
    }
    assert(traces@.take(traces@.len() as int) =~= traces@);
    total
}

proof fn lemma_span_count_grows(traces: Seq<UsageTrace>, n: int)
    requires
        0 <= n <= traces.len(),
    ensures
        encode::span_count(traces.take(n)) <= encode::span_count(traces),
    decreases traces.len() - n,
{
    if n == traces.len() {
        assert(traces.take(n) =~= traces);
    } else {
        assert(traces.take(n + 1).drop_last() =~= traces.take(n));
        lemma_span_count_grows(traces, n + 1);
    }
}

impl UsageSink {
    /// Whether a report carries some traces to this sink's destination.
    pub open spec fn reports(self, report: Report, traces: Seq<UsageTrace>) -> bool {
        &&& report.url@ == self.destination@.endpoint + "/v1/traces"@
        &&& report.header_name@ == self.destination@.header_name
        &&& report.key@ == self.destination@.key
        &&& report.body.meaning() == encode::request_json(self.resource, traces)
        &&& report.spans == encode::span_count(traces)
    }

    /// A sink that has reported nothing yet.
    pub fn new(destination: Destination, resource: UsageResource) -> (r: UsageSink)
        ensures
            r.destination == destination,
            r.resource == resource,
            r.diagnostics == (Diagnostics { sent: 0, rejected: 0, failed: 0, spans_reported: 0 }),
    {
        UsageSink {
            destination,
            resource,
            diagnostics: Diagnostics { sent: 0, rejected: 0, failed: 0, spans_reported: 0 },
        }
    }

    /// A copy of the counts.
    pub fn diagnostics(&self) -> (r: DiagnosticsSnapshot)
        ensures
            r == (DiagnosticsSnapshot {
                sent: self.diagnostics.sent,
                rejected: self.diagnostics.rejected,
                failed: self.diagnostics.failed,
                spans_reported: self.diagnostics.spans_reported,
            }),
    {
        self.diagnostics.snapshot()
    }

    /// The report of some traces, or nothing where they hold no span: an empty
    /// report is not worth a request.
    pub fn prepare(&self, traces: &[UsageTrace]) -> (r: Option<Report>)
        requires
            encode::span_count(traces@) <= u64::MAX,
        ensures
            r is None <==> encode::span_count(traces@) == 0,
            r matches Some(report) ==> self.reports(report, traces@),
    {
        let spans = count_spans(traces);
        if spans == 0 {
            return None;
        }
        Some(
            Report {
                url: self.destination.traces_url(),
                header_name: self.destination.header_name().to_owned(),
                key: self.destination.key().expose().to_owned(),
                body: export_trace_request(&self.resource, traces),
                spans,
            },
        )
    }

    /// Counts the answer to a report of so many spans, and says what it comes to.
    /// `response` is the HTTP status, or nothing where no answer came.
    pub fn settle(&mut self, spans: u64, response: Option<u16>) -> (r: Result<(), SendFailure>)
        ensures
            r == verdict(response),
            final(self).diagnostics == counted(old(self).diagnostics, spans, response),
            final(self).destination == old(self).destination,
            final(self).resource == old(self).resource,
    {
        match response {
            None => {
                self.diagnostics.failed = self.diagnostics.failed.wrapping_add(1);
                Err(SendFailure::Unreachable)
            },
            Some(status) => {
                if 200 <= status && status <= 299 {
                    self.diagnostics.sent = self.diagnostics.sent.wrapping_add(1);
                    self.diagnostics.spans_reported = self.diagnostics.spans_reported.wrapping_add(
                        spans,
                    );
                    Ok(())
                } else if status == 401 || status == 403 {
                    self.diagnostics.rejected = self.diagnostics.rejected.wrapping_add(1);
                    Err(SendFailure::Unauthorized)
                } else {
                    self.diagnostics.rejected = self.diagnostics.rejected.wrapping_add(1);
                    Err(SendFailure::Rejected(status))
                }
            },
        }
    }
}

/// A sink if, and only if, consent allows one to exist. Returning `None` rather
/// than a disabled sink means there is no object that could report.
pub fn sink_if_permitted(
    consent: Consent,
    destination: Option<Destination>,
    resource: UsageResource,
) -> (r: Option<UsageSink>)
    ensures
        r is Some <==> consent == Consent::Granted && destination is Some,
        r matches Some(sink) ==> {
            &&& sink.destination == destination->0
            &&& sink.resource == resource
            &&& sink.diagnostics == (Diagnostics {
                sent: 0,
                rejected: 0,
                failed: 0,
                spans_reported: 0,
            })
        },
{
    match (consent, destination) {
        (Consent::Granted, Some(destination)) => Some(UsageSink::new(destination, resource)),
        _ => None,
    }
}

/// Whether consent permits reporting at all.
pub fn consent_permits(consent: Consent) -> (r: bool)
    ensures
        r == (consent == Consent::Granted),
{
    consent.is_granted()
}

/// Every answer is counted exactly once, and spans only where the report was
/// accepted. Counts that are full wrap around, and are left out.
pub proof fn every_answer_counts_once(before: Diagnostics, spans: u64, response: Option<u16>)
    requires
        match verdict(response) {
            Ok(_) => before.sent < u64::MAX && before.spans_reported + spans <= u64::MAX,
            Err(SendFailure::Unreachable) => before.failed < u64::MAX,
            Err(_) => before.rejected < u64::MAX,
        },
    ensures
        ({
            let after = counted(before, spans, response);
            &&& after.sent + after.rejected + after.failed == before.sent + before.rejected
                + before.failed + 1
            &&& after.sent > before.sent <==> verdict(response) is Ok
            &&& after.spans_reported == if verdict(response) is Ok {
                before.spans_reported + spans
            } else {
                before.spans_reported as int
            }
        }),
{
}

/// A report was accepted exactly where the answer is in the two hundreds. A refused
/// credential is told apart, any other answer comes back as the status it was, and no
/// answer is an unreachable backend.
pub proof fn answers_are_told_apart(status: u16)
    ensures
        verdict(None) == Err::<(), SendFailure>(SendFailure::Unreachable),
        verdict(Some(status)) is Ok <==> status / 100 == 2,
        verdict(Some(status)) == Err::<(), SendFailure>(SendFailure::Unauthorized) <==> status
            == 401 || status == 403,
        status / 100 != 2 && status != 401 && status != 403 ==> verdict(Some(status)) == Err::<
            (),
            SendFailure,
        >(SendFailure::Rejected(status)),
{
}

/// Each answer moves the count that is its own, by one, and leaves the others: two
/// hundreds are sent, with their spans, any other status is rejected, and no answer is
/// a failure. A full count starts over.
pub proof fn each_answer_moves_its_own_count(before: Diagnostics, spans: u64, status: u16)
    ensures
        ({
            let after = counted(before, spans, Some(status));
            let silent = counted(before, spans, None);
            let round = 0x1_0000_0000_0000_0000;
            &&& status / 100 == 2 ==> {
                &&& after.sent == (before.sent + 1) % round
                &&& after.spans_reported == (before.spans_reported + spans) % round
                &&& after.rejected == before.rejected
                &&& after.failed == before.failed
            }
            &&& status / 100 != 2 ==> {
                &&& after.sent == before.sent
                &&& after.spans_reported == before.spans_reported
                &&& after.rejected == (before.rejected + 1) % round
                &&& after.failed == before.failed
            }
            &&& silent.sent == before.sent
            &&& silent.spans_reported == before.spans_reported
            &&& silent.rejected == before.rejected
            &&& silent.failed == (before.failed + 1) % round
        }),
{
}

/// A report goes to the destination's own traces path, with its key in its header, and
/// carries each span once.
pub proof fn reports_go_where_their_sink_points(
    sink: UsageSink,
    report: Report,
    traces: Seq<UsageTrace>,
)
    requires
        sink.reports(report, traces),
    ensures
        report.url@ == sink.destination@.endpoint + "/v1/traces"@,
        report.header_name@ == sink.destination@.header_name,
        report.key@ == sink.destination@.key,
        report.body.meaning() == encode::request_json(sink.resource, traces),
        report.spans == encode::traces_json(traces).len(),
{
    encode::every_span_is_exported(traces);
}

/// Adding wraps around at 2^64, and is a plain sum below it.
pub proof fn sums_wrap_at_the_top(a: u64, b: u64)
    ensures
        a + b <= u64::MAX ==> wrapped_sum(a, b) == a + b,
        a + b > u64::MAX ==> wrapped_sum(a, b) == a + b - 0x1_0000_0000_0000_0000,
{
}

} // verus!
