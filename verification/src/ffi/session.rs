//! The one object an app holds: the last state, the current configuration, and the right
//! to poll.
//!
//! A poll reads the state, waits on the network, and stores what it folded. Whatever else
//! changed the state in between would be lost by that store, so nothing does: while a
//! poll is in flight another one is skipped, and an edit waits.

use crate::client::config;
use crate::client::config::FleetConfig;
use crate::client::fold::{AlertTransition, PollAdvice, RestoreReport};
use crate::client::view::FleetView;
use crate::ffi::config_records;
use crate::ffi::config_records::TuningWarningRecord;
use crate::ffi::convert;
use crate::ffi::convert::{millis_to_datetime, FfiError};
use crate::ffi::fold_records::{
    transitions_to_records, PollAdviceRecord, PollResult, RestoreReportRecord,
};
use crate::ffi::view_records::FleetViewRecord;
use crate::time::Timestamp;
use vstd::prelude::*;

verus! {

/// The whole client, as one handle. `S` is the state that polls fold into.
pub struct FleetSession<S> {
    pub state: S,
    pub config: FleetConfig,
    /// A poll has read the state and has not stored what it folded yet.
    pub in_flight: bool,
    /// What the cold start salvaged. `None` where there was no cache to start from.
    pub restore: Option<RestoreReportRecord>,
}

/// What one poll folded.
pub struct FleetUpdate<S> {
    pub state: S,
    pub view: FleetView,
    pub transitions: Vec<AlertTransition>,
    pub advice: PollAdvice,
}

/// What a call to poll may do.
#[derive(Debug, Clone, Copy, PartialEq, Eq, Structural)]
pub enum PollStart {
    /// Another poll is in flight.
    Skipped,
    /// The right to poll is taken, as of this instant.
    Started { now: Timestamp },
}

/// What became of a new configuration.
pub enum ConfigEdit {
    /// It is the live one, with these warnings.
    Stored { warnings: Vec<TuningWarningRecord> },
    /// A poll is in flight: the configuration comes back, to be stored once that ends.
    Waiting { config: FleetConfig },
}

/// Whether a result restates an update.
pub open spec fn restates_update<S>(result: PollResult, update: FleetUpdate<S>) -> bool {
    &&& !result.skipped
    &&& result.view.restates(update.view)
    &&& result.transitions@.len() == update.transitions@.len()
    &&& forall|i: int|
        0 <= i < update.transitions@.len() ==> (#[trigger] result.transitions@[i]).restates(
            update.transitions@[i],
        )
    &&& result.advice == PollAdviceRecord::restating(update.advice)
}

impl<S> FleetSession<S> {
    /// Whether the session holds what another one holds, up to who may poll.
    pub open spec fn holds_the_same(self, other: FleetSession<S>) -> bool {
        &&& self.state == other.state
        &&& self.config == other.config
        &&& self.restore == other.restore
    }

    /// A session over a state and what restoring it salvaged, or over a new state and no
    /// report: "started with no cache" and "restored a cache that held nothing" are
    /// different facts.
    pub fn assemble(
        state: S,
        restored: Option<RestoreReport>,
        config: FleetConfig,
    ) -> (r: FleetSession<S>)
        ensures
            r.state == state,
            r.config == config,
            !r.in_flight,
            r.restore == match restored {
                Some(report) => Some(RestoreReportRecord::restating(report)),
                None => None,
            },
    {
        FleetSession {
            state,
            config,
            in_flight: false,
            restore: match restored {
                Some(report) => Some(RestoreReportRecord::from(report)),
                None => None,
            },
        }
    }

    /// Asks for the right to poll, as of an instant in milliseconds since the epoch. An
    /// instant off the calendar is refused before anything else.
    pub fn begin_poll(&mut self, now_millis: i64) -> (r: Result<PollStart, FfiError>)
        ensures
            r is Ok <==> convert::is_millis(now_millis),
            r matches Err(e) ==> convert::is_millis_error(e, now_millis),
            r == Ok::<PollStart, FfiError>(PollStart::Skipped) <==> {
                &&& convert::is_millis(now_millis)
                &&& old(self).in_flight
            },
            r matches Ok(PollStart::Started { now }) ==> convert::falls_on(now, now_millis),
            *final(self) == old(self).applied(SessionStep::BeginPoll { now_millis }),
    {
        match millis_to_datetime(now_millis) {
            Err(e) => Err(e),
            Ok(now) => {
                if self.in_flight {
                    Ok(PollStart::Skipped)
                } else {
                    self.in_flight = true;
                    Ok(PollStart::Started { now })
                }
            },
        }
    }

    /// Ends the poll in flight with what it folded, or with the reason there was nothing
    /// to fold. The latter is a fault of the program, never an outage: an outage is data
    /// inside the view.
    pub fn finish_poll(&mut self, answer: Result<FleetUpdate<S>, String>) -> (r: Result<
        PollResult,
        FfiError,
    >)
        ensures
            match answer {
                Ok(update) => r matches Ok(result) && restates_update(result, update),
                Err(why) => r == Err::<PollResult, FfiError>(FfiError::Internal { message: why }),
            },
            *final(self) == old(self).applied(
                SessionStep::FinishPoll {
                    folded: match answer {
                        Ok(update) => Some(update.state),
                        Err(_) => None,
                    },
                },
            ),
    {
        self.in_flight = false;
        match answer {
            Err(message) => Err(FfiError::Internal { message }),
            Ok(update) => {
                self.state = update.state;
                let transitions = transitions_to_records(update.transitions.as_slice());
                Ok(
                    PollResult::folded(
                        FleetViewRecord::from(update.view),
                        transitions,
                        PollAdviceRecord::from(update.advice),
                    ),
                )
            },
        }
    }

    /// What a poll that found another one in flight answers: the view and the advice of
    /// the unchanged state, because the screen redraws and the timer is set either way.
    pub fn skipped_poll(view: FleetView, advice: PollAdvice) -> (r: PollResult)
        ensures
            r.skipped,
            r.transitions@.len() == 0,
            r.view.restates(view),
            r.advice == PollAdviceRecord::restating(advice),
    {
        PollResult::skipped_in_flight(FleetViewRecord::from(view), PollAdviceRecord::from(advice))
    }

    /// Ends the poll in flight where its caller dropped it: the right to poll is free
    /// again, and nothing else changed.
    pub fn abandon_poll(&mut self)
        ensures
            *final(self) == old(self).applied(SessionStep::AbandonPoll),
    {
        self.in_flight = false;
    }

    /// Replaces the configuration and answers with its audit. A refused configuration
    /// fails at once, in flight or not, and nothing is stored. An accepted one waits for
    /// a poll in flight: it comes back unstored.
    pub fn set_config(&mut self, config: Result<FleetConfig, FfiError>) -> (r: Result<
        ConfigEdit,
        FfiError,
    >)
        ensures
            match config {
                Err(e) => {
                    &&& r == Err::<ConfigEdit, FfiError>(e)
                    &&& *final(self) == *old(self)
                },
                Ok(config) => {
                    &&& *final(self) == old(self).applied(SessionStep::SetConfig { config })
                    &&& if old(self).in_flight {
                        r == Ok::<ConfigEdit, FfiError>(ConfigEdit::Waiting { config })
                    } else {
                        &&& r matches Ok(ConfigEdit::Stored { warnings })
                        &&& config_records::warning_record_views(warnings@) == config::audited(
                            config.rules@,
                            config.tuning.evidence_horizon(),
                        )
                    }
                },
            },
    {
        match config {
            Err(e) => Err(e),
            Ok(config) => {
                if self.in_flight {
                    return Ok(ConfigEdit::Waiting { config });
                }
                let warnings = config_records::warnings_of(&config);
                self.config = config;
                Ok(ConfigEdit::Stored { warnings })
            },
        }
    }

    /// Stores the state without a host, and answers with the view it gives. `next` and
    /// `view` are what dropping the host from the state comes to. A poll in flight makes
    /// the drop wait: its store would bring the host back.
    pub fn forget_host(&mut self, next: S, view: FleetView) -> (r: Option<FleetViewRecord>)
        ensures
            r is None <==> old(self).in_flight,
            r matches Some(record) ==> record.restates(view),
            *final(self) == old(self).applied(SessionStep::ForgetHost { next }),
    {
        if self.in_flight {
            return None;
        }
        self.state = next;
        Some(FleetViewRecord::from(view))
    }

    /// What the cold start could and could not salvage, if it had a cache to start from.
    pub fn restore_report(&self) -> (r: Option<RestoreReportRecord>)
        ensures
            r == self.restore,
    {
        self.restore
    }
}

/// One call that may change a session.
pub enum SessionStep<S> {
    BeginPoll { now_millis: i64 },
    FinishPoll { folded: Option<S> },
    AbandonPoll,
    SetConfig { config: FleetConfig },
    ForgetHost { next: S },
}

impl<S> SessionStep<S> {
    /// Whether the call ends the poll in flight.
    pub open spec fn ends_the_poll(self) -> bool {
        self is FinishPoll || self is AbandonPoll
    }
}

impl<S> FleetSession<S> {
    /// The session after one call.
    pub open spec fn applied(self, step: SessionStep<S>) -> FleetSession<S> {
        match step {
            SessionStep::BeginPoll { now_millis } => if convert::is_millis(now_millis) {
                FleetSession { in_flight: true, ..self }
            } else {
                self
            },
            SessionStep::FinishPoll { folded: Some(next) } => {
                FleetSession { state: next, in_flight: false, ..self }
            },
            SessionStep::FinishPoll { folded: None } => FleetSession { in_flight: false, ..self },
            SessionStep::AbandonPoll => FleetSession { in_flight: false, ..self },
            SessionStep::SetConfig { config } => if self.in_flight {
                self
            } else {
                FleetSession { config, ..self }
            },
            SessionStep::ForgetHost { next } => if self.in_flight {
                self
            } else {
                FleetSession { state: next, ..self }
            },
        }
    }

    /// The session after some calls, one after the other.
    pub open spec fn after(self, steps: Seq<SessionStep<S>>) -> FleetSession<S>
        decreases steps.len(),
    {
        if steps.len() == 0 {
            self
        } else {
            self.after(steps.drop_last()).applied(steps.last())
        }
    }
}

/// Whatever is called while a poll is in flight, up to the call that ends it, the session
/// holds what the poll read: what it stores is computed from the live state and the live
/// configuration, and nothing is lost by storing it.
pub proof fn nothing_lands_mid_poll<S>(session: FleetSession<S>, steps: Seq<SessionStep<S>>)
    requires
        session.in_flight,
        forall|i: int| 0 <= i < steps.len() ==> !(#[trigger] steps[i]).ends_the_poll(),
    ensures
        session.after(steps) == session,
    decreases steps.len(),
{
    if steps.len() > 0 {
        let earlier = steps.drop_last();
        assert forall|i: int| 0 <= i < earlier.len() implies !(
        #[trigger] earlier[i]).ends_the_poll() by {
            assert(earlier[i] == steps[i]);
        }
        nothing_lands_mid_poll(session, earlier);
        assert(!steps.last().ends_the_poll());
    }
}

/// A poll that was dropped frees the right to poll: the next one starts, from what the
/// session held before.
pub proof fn dropped_polls_wedge_nothing<S>(session: FleetSession<S>, now_millis: i64)
    requires
        session.in_flight,
        convert::is_millis(now_millis),
    ensures
        ({
            let dropped = session.applied(SessionStep::AbandonPoll);
            &&& !dropped.in_flight
            &&& dropped.holds_the_same(session)
            &&& dropped.applied(SessionStep::BeginPoll { now_millis }) == session
        }),
{
}

/// No call changes what the cold start reported.
pub proof fn restore_reports_are_kept<S>(session: FleetSession<S>, steps: Seq<SessionStep<S>>)
    ensures
        session.after(steps).restore == session.restore,
    decreases steps.len(),
{
    if steps.len() > 0 {
        restore_reports_are_kept(session, steps.drop_last());
    }
}

/// A result that was folded says so, and holds the update's view, its advice and each of
/// its transitions in its place.
pub proof fn folded_results_hold_their_update<S>(result: PollResult, update: FleetUpdate<S>)
    requires
        restates_update(result, update),
    ensures
        !result.skipped,
        result.view.restates(update.view),
        result.advice == PollAdviceRecord::restating(update.advice),
        result.transitions@.len() == update.transitions@.len(),
        forall|i: int|
            0 <= i < update.transitions@.len() ==> (#[trigger] result.transitions@[i]).restates(
                update.transitions@[i],
            ),
{
}

/// A poll that begins takes the right to poll and nothing else, and at an instant off
/// the calendar not even that.
pub proof fn beginning_takes_only_the_right_to_poll<S>(session: FleetSession<S>, now_millis: i64)
    ensures
        ({
            let begun = session.applied(SessionStep::BeginPoll { now_millis });
            let readable = -8_334_601_228_800_000 <= now_millis <= 8_210_266_876_799_999;
            &&& begun.state == session.state
            &&& begun.config == session.config
            &&& begun.restore == session.restore
            &&& begun.in_flight == (readable || session.in_flight)
        }),
{
}

/// A poll that ends with something folded stores it, one that ends without keeps what
/// there was, and either way the right to poll is free again.
pub proof fn ending_stores_what_was_folded<S>(session: FleetSession<S>, next: S)
    ensures
        ({
            let folded = session.applied(SessionStep::FinishPoll { folded: Some(next) });
            let failed = session.applied(SessionStep::FinishPoll { folded: None });
            let dropped = session.applied(SessionStep::AbandonPoll);
            &&& folded.state == next && failed.state == session.state
            &&& dropped.state == session.state
            &&& !folded.in_flight && !failed.in_flight && !dropped.in_flight
            &&& folded.config == session.config && failed.config == session.config
            &&& dropped.config == session.config
            &&& folded.restore == session.restore && failed.restore == session.restore
            &&& dropped.restore == session.restore
        }),
{
}

/// An edit lands where no poll is in flight, and changes what it is about alone: a
/// configuration leaves the state, and a host that is forgotten leaves the
/// configuration.
pub proof fn edits_land_between_polls<S>(session: FleetSession<S>, config: FleetConfig, next: S)
    ensures
        ({
            let edited = session.applied(SessionStep::SetConfig { config });
            let forgotten = session.applied(SessionStep::ForgetHost { next });
            &&& session.in_flight ==> edited == session && forgotten == session
            &&& !session.in_flight ==> {
                &&& edited.config == config && edited.state == session.state
                &&& forgotten.state == next && forgotten.config == session.config
                &&& !edited.in_flight && !forgotten.in_flight
                &&& edited.restore == session.restore && forgotten.restore == session.restore
            }
        }),
{
}

} // verus!
