//! The hook adapter: the one place where the compilation pipeline hands
//! control to the bridge.
//!
//! The pipeline calls in once, after analysis has succeeded and before code
//! generation. The adapter then goes from `Uninitialized` to `Active` and
//! hands out the session; when the inspection is over it goes to `Closed`,
//! takes the session back, and tells the pipeline whether to go on compiling.
//! It never goes back to an earlier state.

use vstd::prelude::*;
use crate::catalog::Snapshot;
use crate::ident::InternalId;
use crate::inspect::{findings_view, inspect_crate, inspection, Finding, InspectionError};
use crate::session::Session;

verus! {

#[derive(Clone, Copy, Debug, PartialEq, Eq, Structural)]
pub enum HookState {
    Uninitialized,
    Active,
    Closed,
}

/// What the pipeline is to do after the hook.
#[derive(Clone, Copy, Debug, PartialEq, Eq, Structural)]
pub enum Compilation {
    Continue,
    Stop,
}

/// What happens to the adapter.
#[derive(Clone, Copy, Debug, PartialEq, Eq, Structural)]
pub enum HookEvent {
    /// The pipeline has finished its analysis without error.
    AnalysisSucceeded,
    /// The inspection has returned.
    InspectionReturned,
    /// The inspection has failed.
    InspectionFailed,
}

/// What the adapter asks for in answer to an event.
#[derive(Clone, Copy, Debug, PartialEq, Eq, Structural)]
pub enum HookAction {
    /// Run the inspection on the session.
    Inspect,
    /// Give the pipeline this signal.
    Report(Compilation),
    /// The inspection failed: hand the failure to the pipeline.
    Propagate,
    /// The event does not fit the state. Nothing has changed.
    Refuse,
}

/// The state after `event`.
pub open spec fn next_state(state: HookState, event: HookEvent) -> HookState {
    match (state, event) {
        (HookState::Uninitialized, HookEvent::AnalysisSucceeded) => HookState::Active,
        (HookState::Active, HookEvent::InspectionReturned) => HookState::Closed,
        (HookState::Active, HookEvent::InspectionFailed) => HookState::Closed,
        _ => state,
    }
}

/// What is asked for in answer to `event`, where `decision` is the signal
/// that the caller wants the pipeline to get.
pub open spec fn action_for(state: HookState, decision: Compilation, event: HookEvent) -> HookAction {
    match (state, event) {
        (HookState::Uninitialized, HookEvent::AnalysisSucceeded) => HookAction::Inspect,
        (HookState::Active, HookEvent::InspectionReturned) => HookAction::Report(decision),
        (HookState::Active, HookEvent::InspectionFailed) => HookAction::Propagate,
        _ => HookAction::Refuse,
    }
}

/// How far a state is along the life of a session.
pub open spec fn rank(state: HookState) -> int {
    match state {
        HookState::Uninitialized => 0,
        HookState::Active => 1,
        HookState::Closed => 2,
    }
}

/// The adapter moves forward by at most one state and never back; an event
/// is refused exactly when it leaves the state as it is.
pub proof fn lemma_states_advance(state: HookState, decision: Compilation, event: HookEvent)
    ensures
        rank(state) <= rank(next_state(state, event)) <= rank(state) + 1,
        action_for(state, decision, event) == HookAction::Refuse <==> next_state(state, event)
            == state,
{
}

/// The inspection is asked for on entering `Active` and at no other time, so
/// at most once in the life of an adapter.
pub proof fn lemma_inspection_runs_once(state: HookState, decision: Compilation, event: HookEvent)
    ensures
        action_for(state, decision, event) == HookAction::Inspect <==> state
            == HookState::Uninitialized && next_state(state, event) == HookState::Active,
{
}

/// `Closed` is final: every event is refused there.
pub proof fn lemma_closed_is_final(decision: Compilation, event: HookEvent)
    ensures
        next_state(HookState::Closed, event) == HookState::Closed,
        action_for(HookState::Closed, decision, event) == HookAction::Refuse,
{
}

/// One step of the adapter: the state after `event` and what is asked for.
pub fn step(state: HookState, decision: Compilation, event: HookEvent) -> (next: (
    HookState,
    HookAction,
))
    ensures
        next.0 == next_state(state, event),
        next.1 == action_for(state, decision, event),
{
    match (state, event) {
        (HookState::Uninitialized, HookEvent::AnalysisSucceeded) => (
            HookState::Active,
            HookAction::Inspect,
        ),
        (HookState::Active, HookEvent::InspectionReturned) => (
            HookState::Closed,
            HookAction::Report(decision),
        ),
        (HookState::Active, HookEvent::InspectionFailed) => (
            HookState::Closed,
            HookAction::Propagate,
        ),
        _ => (state, HookAction::Refuse),
    }
}

/// What `after_analysis` hands back: what the pipeline is to do, and what the
/// inspection came to where it ran.
#[derive(Clone, Debug, PartialEq, Eq)]
pub struct HookOutcome {
    pub action: HookAction,
    pub inspection: Option<Result<Vec<Finding>, InspectionError>>,
}

/// The adapter of one compilation session.
#[derive(Debug)]
pub struct HookAdapter {
    state: HookState,
    decision: Compilation,
    number: u64,
}

impl HookAdapter {
    pub closed spec fn state(&self) -> HookState {
        self.state
    }

    /// The signal that the pipeline gets when the inspection has returned.
    pub closed spec fn decision(&self) -> Compilation {
        self.decision
    }

    /// The number that the session of this adapter carries.
    pub closed spec fn number(&self) -> u64 {
        self.number
    }

    /// An adapter that has not been entered yet. Give every adapter of one
    /// process a number of its own: a session refuses the handles of another
    /// by their number.
    pub fn new(number: u64, decision: Compilation) -> (adapter: HookAdapter)
        ensures
            adapter.state() == HookState::Uninitialized,
            adapter.decision() == decision,
            adapter.number() == number,
    {
        HookAdapter { state: HookState::Uninitialized, decision, number }
    }

    pub fn current_state(&self) -> (state: HookState)
        ensures
            state == self.state(),
    {
        self.state
    }

    /// Enters the hook with what the compiler knows after analysis. The first
    /// call makes the adapter `Active` and returns the session, with no handle
    /// given out yet. Any later call is refused: it returns `None` and changes
    /// nothing.
    pub fn enter(&mut self, snapshot: Snapshot) -> (session: Option<Session>)
        ensures
            final(self).decision() == old(self).decision(),
            final(self).number() == old(self).number(),
            final(self).state() == next_state(old(self).state(), HookEvent::AnalysisSucceeded),
            session is Some <==> old(self).state() == HookState::Uninitialized,
            session is Some ==> {
                &&& session->0.number() == old(self).number()
                &&& session->0.snapshot() == snapshot@
                &&& session->0.table() == Seq::<InternalId>::empty()
            },
    {
        let (next, action) = step(self.state, self.decision, HookEvent::AnalysisSucceeded);
        match action {
            HookAction::Inspect => {
                self.state = next;
                Some(Session::open(self.number, snapshot))
            },
            _ => None,
        }
    }

    /// Leaves the hook. The session is given up, and with it every handle it
    /// issued. Where the adapter is `Active` and the session is its own, it
    /// becomes `Closed`, and the result is the signal for the pipeline, or
    /// `Propagate` where the inspection failed. Otherwise the call is refused
    /// and the adapter stays as it is.
    pub fn leave(&mut self, session: Session, event: HookEvent) -> (action: HookAction)
        ensures
            final(self).decision() == old(self).decision(),
            final(self).number() == old(self).number(),
            session.number() == old(self).number() && event != HookEvent::AnalysisSucceeded ==> {
                &&& final(self).state() == next_state(old(self).state(), event)
                &&& action == action_for(old(self).state(), old(self).decision(), event)
            },
            session.number() != old(self).number() || event == HookEvent::AnalysisSucceeded ==> {
                &&& final(self).state() == old(self).state()
                &&& action == HookAction::Refuse
            },
    {
        if session.session_number() != self.number {
            return HookAction::Refuse;
        }
        match event {
            HookEvent::AnalysisSucceeded => HookAction::Refuse,
            _ => {
                let (next, action) = step(self.state, self.decision, event);
                self.state = next;
                action
            },
        }
    }

    /// The whole hook in one call: enters, inspects the crate, leaves. On an
    /// adapter that has not been entered it ends `Closed`; the pipeline gets
    /// the adapter's signal where the crate met every expectation, and the
    /// failure where it did not. On any other adapter the call is refused.
    pub fn after_analysis(&mut self, snapshot: Snapshot) -> (outcome: HookOutcome)
        ensures
            final(self).decision() == old(self).decision(),
            final(self).number() == old(self).number(),
            old(self).state() == HookState::Uninitialized ==> {
                &&& final(self).state() == HookState::Closed
                &&& outcome.inspection is Some
                &&& match inspection(snapshot@) {
                    Ok(findings) => {
                        &&& outcome.action == HookAction::Report(old(self).decision())
                        &&& outcome.inspection->0 is Ok
                        &&& findings_view(outcome.inspection->0->Ok_0@) == findings
                    },
                    Err(e) => {
                        &&& outcome.action == HookAction::Propagate
                        &&& outcome.inspection->0 == Err::<Vec<Finding>, InspectionError>(e)
                    },
                }
            },
            old(self).state() != HookState::Uninitialized ==> {
                &&& final(self).state() == old(self).state()
                &&& outcome.action == HookAction::Refuse
                &&& outcome.inspection is None
            },
    {
        match self.enter(snapshot) {
            None => HookOutcome { action: HookAction::Refuse, inspection: None },
            Some(session) => {
                let mut session = session;
                let report = inspect_crate(&mut session);
                let event = match &report {
                    Ok(_) => HookEvent::InspectionReturned,
                    Err(_) => HookEvent::InspectionFailed,
                };
                let action = self.leave(session, event);
                HookOutcome { action, inspection: Some(report) }
            },
        }
    }
}

} // verus!
