//! The lifecycle controller: the pipeline model and its state machine.
//!
//! A [`Pipeline`] owns the composition graph and drives it through the
//! transition table Null → Ready → Playing → Null. `prepare` splices the
//! transport subgraph and then requests Ready; `start` and `stop` request
//! Playing and Null and are no-ops when already there. Transition requests
//! return immediately; completion of a pending transition is observed later
//! through the message monitor. The binary mirrors each granted request onto
//! the media engine and calls `stop` when the owning handle is released, so
//! devices and sockets are freed before process exit.

use vstd::prelude::*;
use crate::graph::{GraphBuilder, GraphModel, PipelineGraph, SpliceError, TransportBinInserter};
use crate::graph::{spec_spliced};
use crate::settings::{Settings, spec_codec_params, spec_resolution_profile};

verus! {

/// One of the four lifecycle states. `Paused` exists in the underlying
/// engine's model but is never requested by this orchestrator.
#[derive(Clone, Copy, Debug, PartialEq, Eq, Structural)]
pub enum LifecycleState {
    Null,
    Ready,
    Paused,
    Playing,
}

/// How a granted transition request came back: done at once, or pending
/// with completion reported later through the notification channel.
#[derive(Clone, Copy, Debug, PartialEq, Eq, Structural)]
pub enum TransitionOutcome {
    Completed,
    Pending,
}

/// A transition request the state engine rejected; surfaced to the caller,
/// never retried.
#[derive(Clone, Copy, Debug, PartialEq, Eq, Structural)]
pub struct StateChangeError {
    pub from: LifecycleState,
    pub to: LifecycleState,
}

/// Why `prepare` failed.
#[derive(Clone, Copy, Debug, PartialEq, Eq, Structural)]
pub enum PrepareError {
    Splice(SpliceError),
    StateChange(StateChangeError),
}

/// The transition table: the only steps the lifecycle ever takes.
pub open spec fn step_allowed(from: LifecycleState, to: LifecycleState) -> bool {
    ||| (from == LifecycleState::Null && to == LifecycleState::Ready)
    ||| (from == LifecycleState::Ready && to == LifecycleState::Playing)
    ||| (from == LifecycleState::Playing && to == LifecycleState::Null)
}

/// A history the monitor can observe: it starts in Null and every later
/// entry follows its predecessor through the transition table.
pub open spec fn trace_ok(h: Seq<LifecycleState>) -> bool {
    &&& h.len() > 0
    &&& h[0] == LifecycleState::Null
    &&& forall|i: int| 1 <= i < h.len() ==> step_allowed(h[i - 1], #[trigger] h[i])
}

/// The pipeline: the owned graph, the current lifecycle state, and the
/// ghost history of every state reached so far.
pub struct Pipeline {
    pub graph: PipelineGraph,
    pub state: LifecycleState,
    pub history: Ghost<Seq<LifecycleState>>,
}

impl Pipeline {
    /// A pipeline the orchestrator may hold: a well-formed graph and a
    /// history that obeys the transition table and ends in the current
    /// state.
    pub open spec fn wf(self) -> bool {
        &&& self.graph@.wf()
        &&& trace_ok(self.history@)
        &&& self.history@.last() == self.state
    }

    /// Build the initial composition graph for the configured resolution;
    /// the lifecycle starts in Null.
    pub fn new(settings: &Settings) -> (p: Pipeline)
        ensures
            p.wf(),
            p.state == LifecycleState::Null,
            p.graph@ == crate::graph::spec_initial_graph(
                spec_resolution_profile(settings.video_resolution),
            ),
            p.history@ =~= seq![LifecycleState::Null],
    {
        let graph = GraphBuilder::build(settings.resolution_profile());
        let ghost h: Seq<LifecycleState> = seq![LifecycleState::Null];
        Pipeline { graph, state: LifecycleState::Null, history: Ghost(h) }
    }

    /// Ask the state engine for a transition to `target`. A request for the
    /// current state completes at once and changes nothing; a step of the
    /// transition table is granted and goes pending, its completion to be
    /// observed through the monitor; any other request is rejected and
    /// changes nothing.
    pub fn request_transition(&mut self, target: LifecycleState) -> (r: Result<
        TransitionOutcome,
        StateChangeError,
    >)
        ensures
            old(self).state == target ==> r == Ok::<_, StateChangeError>(
                TransitionOutcome::Completed,
            ) && *final(self) == *old(self),
            old(self).state != target && step_allowed(old(self).state, target) ==> r == Ok::<
                _,
                StateChangeError,
            >(TransitionOutcome::Pending) && final(self).state == target && final(self).history@
                == old(self).history@.push(target) && final(self).graph == old(self).graph,
            old(self).state != target && !step_allowed(old(self).state, target) ==> r == Err::<
                TransitionOutcome,
                _,
            >(StateChangeError { from: old(self).state, to: target }) && *final(self) == *old(
                self,
            ),
            old(self).wf() ==> final(self).wf(),
    {
        if self.state == target {
            return Ok(TransitionOutcome::Completed);
        }
        let granted = (self.state == LifecycleState::Null && target == LifecycleState::Ready) || (
        self.state == LifecycleState::Ready && target == LifecycleState::Playing) || (self.state
            == LifecycleState::Playing && target == LifecycleState::Null);
        if granted {
            let ghost prior = self.history@;
            self.state = target;
            self.history = Ghost(prior.push(target));
            proof {
                if old(self).wf() {
                    assert(self.history@.last() == target);
                    assert forall|i: int| 1 <= i < self.history@.len() implies step_allowed(
                        self.history@[i - 1],
                        #[trigger] self.history@[i],
                    ) by {
                        if i < prior.len() {
                            assert(step_allowed(prior[i - 1], prior[i]));
                        } else {
                            assert(self.history@[i - 1] == prior.last());
                        }
                    }
                }
            }
            Ok(TransitionOutcome::Pending)
        } else {
            Err(StateChangeError { from: self.state, to: target })
        }
    }

    /// Splice the transport subgraph for the configured codec, then request
    /// the Ready transition. The splice happens unconditionally — a second
    /// call splices a second subgraph — and must come before Ready is
    /// reached, because the endpoint's capability negotiation depends on the
    /// already-linked capability filter.
    pub fn prepare(&mut self, settings: &Settings) -> (r: Result<TransitionOutcome, PrepareError>)
        requires
            old(self).wf(),
            old(self).graph.subgraphs@.len() + 2 < u64::MAX,
        ensures
            final(self).wf(),
            final(self).graph@ == spec_spliced(
                old(self).graph@,
                spec_codec_params(settings.webrtc_codec),
            ),
            old(self).state == LifecycleState::Null ==> r == Ok::<_, PrepareError>(
                TransitionOutcome::Pending,
            ) && final(self).state == LifecycleState::Ready && final(self).history@ == old(
                self,
            ).history@.push(LifecycleState::Ready),
            old(self).state == LifecycleState::Ready ==> r == Ok::<_, PrepareError>(
                TransitionOutcome::Completed,
            ) && final(self).state == LifecycleState::Ready && final(self).history@ == old(
                self,
            ).history@,
            old(self).state == LifecycleState::Playing || old(self).state == LifecycleState::Paused
                ==> r == Err::<TransitionOutcome, _>(
                PrepareError::StateChange(
                    StateChangeError { from: old(self).state, to: LifecycleState::Ready },
                ),
            ) && final(self).state == old(self).state && final(self).history@ == old(
                self,
            ).history@,
    {
        let codec = settings.webrtc_codec_params();
        proof {
            assert(old(self).graph@.ports_consistent());
            assert(self.graph.branch_outputs < u64::MAX);
            assert(self.graph.endpoint_inputs < u64::MAX);
        }
        match TransportBinInserter::insert(&mut self.graph, &codec) {
            Ok(()) => {},
            Err(e) => {
                return Err(PrepareError::Splice(e));
            },
        }
        match self.request_transition(LifecycleState::Ready) {
            Ok(outcome) => Ok(outcome),
            Err(e) => Err(PrepareError::StateChange(e)),
        }
    }

    /// Request Playing; a no-op when already Playing, granted from Ready,
    /// rejected anywhere else.
    pub fn start(&mut self) -> (r: Result<TransitionOutcome, StateChangeError>)
        ensures
            old(self).state == LifecycleState::Playing ==> r == Ok::<_, StateChangeError>(
                TransitionOutcome::Completed,
            ) && *final(self) == *old(self),
            old(self).state == LifecycleState::Ready ==> r == Ok::<_, StateChangeError>(
                TransitionOutcome::Pending,
            ) && final(self).state == LifecycleState::Playing && final(self).history@ == old(
                self,
            ).history@.push(LifecycleState::Playing) && final(self).graph == old(self).graph,
            old(self).state == LifecycleState::Null || old(self).state == LifecycleState::Paused
                ==> r == Err::<TransitionOutcome, _>(
                StateChangeError { from: old(self).state, to: LifecycleState::Playing },
            ) && *final(self) == *old(self),
            old(self).wf() ==> final(self).wf(),
    {
        self.request_transition(LifecycleState::Playing)
    }

    /// Request Null; a no-op when already Null, granted from Playing,
    /// rejected anywhere else. The binary calls this when the owning handle
    /// is released, so teardown precedes process exit.
    pub fn stop(&mut self) -> (r: Result<TransitionOutcome, StateChangeError>)
        ensures
            old(self).state == LifecycleState::Null ==> r == Ok::<_, StateChangeError>(
                TransitionOutcome::Completed,
            ) && *final(self) == *old(self),
            old(self).state == LifecycleState::Playing ==> r == Ok::<_, StateChangeError>(
                TransitionOutcome::Pending,
            ) && final(self).state == LifecycleState::Null && final(self).history@ == old(
                self,
            ).history@.push(LifecycleState::Null) && final(self).graph == old(self).graph,
            old(self).state == LifecycleState::Ready || old(self).state == LifecycleState::Paused
                ==> r == Err::<TransitionOutcome, _>(
                StateChangeError { from: old(self).state, to: LifecycleState::Null },
            ) && *final(self) == *old(self),
            old(self).wf() ==> final(self).wf(),
    {
        self.request_transition(LifecycleState::Null)
    }
}

/// The lifecycle observes only Null → Ready → Playing → Null: in any
/// observable history, Playing is immediately preceded by Ready — the
/// monitor never observes Playing without a prior Ready.
pub proof fn lemma_playing_needs_ready(h: Seq<LifecycleState>, i: int)
    requires
        trace_ok(h),
        0 <= i < h.len(),
        h[i] == LifecycleState::Playing,
    ensures
        0 < i,
        h[i - 1] == LifecycleState::Ready,
{
    assert(h[0] == LifecycleState::Null);
    assert(step_allowed(h[i - 1], h[i]));
}

} // verus!
