//! Lifecycle state machine for mesh agents.

use vstd::prelude::*;

use crate::ids::AgentId;

verus! {

/// Discrete states an agent can occupy during its lifetime.
#[derive(Debug, Clone, Copy, PartialEq, Eq, Structural)]
pub enum AgentState {
    /// Kernel constructed but not yet initialized.
    Init,
    /// Dependencies are initialized and the agent is ready for activation.
    Ready,
    /// Agent is actively handling workloads.
    Active,
    /// Agent is temporarily paused but can resume.
    Suspended,
    /// Agent is draining in-flight work prior to shut down.
    Retiring,
    /// Agent fully terminated; no further work should be scheduled.
    Terminated,
}

impl AgentState {
    /// Returns `true` when the state represents a running agent.
    pub fn is_active(self) -> (r: bool)
        ensures
            r == (self is Active),
    {
        matches!(self, AgentState::Active)
    }

    /// Returns `true` once the agent has terminated.
    pub fn is_terminal(self) -> (r: bool)
        ensures
            r == (self is Terminated),
    {
        matches!(self, AgentState::Terminated)
    }
}

/// Events that trigger lifecycle transitions.
#[derive(Debug, Clone, Copy, PartialEq, Eq, Structural)]
pub enum LifecycleEvent {
    /// Finish bootstrapping resources.
    Boot,
    /// Begin processing workloads.
    Activate,
    /// Pause execution while retaining state.
    Suspend,
    /// Resume execution after a suspension.
    Resume,
    /// Initiate a graceful shutdown.
    Retire,
    /// Finalize shutdown after draining work.
    Terminate,
    /// Immediately abort the agent, forcing termination.
    Abort,
}

/// The transition table: the state reached from `state` on `event`, or `None`
/// where the pair is rejected.
pub open spec fn spec_transition(state: AgentState, event: LifecycleEvent) -> Option<AgentState> {
    match (state, event) {
        (AgentState::Init, LifecycleEvent::Boot) => Some(AgentState::Ready),
        (AgentState::Ready, LifecycleEvent::Activate) => Some(AgentState::Active),
        (AgentState::Suspended, LifecycleEvent::Resume) => Some(AgentState::Active),
        (AgentState::Ready, LifecycleEvent::Retire) => Some(AgentState::Retiring),
        (AgentState::Active, LifecycleEvent::Retire) => Some(AgentState::Retiring),
        (AgentState::Suspended, LifecycleEvent::Retire) => Some(AgentState::Retiring),
        (AgentState::Active, LifecycleEvent::Suspend) => Some(AgentState::Suspended),
        (AgentState::Retiring, LifecycleEvent::Terminate) => Some(AgentState::Terminated),
        (AgentState::Terminated, LifecycleEvent::Terminate) => Some(AgentState::Terminated),
        (_, LifecycleEvent::Abort) => Some(AgentState::Terminated),
        _ => None,
    }
}

/// Errors emitted by the lifecycle controller.
#[derive(Debug, Clone, PartialEq, Eq, Structural)]
pub enum LifecycleError {
    /// Transition was not permitted from the current state.
    InvalidTransition {
        /// Identifier of the agent whose transition failed.
        agent_id: AgentId,
        /// State prior to the attempted transition.
        from: AgentState,
        /// Event that triggered the failure.
        event: LifecycleEvent,
    },
}

/// Result alias used for lifecycle operations.
pub type LifecycleResult<T> = Result<T, LifecycleError>;

/// Lifecycle state manager.
#[derive(Debug, Clone, Copy)]
pub struct Lifecycle {
    agent_id: AgentId,
    state: AgentState,
}

impl Lifecycle {
    /// The owning agent identifier.
    pub closed spec fn spec_agent_id(&self) -> AgentId {
        self.agent_id
    }

    /// The current state.
    pub closed spec fn spec_state(&self) -> AgentState {
        self.state
    }

    /// Constructs a lifecycle controller for the given agent, starting in `Init`.
    pub fn new(agent_id: AgentId) -> (r: Lifecycle)
        ensures
            r.spec_agent_id() == agent_id,
            r.spec_state() is Init,
    {
        Lifecycle { agent_id, state: AgentState::Init }
    }

    /// Returns the owning agent identifier.
    pub fn agent_id(&self) -> (r: AgentId)
        ensures
            r == self.spec_agent_id(),
    {
        self.agent_id
    }

    /// Returns the current state.
    pub fn state(&self) -> (r: AgentState)
        ensures
            r == self.spec_state(),
    {
        self.state
    }

    /// Applies a lifecycle event, returning the resulting state.
    ///
    /// Succeeds exactly on the pairs listed in the transition table, moving to
    /// the state the table gives; a rejected event leaves the state unchanged
    /// and reports the prior state and the event.
    pub fn transition(&mut self, event: LifecycleEvent) -> (r: LifecycleResult<AgentState>)
        ensures
            match spec_transition(old(self).spec_state(), event) {
                Some(next) => {
                    &&& r == LifecycleResult::<AgentState>::Ok(next)
                    &&& final(self).spec_state() == next
                },
                None => {
                    &&& r == LifecycleResult::<AgentState>::Err(LifecycleError::InvalidTransition {
                        agent_id: old(self).spec_agent_id(),
                        from: old(self).spec_state(),
                        event,
                    })
                    &&& final(self).spec_state() == old(self).spec_state()
                },
            },
            final(self).spec_agent_id() == old(self).spec_agent_id(),
    {
        let next: Option<AgentState> = match (self.state, event) {
            (AgentState::Init, LifecycleEvent::Boot) => Some(AgentState::Ready),
            (AgentState::Ready, LifecycleEvent::Activate)
            | (AgentState::Suspended, LifecycleEvent::Resume) => Some(AgentState::Active),
            (
                AgentState::Ready | AgentState::Active | AgentState::Suspended,
                LifecycleEvent::Retire,
            ) => Some(AgentState::Retiring),
            (AgentState::Active, LifecycleEvent::Suspend) => Some(AgentState::Suspended),
            (AgentState::Retiring | AgentState::Terminated, LifecycleEvent::Terminate)
            | (_, LifecycleEvent::Abort) => Some(AgentState::Terminated),
            _ => None,
        };

        match next {
            Some(next_state) => {
                self.state = next_state;
                Ok(self.state)
            },
            None => Err(LifecycleError::InvalidTransition {
                agent_id: self.agent_id,
                from: self.state,
                event,
            }),
        }
    }
}

/// Law: the terminal state is stable. Any event accepted in `Terminated`
/// leaves the agent terminated, and `Abort` is accepted from every state.
pub proof fn lemma_terminal_state_stable(state: AgentState, event: LifecycleEvent)
    ensures
        match spec_transition(AgentState::Terminated, event) {
            Some(next) => next is Terminated,
            None => true,
        },
        spec_transition(state, LifecycleEvent::Abort) is Some,
{
}

/// Law: abort is absorbing. From any state, `Abort` is accepted and yields
/// `Terminated`; a second `Abort` from `Terminated` again yields `Terminated`
/// without change.
pub proof fn lemma_abort_absorbing(state: AgentState)
    ensures
        spec_transition(state, LifecycleEvent::Abort) == Some(AgentState::Terminated),
        spec_transition(AgentState::Terminated, LifecycleEvent::Abort) == Some(
            AgentState::Terminated,
        ),
{
}

} // verus!
