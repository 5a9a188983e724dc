//! Agent kernel core: ownership of the lifecycle state machine and the
//! decisions each transition hands to the surrounding runtime.
//!
//! The host wires the kernel to its message handler, scheduler, and
//! registry; every lifecycle decision, and the registry directive each
//! new state carries, is decided here.

use vstd::prelude::*;

use crate::ids::AgentId;
use crate::lifecycle::{spec_transition, AgentState, Lifecycle, LifecycleError, LifecycleEvent};
use crate::registration::{
    spec_registration_directive, registration_directive, RegistryDirective, RegistryError,
};

verus! {

/// Errors emitted by kernel operations.
#[derive(Debug)]
pub enum KernelError {
    /// Lifecycle transition failure.
    Lifecycle(LifecycleError),
    /// Registry hook failure.
    Registry(RegistryError),
}

/// Result alias for kernel operations.
pub type KernelResult<T> = Result<T, KernelError>;

/// Core runtime state: the agent identity and its lifecycle.
#[derive(Debug)]
pub struct AgentKernel {
    lifecycle: Lifecycle,
}

impl AgentKernel {
    /// The agent identifier.
    pub closed spec fn spec_agent_id(&self) -> AgentId {
        self.lifecycle.spec_agent_id()
    }

    /// The current lifecycle state.
    pub closed spec fn spec_state(&self) -> AgentState {
        self.lifecycle.spec_state()
    }

    /// Creates a new kernel in the initial lifecycle state.
    pub fn new(agent_id: AgentId) -> (r: AgentKernel)
        ensures
            r.spec_agent_id() == agent_id,
            r.spec_state() is Init,
    {
        AgentKernel { lifecycle: Lifecycle::new(agent_id) }
    }

    /// Returns the identifier associated with this agent.
    pub fn agent_id(&self) -> (r: AgentId)
        ensures
            r == self.spec_agent_id(),
    {
        self.lifecycle.agent_id()
    }

    /// Returns the current lifecycle state.
    pub fn state(&self) -> (r: AgentState)
        ensures
            r == self.spec_state(),
    {
        self.lifecycle.state()
    }

    /// Applies a lifecycle event. On success the new state is returned
    /// together with the registry directive that state carries, for the
    /// host to act on; a rejected event changes nothing.
    pub fn transition(&mut self, event: LifecycleEvent) -> (r: KernelResult<
        (AgentState, RegistryDirective),
    >)
        ensures
            final(self).spec_agent_id() == old(self).spec_agent_id(),
            match spec_transition(old(self).spec_state(), event) {
                Some(next) => {
                    &&& final(self).spec_state() == next
                    &&& r matches Ok(p) && p.0 == next && p.1 == spec_registration_directive(next)
                },
                None => {
                    &&& final(self).spec_state() == old(self).spec_state()
                    &&& r matches Err(e) && e matches KernelError::Lifecycle(le) && le
                        == (LifecycleError::InvalidTransition {
                        agent_id: old(self).spec_agent_id(),
                        from: old(self).spec_state(),
                        event,
                    })
                },
            },
    {
        match self.lifecycle.transition(event) {
            Ok(state) => Ok((state, registration_directive(state))),
            Err(e) => Err(KernelError::Lifecycle(e)),
        }
    }
}

} // verus!
