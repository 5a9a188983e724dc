//! Bounded cooperative scheduler core: permit accounting and the closed
//! flag.
//!
//! The asynchronous runner that parks and wakes tasks lives with the host;
//! it consults this core for every admission decision, so the permit
//! discipline and the close semantics are decided here.

use vstd::prelude::*;

verus! {

/// Concurrency limit for tasks of one agent.
#[derive(Debug, Clone, Copy, PartialEq, Eq, Structural)]
pub struct SchedulerConfig {
    max_concurrency: usize,
}

impl SchedulerConfig {
    /// The configured concurrency limit.
    pub closed spec fn spec_max_concurrency(self) -> usize {
        self.max_concurrency
    }

    /// A valid configuration reserves at least one permit.
    pub open spec fn wf(self) -> bool {
        self.spec_max_concurrency() >= 1
    }

    /// Creates a new configuration with the supplied concurrency limit,
    /// which must be at least one.
    pub fn new(max_concurrency: usize) -> (r: SchedulerConfig)
        requires
            max_concurrency >= 1,
        ensures
            r.spec_max_concurrency() == max_concurrency,
            r.wf(),
    {
        SchedulerConfig { max_concurrency }
    }

    /// Returns the configured concurrency limit.
    pub fn max_concurrency(self) -> (r: usize)
        ensures
            r == self.spec_max_concurrency(),
    {
        self.max_concurrency
    }
}

impl Default for SchedulerConfig {
    /// The default limit of 32 concurrent tasks.
    fn default() -> (r: Self)
        ensures
            r.spec_max_concurrency() == 32,
            r.wf(),
    {
        SchedulerConfig { max_concurrency: 32 }
    }
}

/// Errors produced by the scheduler.
#[derive(Debug, Clone, Copy, PartialEq, Eq, Structural)]
pub enum SchedulerError {
    /// Scheduler is closed and will not accept new tasks.
    Closed,
}

/// Result alias for scheduler operations.
pub type SchedulerResult<T> = Result<T, SchedulerError>;

/// Admission and permit state of a bounded scheduler.
///
/// At most `max_concurrency` permits are ever held at once; once closed,
/// no submission is admitted again, while permits already held may still
/// be released.
#[derive(Debug)]
pub struct SchedulerCore {
    config: SchedulerConfig,
    closed: bool,
    in_flight: usize,
}

impl SchedulerCore {
    /// The configuration the scheduler was built with.
    pub closed spec fn spec_config(&self) -> SchedulerConfig {
        self.config
    }

    /// Whether the scheduler has been closed.
    pub closed spec fn spec_closed(&self) -> bool {
        self.closed
    }

    /// The number of permits currently held.
    pub closed spec fn spec_in_flight(&self) -> usize {
        self.in_flight
    }

    /// The permit invariant: never more permits out than the limit.
    pub open spec fn wf(&self) -> bool {
        &&& self.spec_config().wf()
        &&& self.spec_in_flight() <= self.spec_config().spec_max_concurrency()
    }

    /// Constructs a scheduler core using the provided configuration, open
    /// and with no permits held.
    pub fn new(config: SchedulerConfig) -> (r: SchedulerCore)
        requires
            config.wf(),
        ensures
            r.spec_config() == config,
            !r.spec_closed(),
            r.spec_in_flight() == 0,
            r.wf(),
    {
        SchedulerCore { config, closed: false, in_flight: 0 }
    }

    /// Returns the associated configuration.
    pub fn config(&self) -> (r: SchedulerConfig)
        ensures
            r == self.spec_config(),
    {
        self.config
    }

    /// Returns `true` if the scheduler has been closed.
    pub fn is_closed(&self) -> (r: bool)
        ensures
            r == self.spec_closed(),
    {
        self.closed
    }

    /// Closes the scheduler. Closing is idempotent, and nothing ever
    /// reopens a closed scheduler.
    pub fn close(&mut self)
        ensures
            final(self).spec_closed(),
            final(self).spec_config() == old(self).spec_config(),
            final(self).spec_in_flight() == old(self).spec_in_flight(),
            old(self).wf() ==> final(self).wf(),
    {
        self.closed = true;
    }

    /// Decides a submission: admitted exactly when the scheduler is not
    /// closed. Admission changes no state; the permit is taken separately
    /// when the task is about to run.
    pub fn check_spawn(&self) -> (r: SchedulerResult<()>)
        ensures
            r is Ok <==> !self.spec_closed(),
            r is Err ==> r == SchedulerResult::<()>::Err(SchedulerError::Closed),
    {
        if self.closed {
            Err(SchedulerError::Closed)
        } else {
            Ok(())
        }
    }

    /// Attempts to take a permit for a task about to run user code.
    /// Succeeds exactly when a permit is free; the count never passes the
    /// limit.
    pub fn try_acquire(&mut self) -> (r: bool)
        requires
            old(self).wf(),
        ensures
            final(self).wf(),
            final(self).spec_config() == old(self).spec_config(),
            final(self).spec_closed() == old(self).spec_closed(),
            r <==> old(self).spec_in_flight() < old(self).spec_config().spec_max_concurrency(),
            r ==> final(self).spec_in_flight() == old(self).spec_in_flight() + 1,
            !r ==> final(self).spec_in_flight() == old(self).spec_in_flight(),
    {
        if self.in_flight < self.config.max_concurrency() {
            self.in_flight = self.in_flight + 1;
            true
        } else {
            false
        }
    }

    /// Releases a permit when a task's user code completes.
    pub fn release(&mut self)
        requires
            old(self).wf(),
            old(self).spec_in_flight() >= 1,
        ensures
            final(self).wf(),
            final(self).spec_config() == old(self).spec_config(),
            final(self).spec_closed() == old(self).spec_closed(),
            final(self).spec_in_flight() == old(self).spec_in_flight() - 1,
    {
        self.in_flight = self.in_flight - 1;
    }
}

/// Law: at no instant are more than the configured number of permits held.
/// The invariant `wf` bounds `in_flight` by the limit; every operation
/// preserves it, so every reachable state satisfies the bound.
pub proof fn lemma_permits_bounded(core: &SchedulerCore)
    requires
        core.wf(),
    ensures
        core.spec_in_flight() <= core.spec_config().spec_max_concurrency(),
{
}

} // verus!
