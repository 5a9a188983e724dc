//! Registration and heartbeat control: the configuration, the worker's
//! retry and failure-threshold decisions, and what each lifecycle state
//! asks of the registration machinery.
//!
//! The asynchronous loop that sleeps and calls the directory lives with
//! the host; every decision it takes between calls is made here.

use vstd::prelude::*;

use crate::lifecycle::AgentState;
use crate::scheduler::SchedulerError;

verus! {

/// Errors surfaced by registry integration.
#[derive(Debug)]
pub enum RegistryError {
    /// Registration configuration was invalid.
    InvalidConfig(String),
    /// Scheduler rejected a task submission.
    Scheduler(SchedulerError),
    /// Registry backend failure.
    Backend {
        /// Human-readable context provided by the backend.
        reason: String,
    },
}

impl RegistryError {
    /// Convenience helper to construct backend errors.
    pub fn backend(reason: &str) -> (r: RegistryError)
        ensures
            r matches RegistryError::Backend { reason: s } && s@ == reason@,
    {
        RegistryError::Backend { reason: reason.to_owned() }
    }
}

/// Result alias for registry operations.
pub type RegistryResult<T> = Result<T, RegistryError>;

/// Configuration for registration and heartbeat maintenance, durations in
/// milliseconds.
#[derive(Debug, Clone, Copy, PartialEq, Eq, Structural)]
pub struct RegistrationConfig {
    heartbeat_interval_millis: u64,
    initial_retry_delay_millis: u64,
    max_retry_delay_millis: u64,
    max_consecutive_failures: usize,
}

impl RegistrationConfig {
    /// The heartbeat interval.
    pub closed spec fn spec_heartbeat_interval(self) -> u64 {
        self.heartbeat_interval_millis
    }

    /// The initial retry delay.
    pub closed spec fn spec_initial_retry(self) -> u64 {
        self.initial_retry_delay_millis
    }

    /// The maximum retry delay.
    pub closed spec fn spec_max_retry(self) -> u64 {
        self.max_retry_delay_millis
    }

    /// The consecutive-failure threshold.
    pub closed spec fn spec_max_failures(self) -> usize {
        self.max_consecutive_failures
    }

    /// A valid configuration: positive durations, the initial delay no
    /// larger than the maximum, and a threshold of at least one.
    pub open spec fn wf(self) -> bool {
        &&& self.spec_heartbeat_interval() >= 1
        &&& self.spec_initial_retry() >= 1
        &&& self.spec_max_retry() >= 1
        &&& self.spec_initial_retry() <= self.spec_max_retry()
        &&& self.spec_max_failures() >= 1
    }

    /// Creates a new configuration; `validate` checks it.
    pub fn new(
        heartbeat_interval_millis: u64,
        initial_retry_delay_millis: u64,
        max_retry_delay_millis: u64,
        max_consecutive_failures: usize,
    ) -> (r: RegistrationConfig)
        requires
            max_consecutive_failures >= 1,
        ensures
            r.spec_heartbeat_interval() == heartbeat_interval_millis,
            r.spec_initial_retry() == initial_retry_delay_millis,
            r.spec_max_retry() == max_retry_delay_millis,
            r.spec_max_failures() == max_consecutive_failures,
    {
        RegistrationConfig {
            heartbeat_interval_millis,
            initial_retry_delay_millis,
            max_retry_delay_millis,
            max_consecutive_failures,
        }
    }

    /// Returns the heartbeat interval in milliseconds.
    pub fn heartbeat_interval_millis(self) -> (r: u64)
        ensures
            r == self.spec_heartbeat_interval(),
    {
        self.heartbeat_interval_millis
    }

    /// Returns the initial retry delay in milliseconds.
    pub fn initial_retry_delay_millis(self) -> (r: u64)
        ensures
            r == self.spec_initial_retry(),
    {
        self.initial_retry_delay_millis
    }

    /// Returns the maximum retry delay in milliseconds.
    pub fn max_retry_delay_millis(self) -> (r: u64)
        ensures
            r == self.spec_max_retry(),
    {
        self.max_retry_delay_millis
    }

    /// Returns the limit on consecutive heartbeat failures before
    /// re-registration.
    pub fn max_consecutive_failures(self) -> (r: usize)
        ensures
            r == self.spec_max_failures(),
    {
        self.max_consecutive_failures
    }

    /// Validates the configuration: succeeds exactly when every duration
    /// is positive and the retry delay bounds are consistent.
    pub fn validate(self) -> (r: RegistryResult<()>)
        ensures
            r is Ok <==> self.wf(),
            r matches Err(e) ==> e is InvalidConfig,
    {
        if self.heartbeat_interval_millis == 0 {
            return Err(RegistryError::InvalidConfig(
                "heartbeat interval must be greater than zero".to_owned(),
            ));
        }
        if self.initial_retry_delay_millis == 0 {
            return Err(RegistryError::InvalidConfig(
                "initial retry delay must be greater than zero".to_owned(),
            ));
        }
        if self.max_retry_delay_millis == 0 {
            return Err(RegistryError::InvalidConfig(
                "max retry delay must be greater than zero".to_owned(),
            ));
        }
        if self.initial_retry_delay_millis > self.max_retry_delay_millis {
            return Err(RegistryError::InvalidConfig(
                "initial retry delay cannot exceed max retry delay".to_owned(),
            ));
        }
        if self.max_consecutive_failures == 0 {
            return Err(RegistryError::InvalidConfig(
                "failure threshold must be at least one".to_owned(),
            ));
        }
        Ok(())
    }
}

impl Default for RegistrationConfig {
    /// The default configuration: a ten-second heartbeat, retries from one
    /// second up to thirty, and a threshold of three failures.
    fn default() -> (r: Self)
        ensures
            r.spec_heartbeat_interval() == 10000,
            r.spec_initial_retry() == 1000,
            r.spec_max_retry() == 30000,
            r.spec_max_failures() == 3,
            r.wf(),
    {
        RegistrationConfig {
            heartbeat_interval_millis: 10000,
            initial_retry_delay_millis: 1000,
            max_retry_delay_millis: 30000,
            max_consecutive_failures: 3,
        }
    }
}

/// What a lifecycle state asks of the registration machinery.
#[derive(Debug, Clone, Copy, PartialEq, Eq, Structural)]
pub enum RegistryDirective {
    /// Make sure a registration worker is running.
    EnsureWorker,
    /// Set the shutdown flag, deregister, and abort any worker.
    Shutdown,
    /// Leave the machinery as it is.
    Leave,
}

/// The directive a lifecycle state carries: a worker while `Ready` or
/// `Active`, shutdown on `Retiring` or `Terminated`, nothing otherwise.
pub open spec fn spec_registration_directive(state: AgentState) -> RegistryDirective {
    match state {
        AgentState::Ready => RegistryDirective::EnsureWorker,
        AgentState::Active => RegistryDirective::EnsureWorker,
        AgentState::Retiring => RegistryDirective::Shutdown,
        AgentState::Terminated => RegistryDirective::Shutdown,
        _ => RegistryDirective::Leave,
    }
}

/// Returns what the registration machinery must do on entering a state.
pub fn registration_directive(state: AgentState) -> (r: RegistryDirective)
    ensures
        r == spec_registration_directive(state),
{
    match state {
        AgentState::Ready | AgentState::Active => RegistryDirective::EnsureWorker,
        AgentState::Retiring | AgentState::Terminated => RegistryDirective::Shutdown,
        AgentState::Init | AgentState::Suspended => RegistryDirective::Leave,
    }
}

/// Decision state of one registration worker: the current retry delay
/// while registering and the consecutive-failure count while beating.
#[derive(Debug)]
pub struct RegistrationWorker {
    config: RegistrationConfig,
    retry_delay_millis: u64,
    failures: usize,
}

impl RegistrationWorker {
    /// The configuration the worker follows.
    pub closed spec fn spec_config(&self) -> RegistrationConfig {
        self.config
    }

    /// The current retry delay.
    pub closed spec fn spec_retry_delay(&self) -> u64 {
        self.retry_delay_millis
    }

    /// The consecutive heartbeat failures seen.
    pub closed spec fn spec_failures(&self) -> usize {
        self.failures
    }

    /// The worker invariant: the delay stays within the configured bounds
    /// and the failure count below the threshold.
    pub open spec fn wf(&self) -> bool {
        &&& self.spec_config().wf()
        &&& self.spec_config().spec_initial_retry() <= self.spec_retry_delay()
        &&& self.spec_retry_delay() <= self.spec_config().spec_max_retry()
        &&& self.spec_failures() < self.spec_config().spec_max_failures()
    }

    /// Creates a worker for a valid configuration, with the initial retry
    /// delay and no failures.
    pub fn new(config: RegistrationConfig) -> (r: RegistrationWorker)
        requires
            config.wf(),
        ensures
            r.spec_config() == config,
            r.spec_retry_delay() == config.spec_initial_retry(),
            r.spec_failures() == 0,
            r.wf(),
    {
        RegistrationWorker {
            config,
            retry_delay_millis: config.initial_retry_delay_millis(),
            failures: 0,
        }
    }

    /// Decides the backoff after a failed registration: the worker sleeps
    /// the current delay, and the delay doubles, capped at the maximum.
    pub fn on_register_failure(&mut self) -> (sleep_millis: u64)
        requires
            old(self).wf(),
        ensures
            final(self).wf(),
            final(self).spec_config() == old(self).spec_config(),
            sleep_millis == old(self).spec_retry_delay(),
            final(self).spec_retry_delay() == if 2 * old(self).spec_retry_delay() <= old(
                self,
            ).spec_config().spec_max_retry() {
                2 * old(self).spec_retry_delay()
            } else {
                old(self).spec_config().spec_max_retry() as int
            },
            final(self).spec_failures() == old(self).spec_failures(),
    {
        let sleep_millis = self.retry_delay_millis;
        let max = self.config.max_retry_delay_millis();
        self.retry_delay_millis = if self.retry_delay_millis <= max / 2 {
            let doubled = 2 * self.retry_delay_millis;
            if doubled <= max {
                doubled
            } else {
                max
            }
        } else {
            max
        };
        sleep_millis
    }

    /// Resets the worker after a successful registration: the retry delay
    /// returns to its initial value and the failure count clears.
    pub fn on_register_success(&mut self)
        requires
            old(self).wf(),
        ensures
            final(self).wf(),
            final(self).spec_config() == old(self).spec_config(),
            final(self).spec_retry_delay() == old(self).spec_config().spec_initial_retry(),
            final(self).spec_failures() == 0,
    {
        self.retry_delay_millis = self.config.initial_retry_delay_millis();
        self.failures = 0;
    }

    /// Decides what a heartbeat outcome means: success clears the failure
    /// count; a failure raises it, and re-registration is demanded exactly
    /// when the count reaches the configured threshold (the count then
    /// clears for the fresh registration attempt).
    pub fn on_heartbeat_result(&mut self, ok: bool) -> (reregister: bool)
        requires
            old(self).wf(),
        ensures
            final(self).wf(),
            final(self).spec_config() == old(self).spec_config(),
            ok ==> !reregister && final(self).spec_failures() == 0,
            !ok ==> (reregister <==> old(self).spec_failures() + 1 >= old(
                self,
            ).spec_config().spec_max_failures()),
            !ok && !reregister ==> final(self).spec_failures() == old(self).spec_failures() + 1,
            !ok && reregister ==> final(self).spec_failures() == 0,
            final(self).spec_retry_delay() == old(self).spec_retry_delay(),
    {
        if ok {
            self.failures = 0;
            false
        } else {
            let next = self.failures + 1;
            if next >= self.config.max_consecutive_failures() {
                self.failures = 0;
                true
            } else {
                self.failures = next;
                false
            }
        }
    }
}

} // verus!
