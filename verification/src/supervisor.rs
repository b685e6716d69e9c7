//! The connection supervisor: the canonical connection state and every
//! transition on it.
//!
//! The supervisor never performs engine work itself. Each transition updates
//! the commanded engine state it owns and tells the caller, through its
//! result, what outside work to perform next: spawn one reconnect scheduler,
//! wait a delay, or give up. The caller performs that work, hands the outcome
//! back through the matching transition, and the contracts here guarantee the
//! bookkeeping stays consistent whatever the outcome was.

use vstd::prelude::*;
use crate::backoff::BackoffPolicy;
use crate::state::ConnectionState;
use crate::state::EngineEvent;
use crate::state::ErrorKind;
use crate::state::ErrorRecord;
use crate::state::EventClass;
use crate::state::spec_classify;
use crate::state::spec_fault_record;

verus! {

/// The commanded state of the transport engine adapter. The real engine is
/// opaque; this records what the supervisor last commanded of it, and the
/// caller mirrors each command onto the engine itself.
#[derive(Clone, Copy, PartialEq, Eq, Structural, Debug)]
pub struct EngineHandle {
    pub started: bool,
}

impl EngineHandle {
    /// A fresh engine is stopped.
    pub fn new() -> (e: EngineHandle)
        ensures
            !e.started,
    {
        EngineHandle { started: false }
    }

    /// Command the engine to start.
    pub fn start(&mut self)
        ensures
            final(self).started,
    {
        self.started = true;
    }

    /// Command the engine to stop. Idempotent: stopping an already-stopped
    /// engine raises no error and changes nothing.
    pub fn stop(&mut self)
        ensures
            !final(self).started,
            !old(self).started ==> *final(self) == *old(self),
    {
        self.started = false;
    }

    /// Synchronous query of the commanded activity state.
    pub fn is_started(&self) -> (b: bool)
        ensures
            b == self.started,
    {
        self.started
    }
}

/// How many failed reconnect attempts are allowed before giving up.
#[derive(Clone, Copy, PartialEq, Eq, Structural, Debug)]
pub enum RetryLimit {
    /// Give up, and surface a fatal error, after `max_attempts` consecutive
    /// failures.
    Finite { max_attempts: u64 },
    /// Retry forever; the retry counter saturates instead of overflowing and
    /// the connection never terminates on its own.
    Unbounded,
}

/// The reconnection configuration: backoff shape and retry bound.
#[derive(Clone, Copy, PartialEq, Eq, Structural, Debug)]
pub struct SupervisorConfig {
    pub policy: BackoffPolicy,
    pub limit: RetryLimit,
}

impl SupervisorConfig {
    pub open spec fn wf(self) -> bool {
        self.policy.wf()
    }
}

/// What the fault transition or the event dispatcher decided for one event.
#[derive(Clone, Copy, PartialEq, Eq, Structural, Debug)]
pub enum DispatchOutcome {
    /// A fault began a new episode: the caller must spawn exactly one
    /// reconnect scheduler.
    ReconnectScheduled,
    /// A fault arrived while a reconnect was already in progress; it was
    /// logged and suppressed, and no further scheduler may be spawned.
    DuplicateSuppressed,
    /// The event was informational; nothing changed.
    Informational,
}

/// What the scheduler must do after a failed reconnect attempt.
#[derive(Clone, Copy, PartialEq, Eq, Structural, Debug)]
pub enum RetryDecision {
    /// Wait the next computed delay, then attempt again.
    RetryAgain,
    /// The finite retry budget is exhausted: the connection is terminated
    /// and the scheduler must exit.
    GiveUp,
    /// The connection was no longer reconnecting when the outcome arrived
    /// (a stale callback); nothing changed and the scheduler must exit.
    Stale,
}

/// The shared record the supervisor keeps per connection. Callers that share
/// it across concurrent activities must guard it with mutual exclusion and
/// release the guard before performing engine work; every transition here is
/// one short critical section's worth of bookkeeping.
#[derive(Debug)]
pub struct Supervisor {
    pub config: SupervisorConfig,
    pub state: ConnectionState,
    /// Failed attempts in the current fault episode; reset to 0 on every
    /// transition into `Streaming`.
    pub retry_count: u64,
    /// The sole guard against concurrent reconnect sequences.
    pub reconnect_in_progress: bool,
    /// The most recent fault, retained for diagnostics until superseded.
    pub last_error: Option<ErrorRecord>,
    /// The commanded state of the engine this supervisor owns.
    pub engine: EngineHandle,
}

impl Supervisor {
    /// The supervisor's invariant: the reconnect guard is set exactly in
    /// `Reconnecting`; the commanded engine state is consistent with the
    /// connection state; the retry count never exceeds a finite bound; and
    /// the configuration is well formed.
    pub open spec fn inv(self) -> bool {
        &&& self.reconnect_in_progress <==> self.state == ConnectionState::Reconnecting
        &&& self.state == ConnectionState::Connecting ==> self.engine.started
        &&& self.state == ConnectionState::Streaming ==> self.engine.started
        &&& self.state == ConnectionState::Idle ==> !self.engine.started
        &&& self.state == ConnectionState::Faulted ==> !self.engine.started
        &&& self.state == ConnectionState::Reconnecting ==> !self.engine.started
        &&& self.state == ConnectionState::Terminated ==> !self.engine.started
        &&& match self.config.limit {
            RetryLimit::Finite { max_attempts } => self.retry_count <= max_attempts,
            RetryLimit::Unbounded => true,
        }
        &&& self.config.wf()
    }

    /// A fresh supervisor: idle, no failures, no reconnect pending, engine
    /// stopped.
    pub fn new(config: SupervisorConfig) -> (s: Supervisor)
        requires
            config.wf(),
        ensures
            s.inv(),
            s.config == config,
            s.state == ConnectionState::Idle,
            s.retry_count == 0,
            !s.reconnect_in_progress,
            s.last_error is None,
            !s.engine.started,
    {
        Supervisor {
            config,
            state: ConnectionState::Idle,
            retry_count: 0,
            reconnect_in_progress: false,
            last_error: None,
            engine: EngineHandle::new(),
        }
    }

    /// The fault transition after a fault recorded as `fault`: one atomic
    /// step of the supervisor. If a reconnect is already in progress the
    /// duplicate is suppressed and nothing changes; otherwise the engine is
    /// commanded to stop, the state moves to `Reconnecting`, the fault is
    /// recorded, and the caller must spawn exactly one reconnect scheduler.
    /// Safe to call in any state.
    pub fn on_fault(&mut self, fault: ErrorRecord) -> (outcome: DispatchOutcome)
        requires
            old(self).inv(),
        ensures
            final(self).inv(),
            (*final(self), outcome) == Self::spec_on_fault(*old(self), fault),
            outcome != DispatchOutcome::Informational,
            old(self).reconnect_in_progress ==> {
                &&& *final(self) == *old(self)
                &&& outcome == DispatchOutcome::DuplicateSuppressed
            },
            !old(self).reconnect_in_progress ==> {
                &&& outcome == DispatchOutcome::ReconnectScheduled
                &&& final(self).state == ConnectionState::Reconnecting
                &&& final(self).reconnect_in_progress
                &&& final(self).last_error == Some(fault)
                &&& !final(self).engine.started
                &&& final(self).retry_count == old(self).retry_count
                &&& final(self).config == old(self).config
            },
    {
        if self.reconnect_in_progress {
            DispatchOutcome::DuplicateSuppressed
        } else {
            self.reconnect_in_progress = true;
            self.state = ConnectionState::Reconnecting;
            self.last_error = Some(fault);
            self.engine.stop();
            DispatchOutcome::ReconnectScheduled
        }
    }

    /// What `on_fault` does, as a value: the next supervisor and the outcome.
    pub open spec fn spec_on_fault(s: Supervisor, fault: ErrorRecord) -> (Supervisor, DispatchOutcome) {
        if s.reconnect_in_progress {
            (s, DispatchOutcome::DuplicateSuppressed)
        } else {
            (
                Supervisor {
                    config: s.config,
                    state: ConnectionState::Reconnecting,
                    retry_count: s.retry_count,
                    reconnect_in_progress: true,
                    last_error: Some(fault),
                    engine: EngineHandle { started: false },
                },
                DispatchOutcome::ReconnectScheduled,
            )
        }
    }

    /// The event dispatcher's single step: classify one engine event, invoke
    /// the fault transition for errors and end-of-stream, and leave the
    /// supervisor untouched for informational events. Never blocks, so the
    /// driver loop that pumps it is never stalled.
    pub fn dispatch_event(&mut self, ev: EngineEvent) -> (outcome: DispatchOutcome)
        requires
            old(self).inv(),
        ensures
            final(self).inv(),
            (*final(self), outcome) == Self::spec_dispatch(*old(self), ev),
            spec_classify(ev) == EventClass::Informational ==> {
                &&& *final(self) == *old(self)
                &&& outcome == DispatchOutcome::Informational
            },
            spec_classify(ev) == EventClass::Fault ==> (*final(self), outcome)
                == Self::spec_on_fault(*old(self), spec_fault_record(ev)),
    {
        match ev {
            EngineEvent::Error { info, kind } => {
                self.on_fault(ErrorRecord { kind, message: info.detail })
            },
            EngineEvent::EndOfStream { info } => {
                self.on_fault(ErrorRecord { kind: ErrorKind::StreamError, message: info.detail })
            },
            EngineEvent::Warning { .. } => DispatchOutcome::Informational,
            EngineEvent::Info { .. } => DispatchOutcome::Informational,
            EngineEvent::StateChanged { .. } => DispatchOutcome::Informational,
            EngineEvent::StreamStart { .. } => DispatchOutcome::Informational,
        }
    }

    /// What `dispatch_event` does, as a value.
    pub open spec fn spec_dispatch(s: Supervisor, ev: EngineEvent) -> (Supervisor, DispatchOutcome) {
        if spec_classify(ev) == EventClass::Fault {
            Self::spec_on_fault(s, spec_fault_record(ev))
        } else {
            (s, DispatchOutcome::Informational)
        }
    }

    /// Command the initial connection: the engine starts and the state moves
    /// from `Idle` (or an abandoned `Faulted`) to `Connecting`.
    pub fn begin_connect(&mut self)
        requires
            old(self).inv(),
            old(self).state == ConnectionState::Idle || old(self).state == ConnectionState::Faulted,
        ensures
            final(self).inv(),
            final(self).state == ConnectionState::Connecting,
            final(self).engine.started,
            !final(self).reconnect_in_progress,
            final(self).retry_count == old(self).retry_count,
            final(self).last_error == old(self).last_error,
            final(self).config == old(self).config,
    {
        self.state = ConnectionState::Connecting;
        self.engine.start();
    }

    /// Confirm that the initial start succeeded: `Connecting` becomes
    /// `Streaming` and, as on every transition into `Streaming`, the retry
    /// count resets to 0.
    pub fn confirm_streaming(&mut self)
        requires
            old(self).inv(),
            old(self).state == ConnectionState::Connecting,
        ensures
            final(self).inv(),
            final(self).state == ConnectionState::Streaming,
            final(self).retry_count == 0,
            !final(self).reconnect_in_progress,
            final(self).engine.started,
            final(self).last_error == old(self).last_error,
            final(self).config == old(self).config,
    {
        self.state = ConnectionState::Streaming;
        self.retry_count = 0;
    }

    /// The wait, in seconds, before the next reconnect attempt of the
    /// current fault episode.
    pub fn next_attempt_delay(&self) -> (d: u64)
        requires
            self.inv(),
        ensures
            d == self.config.policy.spec_delay(self.retry_count as nat + 1),
    {
        self.config.policy.delay_after_failures(self.retry_count)
    }

    /// A reconnect attempt brought the engine back up: the state moves to
    /// `Streaming`, the retry count resets, and the reconnect guard clears.
    /// If the supervisor was no longer reconnecting (a stale callback),
    /// nothing changes: callers must re-check under their lock rather than
    /// trust a read taken before scheduling, and this transition is that
    /// re-check.
    pub fn on_retry_success(&mut self)
        requires
            old(self).inv(),
        ensures
            final(self).inv(),
            *final(self) == Self::spec_on_retry_success(*old(self)),
            old(self).state == ConnectionState::Reconnecting ==> {
                &&& final(self).state == ConnectionState::Streaming
                &&& final(self).retry_count == 0
                &&& !final(self).reconnect_in_progress
                &&& final(self).engine.started
            },
            old(self).state != ConnectionState::Reconnecting ==> *final(self) == *old(self),
    {
        if self.reconnect_in_progress {
            self.state = ConnectionState::Streaming;
            self.retry_count = 0;
            self.reconnect_in_progress = false;
            self.engine.start();
        }
    }

    /// What `on_retry_success` does, as a value.
    pub open spec fn spec_on_retry_success(s: Supervisor) -> Supervisor {
        if s.reconnect_in_progress {
            Supervisor {
                config: s.config,
                state: ConnectionState::Streaming,
                retry_count: 0,
                reconnect_in_progress: false,
                last_error: s.last_error,
                engine: EngineHandle { started: true },
            }
        } else {
            s
        }
    }

    /// A reconnect attempt failed: the retry count advances and the
    /// scheduler is told whether to wait again or give up. With a finite
    /// limit, the failure that reaches the limit moves the state to
    /// `Terminated`; with an unbounded limit the count saturates instead of
    /// overflowing and the answer is always to retry. Stale callbacks (the
    /// supervisor no longer reconnecting) change nothing.
    pub fn on_retry_failure(&mut self) -> (decision: RetryDecision)
        requires
            old(self).inv(),
        ensures
            final(self).inv(),
            (*final(self), decision) == Self::spec_on_retry_failure(*old(self)),
            old(self).state != ConnectionState::Reconnecting ==> {
                &&& *final(self) == *old(self)
                &&& decision == RetryDecision::Stale
            },
            old(self).state == ConnectionState::Reconnecting ==> {
                &&& (decision == RetryDecision::GiveUp <==> final(self).state
                    == ConnectionState::Terminated)
                &&& (decision == RetryDecision::RetryAgain <==> final(self).state
                    == ConnectionState::Reconnecting)
                &&& final(self).last_error == old(self).last_error
                &&& final(self).config == old(self).config
            },
    {
        if !self.reconnect_in_progress {
            RetryDecision::Stale
        } else {
            match self.config.limit {
                RetryLimit::Unbounded => {
                    if self.retry_count < u64::MAX {
                        self.retry_count = self.retry_count + 1;
                    }
                    RetryDecision::RetryAgain
                },
                RetryLimit::Finite { max_attempts } => {
                    if self.retry_count < max_attempts {
                        self.retry_count = self.retry_count + 1;
                    }
                    if self.retry_count >= max_attempts {
                        self.state = ConnectionState::Terminated;
                        self.reconnect_in_progress = false;
                        RetryDecision::GiveUp
                    } else {
                        RetryDecision::RetryAgain
                    }
                },
            }
        }
    }

    /// What `on_retry_failure` does, as a value.
    pub open spec fn spec_on_retry_failure(s: Supervisor) -> (Supervisor, RetryDecision) {
        if s.state != ConnectionState::Reconnecting {
            (s, RetryDecision::Stale)
        } else {
            match s.config.limit {
                RetryLimit::Unbounded => (
                    Supervisor {
                        retry_count: if s.retry_count < u64::MAX {
                            (s.retry_count + 1) as u64
                        } else {
                            s.retry_count
                        },
                        ..s
                    },
                    RetryDecision::RetryAgain,
                ),
                RetryLimit::Finite { max_attempts } => {
                    let next_count = if s.retry_count < max_attempts {
                        (s.retry_count + 1) as u64
                    } else {
                        s.retry_count
                    };
                    if next_count >= max_attempts {
                        (
                            Supervisor {
                                state: ConnectionState::Terminated,
                                retry_count: next_count,
                                reconnect_in_progress: false,
                                ..s
                            },
                            RetryDecision::GiveUp,
                        )
                    } else {
                        (Supervisor { retry_count: next_count, ..s }, RetryDecision::RetryAgain)
                    }
                },
            }
        }
    }

    /// Abandon a pending reconnect because shutdown was requested during the
    /// scheduler's wait: the guard clears so no teardown is left pending,
    /// and the connection parks in `Faulted`.
    pub fn cancel_reconnect(&mut self)
        requires
            old(self).inv(),
            old(self).state == ConnectionState::Reconnecting,
        ensures
            final(self).inv(),
            final(self).state == ConnectionState::Faulted,
            !final(self).reconnect_in_progress,
            !final(self).engine.started,
            final(self).retry_count == old(self).retry_count,
            final(self).last_error == old(self).last_error,
            final(self).config == old(self).config,
    {
        self.state = ConnectionState::Faulted;
        self.reconnect_in_progress = false;
    }

    /// Whether the driver loop must stop pumping events: only a terminated
    /// connection is beyond the supervisor's recovery.
    pub fn should_exit(&self) -> (b: bool)
        ensures
            b == (self.state == ConnectionState::Terminated),
    {
        match self.state {
            ConnectionState::Terminated => true,
            _ => false,
        }
    }

    /// The process-level result the driver loop reports: failure, with the
    /// fatal kind, exactly when the connection terminated with its retry
    /// budget exhausted.
    pub fn process_outcome(&self) -> (r: Result<(), ErrorKind>)
        ensures
            r == Self::spec_process_outcome(*self),
            r is Err <==> self.state == ConnectionState::Terminated,
    {
        match self.state {
            ConnectionState::Terminated => Err(ErrorKind::FatalError),
            _ => Ok(()),
        }
    }

    /// What `process_outcome` returns, as a value.
    pub open spec fn spec_process_outcome(s: Supervisor) -> Result<(), ErrorKind> {
        if s.state == ConnectionState::Terminated {
            Err(ErrorKind::FatalError)
        } else {
            Ok(())
        }
    }
}

} // verus!
