//! Properties that relate whole runs of the supervisor: duplicate
//! suppression over any event sequence, recovery after any number of failed
//! attempts, and termination exactly when a finite retry budget runs out.

use vstd::prelude::*;
use crate::state::ConnectionState;
use crate::state::EngineEvent;
use crate::supervisor::DispatchOutcome;
use crate::supervisor::RetryLimit;
use crate::supervisor::Supervisor;

verus! {

/// The supervisor after dispatching every event of `evs`, in order.
pub open spec fn after_events(s: Supervisor, evs: Seq<EngineEvent>) -> Supervisor
    decreases evs.len(),
{
    if evs.len() == 0 {
        s
    } else {
        after_events(Supervisor::spec_dispatch(s, evs[0]).0, evs.drop_first())
    }
}

/// How many events of `evs`, dispatched in order from `s`, answer
/// `ReconnectScheduled` — that is, how many reconnect scheduler activities
/// the caller is told to spawn.
pub open spec fn schedules_in(s: Supervisor, evs: Seq<EngineEvent>) -> nat
    decreases evs.len(),
{
    if evs.len() == 0 {
        0
    } else {
        (if Supervisor::spec_dispatch(s, evs[0]).1 == DispatchOutcome::ReconnectScheduled {
            1nat
        } else {
            0nat
        }) + schedules_in(Supervisor::spec_dispatch(s, evs[0]).0, evs.drop_first())
    }
}

/// While a reconnect is in progress, no event sequence — fault or
/// informational, in any order — spawns a further scheduler, and the
/// reconnect guard stays set.
pub proof fn lemma_no_schedule_while_reconnecting(s: Supervisor, evs: Seq<EngineEvent>)
    requires
        s.reconnect_in_progress,
    ensures
        schedules_in(s, evs) == 0,
        after_events(s, evs).reconnect_in_progress,
    decreases evs.len(),
{
    if evs.len() > 0 {
        let (s2, outcome) = Supervisor::spec_dispatch(s, evs[0]);
        assert(s2.reconnect_in_progress && outcome != DispatchOutcome::ReconnectScheduled);
        lemma_no_schedule_while_reconnecting(s2, evs.drop_first());
    }
}

/// Duplicate suppression: however many fault events arrive before the
/// current episode's teardown completes, at most one reconnect scheduler is
/// spawned — and none at all if a reconnect was already in progress.
pub proof fn lemma_at_most_one_scheduler_spawned(s: Supervisor, evs: Seq<EngineEvent>)
    ensures
        schedules_in(s, evs) <= 1,
        s.reconnect_in_progress ==> schedules_in(s, evs) == 0,
    decreases evs.len(),
{
    if s.reconnect_in_progress {
        lemma_no_schedule_while_reconnecting(s, evs);
    } else if evs.len() > 0 {
        let (s2, outcome) = Supervisor::spec_dispatch(s, evs[0]);
        if outcome == DispatchOutcome::ReconnectScheduled {
            assert(s2.reconnect_in_progress);
            lemma_no_schedule_while_reconnecting(s2, evs.drop_first());
        } else {
            assert(s2 == s);
            lemma_at_most_one_scheduler_spawned(s2, evs.drop_first());
        }
    }
}

/// The supervisor after `n` consecutive failed reconnect attempts.
pub open spec fn after_failures(s: Supervisor, n: nat) -> Supervisor
    decreases n,
{
    if n == 0 {
        s
    } else {
        Supervisor::spec_on_retry_failure(after_failures(s, (n - 1) as nat)).0
    }
}

/// Whether `n` more failed attempts stay within the retry budget.
pub open spec fn budget_allows(s: Supervisor, n: nat) -> bool {
    match s.config.limit {
        RetryLimit::Finite { max_attempts } => s.retry_count + n < max_attempts,
        RetryLimit::Unbounded => true,
    }
}

/// Failed attempts within the budget keep the supervisor reconnecting, keep
/// its invariant, and advance the retry count by exactly one per failure
/// under a finite limit.
pub proof fn lemma_failures_stay_reconnecting(s: Supervisor, n: nat)
    requires
        s.inv(),
        s.state == ConnectionState::Reconnecting,
        budget_allows(s, n),
    ensures
        after_failures(s, n).inv(),
        after_failures(s, n).state == ConnectionState::Reconnecting,
        after_failures(s, n).config == s.config,
        after_failures(s, n).last_error == s.last_error,
        s.config.limit is Finite ==> after_failures(s, n).retry_count == s.retry_count + n,
    decreases n,
{
    if n > 0 {
        lemma_failures_stay_reconnecting(s, (n - 1) as nat);
    }
}

/// Recovery: after any number of failed attempts that stay within the retry
/// budget, one successful attempt brings the state to `Streaming` with the
/// retry count reset to 0.
pub proof fn lemma_failures_then_success_streams(s: Supervisor, n: nat)
    requires
        s.inv(),
        s.state == ConnectionState::Reconnecting,
        budget_allows(s, n),
    ensures
        Supervisor::spec_on_retry_success(after_failures(s, n)).inv(),
        Supervisor::spec_on_retry_success(after_failures(s, n)).state == ConnectionState::Streaming,
        Supervisor::spec_on_retry_success(after_failures(s, n)).retry_count == 0,
        !Supervisor::spec_on_retry_success(after_failures(s, n)).reconnect_in_progress,
{
    lemma_failures_stay_reconnecting(s, n);
}

/// Exhaustion: with a finite retry bound, a fresh fault episode reaches
/// `Terminated` after exactly that many consecutive failures — one fewer
/// leaves it still reconnecting — and the process outcome is then a failure
/// with the fatal kind.
pub proof fn lemma_finite_retries_terminate(s: Supervisor, max_attempts: u64)
    requires
        s.inv(),
        s.state == ConnectionState::Reconnecting,
        s.config.limit == (RetryLimit::Finite { max_attempts }),
        s.retry_count == 0,
        max_attempts >= 1,
    ensures
        after_failures(s, max_attempts as nat).state == ConnectionState::Terminated,
        after_failures(s, max_attempts as nat).inv(),
        after_failures(s, (max_attempts - 1) as nat).state == ConnectionState::Reconnecting,
        Supervisor::spec_process_outcome(after_failures(s, max_attempts as nat)) == Err::<
            (),
            crate::state::ErrorKind,
        >(crate::state::ErrorKind::FatalError),
{
    lemma_failures_stay_reconnecting(s, (max_attempts - 1) as nat);
}

/// Resilience: with an unbounded retry limit the supervisor never reaches
/// `Terminated`, however many consecutive failures arrive.
pub proof fn lemma_unbounded_never_terminates(s: Supervisor, n: nat)
    requires
        s.inv(),
        s.state == ConnectionState::Reconnecting,
        s.config.limit == RetryLimit::Unbounded,
    ensures
        after_failures(s, n).inv(),
        after_failures(s, n).config == s.config,
        after_failures(s, n).state == ConnectionState::Reconnecting,
        after_failures(s, n).state != ConnectionState::Terminated,
    decreases n,
{
    if n > 0 {
        lemma_unbounded_never_terminates(s, (n - 1) as nat);
    }
}

} // verus!
