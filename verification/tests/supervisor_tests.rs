use relay_supervisor::backoff::BackoffPolicy;
use relay_supervisor::state::ConnectionState;
use relay_supervisor::state::EngineEvent;
use relay_supervisor::state::ErrorKind;
use relay_supervisor::state::ErrorRecord;
use relay_supervisor::state::EventClass;
use relay_supervisor::state::EventInfo;
use relay_supervisor::state::classify_event;
use relay_supervisor::supervisor::DispatchOutcome;
use relay_supervisor::supervisor::EngineHandle;
use relay_supervisor::supervisor::RetryDecision;
use relay_supervisor::supervisor::RetryLimit;
use relay_supervisor::supervisor::Supervisor;
use relay_supervisor::supervisor::SupervisorConfig;

fn fixed_config(max_attempts: u64) -> SupervisorConfig {
    SupervisorConfig {
        policy: BackoffPolicy::Fixed { delay_secs: 5 },
        limit: RetryLimit::Finite { max_attempts },
    }
}

fn unbounded_config() -> SupervisorConfig {
    SupervisorConfig {
        policy: BackoffPolicy::Fixed { delay_secs: 5 },
        limit: RetryLimit::Unbounded,
    }
}

fn info(detail: &str) -> EventInfo {
    EventInfo { source: "pipeline0".to_string(), detail: detail.to_string() }
}

fn streaming_supervisor(config: SupervisorConfig) -> Supervisor {
    let mut s = Supervisor::new(config);
    s.begin_connect();
    s.confirm_streaming();
    s
}

#[test]
fn initial_connect_reaches_streaming() {
    let mut s = Supervisor::new(fixed_config(10));
    assert_eq!(s.state, ConnectionState::Idle);
    assert!(!s.engine.is_started());
    s.begin_connect();
    assert_eq!(s.state, ConnectionState::Connecting);
    assert!(s.engine.is_started());
    s.confirm_streaming();
    assert_eq!(s.state, ConnectionState::Streaming);
    assert_eq!(s.retry_count, 0);
    assert!(!s.should_exit());
    assert_eq!(s.process_outcome(), Ok(()));
}

#[test]
fn classification_of_every_event() {
    assert_eq!(
        classify_event(&EngineEvent::Error { info: info("e"), kind: ErrorKind::StreamError }),
        EventClass::Fault
    );
    assert_eq!(classify_event(&EngineEvent::EndOfStream { info: info("eos") }), EventClass::Fault);
    assert_eq!(
        classify_event(&EngineEvent::Warning { info: info("w") }),
        EventClass::Informational
    );
    assert_eq!(classify_event(&EngineEvent::Info { info: info("i") }), EventClass::Informational);
    assert_eq!(
        classify_event(&EngineEvent::StateChanged { info: info("sc") }),
        EventClass::Informational
    );
    assert_eq!(
        classify_event(&EngineEvent::StreamStart { info: info("ss") }),
        EventClass::Informational
    );
}

#[test]
fn informational_events_change_nothing() {
    let mut s = streaming_supervisor(fixed_config(10));
    let events = vec![
        EngineEvent::Warning { info: info("w") },
        EngineEvent::Info { info: info("i") },
        EngineEvent::StateChanged { info: info("playing") },
        EngineEvent::StreamStart { info: info("go") },
    ];
    for ev in events {
        assert_eq!(s.dispatch_event(ev), DispatchOutcome::Informational);
        assert_eq!(s.state, ConnectionState::Streaming);
        assert_eq!(s.retry_count, 0);
        assert!(!s.reconnect_in_progress);
    }
}

#[test]
fn error_then_eos_schedules_exactly_one_reconnect() {
    let mut s = streaming_supervisor(fixed_config(10));
    let error = EngineEvent::Error { info: info("mid-stream drop"), kind: ErrorKind::StreamError };
    let eos = EngineEvent::EndOfStream { info: info("teardown") };
    let first = s.dispatch_event(error);
    let second = s.dispatch_event(eos);
    assert_eq!(first, DispatchOutcome::ReconnectScheduled);
    assert_eq!(second, DispatchOutcome::DuplicateSuppressed);
    assert_eq!(s.state, ConnectionState::Reconnecting);
    assert!(s.reconnect_in_progress);
    assert!(!s.engine.is_started());
    let record = s.last_error.as_ref().unwrap();
    assert_eq!(record.kind, ErrorKind::StreamError);
    assert_eq!(record.message, "mid-stream drop");
}

#[test]
fn fault_storm_spawns_one_scheduler() {
    let mut s = streaming_supervisor(fixed_config(10));
    let mut scheduled = 0;
    for k in 0..5 {
        let ev = EngineEvent::Error {
            info: info(&format!("drop {k}")),
            kind: ErrorKind::StreamError,
        };
        if s.dispatch_event(ev) == DispatchOutcome::ReconnectScheduled {
            scheduled += 1;
        }
    }
    assert_eq!(scheduled, 1);
    assert_eq!(s.state, ConnectionState::Reconnecting);
}

#[test]
fn eos_is_recorded_as_stream_error() {
    let mut s = streaming_supervisor(fixed_config(10));
    s.dispatch_event(EngineEvent::EndOfStream { info: info("source finished") });
    let record = s.last_error.as_ref().unwrap();
    assert_eq!(record.kind, ErrorKind::StreamError);
    assert_eq!(record.message, "source finished");
}

#[test]
fn connection_and_sink_errors_are_recorded() {
    let mut s = streaming_supervisor(fixed_config(10));
    s.dispatch_event(EngineEvent::Error { info: info("refused"), kind: ErrorKind::ConnectionError });
    assert_eq!(s.last_error.as_ref().unwrap().kind, ErrorKind::ConnectionError);

    let mut t = streaming_supervisor(fixed_config(10));
    t.dispatch_event(EngineEvent::Error { info: info("peer gone"), kind: ErrorKind::SinkError });
    assert_eq!(t.last_error.as_ref().unwrap().kind, ErrorKind::SinkError);
}

#[test]
fn failures_then_success_reaches_streaming() {
    let mut s = streaming_supervisor(fixed_config(10));
    s.on_fault(ErrorRecord { kind: ErrorKind::StreamError, message: "drop".to_string() });
    for _ in 0..3 {
        assert_eq!(s.on_retry_failure(), RetryDecision::RetryAgain);
        assert_eq!(s.state, ConnectionState::Reconnecting);
    }
    assert_eq!(s.retry_count, 3);
    s.on_retry_success();
    assert_eq!(s.state, ConnectionState::Streaming);
    assert_eq!(s.retry_count, 0);
    assert!(!s.reconnect_in_progress);
    assert!(s.engine.is_started());
}

#[test]
fn finite_retries_reach_terminated() {
    let mut s = streaming_supervisor(fixed_config(2));
    s.on_fault(ErrorRecord { kind: ErrorKind::ConnectionError, message: "down".to_string() });
    assert_eq!(s.on_retry_failure(), RetryDecision::RetryAgain);
    assert_eq!(s.on_retry_failure(), RetryDecision::GiveUp);
    assert_eq!(s.state, ConnectionState::Terminated);
    assert_eq!(s.retry_count, 2);
    assert!(!s.reconnect_in_progress);
    assert!(s.should_exit());
    assert_eq!(s.process_outcome(), Err(ErrorKind::FatalError));
    assert_eq!(s.last_error.as_ref().unwrap().kind, ErrorKind::ConnectionError);
}

#[test]
fn unbounded_policy_never_terminates() {
    let mut s = streaming_supervisor(unbounded_config());
    s.on_fault(ErrorRecord { kind: ErrorKind::StreamError, message: "drop".to_string() });
    for _ in 0..100 {
        assert_eq!(s.on_retry_failure(), RetryDecision::RetryAgain);
        assert_eq!(s.state, ConnectionState::Reconnecting);
        assert!(!s.should_exit());
    }
    assert_eq!(s.retry_count, 100);
}

#[test]
fn next_attempt_delay_follows_the_policy() {
    let config = SupervisorConfig {
        policy: BackoffPolicy::Exponential { base_secs: 5, multiplier: 2, cap_secs: 30 },
        limit: RetryLimit::Unbounded,
    };
    let mut s = streaming_supervisor(config);
    s.on_fault(ErrorRecord { kind: ErrorKind::StreamError, message: "drop".to_string() });
    let mut seen = Vec::new();
    for _ in 0..6 {
        seen.push(s.next_attempt_delay());
        s.on_retry_failure();
    }
    assert_eq!(seen, vec![5, 10, 20, 30, 30, 30]);
}

#[test]
fn engine_stop_is_idempotent() {
    let mut e = EngineHandle::new();
    assert!(!e.is_started());
    e.stop();
    assert!(!e.is_started());
    e.start();
    assert!(e.is_started());
    e.stop();
    e.stop();
    assert!(!e.is_started());
}

#[test]
fn stopping_a_stopped_engine_leaves_supervisor_state() {
    let mut s = streaming_supervisor(fixed_config(10));
    s.on_fault(ErrorRecord { kind: ErrorKind::StreamError, message: "drop".to_string() });
    assert!(!s.engine.is_started());
    s.engine.stop();
    assert!(!s.engine.is_started());
    assert_eq!(s.state, ConnectionState::Reconnecting);
    assert_eq!(s.retry_count, 0);
}

#[test]
fn stale_retry_callbacks_change_nothing() {
    let mut s = streaming_supervisor(fixed_config(10));
    assert_eq!(s.on_retry_failure(), RetryDecision::Stale);
    assert_eq!(s.state, ConnectionState::Streaming);
    s.on_retry_success();
    assert_eq!(s.state, ConnectionState::Streaming);
    assert_eq!(s.retry_count, 0);
}

#[test]
fn cancelled_reconnect_parks_in_faulted_and_can_restart() {
    let mut s = streaming_supervisor(fixed_config(10));
    s.on_fault(ErrorRecord { kind: ErrorKind::StreamError, message: "drop".to_string() });
    s.cancel_reconnect();
    assert_eq!(s.state, ConnectionState::Faulted);
    assert!(!s.reconnect_in_progress);
    assert!(!s.engine.is_started());
    s.begin_connect();
    assert_eq!(s.state, ConnectionState::Connecting);
    assert!(s.engine.is_started());
}
