//! Connection states, error records, and engine lifecycle events.

use vstd::prelude::*;

verus! {

/// The mutually exclusive phases of one supervised connection.
#[derive(Clone, Copy, PartialEq, Eq, Structural, Debug)]
pub enum ConnectionState {
    /// Created, nothing commanded yet.
    Idle,
    /// The initial start command has been issued and not yet confirmed.
    Connecting,
    /// Media is flowing; the engine is started.
    Streaming,
    /// A fault was detected and recovery was abandoned (for example because
    /// shutdown was requested while a reconnect was pending).
    Faulted,
    /// A fault was detected and a reconnect attempt is pending or running.
    Reconnecting,
    /// The retry budget is exhausted; the connection is beyond recovery.
    Terminated,
}

/// How a failure is classified for diagnostics.
#[derive(Clone, Copy, PartialEq, Eq, Structural, Debug)]
pub enum ErrorKind {
    /// The source endpoint is unreachable or refused the connection.
    ConnectionError,
    /// The stream was disrupted after the connection was established.
    StreamError,
    /// The sink endpoint rejected or dropped the connection.
    SinkError,
    /// The finite retry budget was exhausted; surfaced to the driver loop.
    FatalError,
}

/// Diagnostic record of a fault: its kind and a human-readable message.
#[derive(Debug)]
pub struct ErrorRecord {
    pub kind: ErrorKind,
    pub message: String,
}

/// Identification and diagnostic payload that every engine event carries.
#[derive(Debug)]
pub struct EventInfo {
    /// Which engine element reported the event.
    pub source: String,
    /// Human-readable detail supplied by the engine.
    pub detail: String,
}

/// Lifecycle events reported by the transport engine adapter, in delivery
/// order. Only `Error` and `EndOfStream` drive state transitions; the rest
/// are informational.
#[derive(Debug)]
pub enum EngineEvent {
    Error { info: EventInfo, kind: ErrorKind },
    EndOfStream { info: EventInfo },
    Warning { info: EventInfo },
    Info { info: EventInfo },
    StateChanged { info: EventInfo },
    StreamStart { info: EventInfo },
}

/// What the event dispatcher does with an event.
#[derive(Clone, Copy, PartialEq, Eq, Structural, Debug)]
pub enum EventClass {
    /// The event signals a failure and invokes the fault transition.
    Fault,
    /// The event is logged only and produces no transition.
    Informational,
}

/// Classification rule: errors and end-of-stream are faults, everything
/// else is informational.
pub open spec fn spec_classify(ev: EngineEvent) -> EventClass {
    match ev {
        EngineEvent::Error { .. } => EventClass::Fault,
        EngineEvent::EndOfStream { .. } => EventClass::Fault,
        EngineEvent::Warning { .. } => EventClass::Informational,
        EngineEvent::Info { .. } => EventClass::Informational,
        EngineEvent::StateChanged { .. } => EventClass::Informational,
        EngineEvent::StreamStart { .. } => EventClass::Informational,
    }
}

/// The diagnostic record a fault event leaves behind. End-of-stream is not
/// an engine error, but it takes the same recovery path and is recorded as a
/// mid-stream disruption.
pub open spec fn spec_fault_record(ev: EngineEvent) -> ErrorRecord
    recommends
        spec_classify(ev) == EventClass::Fault,
{
    match ev {
        EngineEvent::Error { info, kind } => ErrorRecord { kind, message: info.detail },
        EngineEvent::EndOfStream { info } => ErrorRecord {
            kind: ErrorKind::StreamError,
            message: info.detail,
        },
        _ => arbitrary(),
    }
}

/// Classify one engine event.
pub fn classify_event(ev: &EngineEvent) -> (c: EventClass)
    ensures
        c == spec_classify(*ev),
{
    match ev {
        EngineEvent::Error { .. } => EventClass::Fault,
        EngineEvent::EndOfStream { .. } => EventClass::Fault,
        EngineEvent::Warning { .. } => EventClass::Informational,
        EngineEvent::Info { .. } => EventClass::Informational,
        EngineEvent::StateChanged { .. } => EventClass::Informational,
        EngineEvent::StreamStart { .. } => EventClass::Informational,
    }
}

} // verus!
