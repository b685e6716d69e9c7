//! Connection supervision for a long-running media relay.
//!
//! The library owns the part of a relay that is worth getting right: the
//! state machine that detects transport faults, suppresses duplicate fault
//! handling, schedules reconnection with a configurable backoff policy, and
//! decides when a connection is beyond recovery. The transport engine itself
//! (codecs, muxing, network framing) is an external collaborator: callers
//! translate its lifecycle events into [`state::EngineEvent`] values, feed
//! them to [`supervisor::Supervisor::dispatch_event`], and perform the engine
//! commands that the supervisor's transitions call for.

pub mod backoff;
pub mod laws;
pub mod state;
pub mod supervisor;
