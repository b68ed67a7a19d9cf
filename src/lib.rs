//! A single-instance supervisor for a long-running background server process.
//!
//! The library decides; the host application performs. Each control
//! operation is a small state machine over the supervisor's slot: the host
//! carries out the action it is handed (resolve a directory, spawn, kill) and
//! reports the result back as an event.

pub mod outcome;
pub mod environment;
pub mod listener;
pub mod supervisor;
pub mod laws;
