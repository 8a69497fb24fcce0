//! Supervision of an audio engine that runs one capture, processing and
//! playback pipeline per device group.
//!
//! The library holds what the engine decides: when the pipelines of a session
//! may start, how it answers each message of the device threads and of the
//! controller, what becomes of the active configuration when a session ends,
//! and when the whole engine goes on waiting or quits.

pub mod channels;
pub mod config;
pub mod engine;
pub mod engine_pipeline;
pub mod guarantees;
pub mod laws;
pub mod messages;
pub mod session;
pub mod shared;
