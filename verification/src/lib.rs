//! Render-loop orchestration for a windowed GPU application.
//!
//! The crate holds the decisions of the loop and none of its effects: which
//! configuration the output surface gets, when a frame is produced, how a
//! failed frame acquisition is recovered from, and in which order recorded
//! command buffers reach the queue. A driver feeds it platform events and
//! acquisition outcomes and carries out the actions it answers with.

pub mod capabilities;
pub mod commands;
pub mod event;
pub mod laws;
pub mod orchestrator;
pub mod platform;
pub mod surface;
