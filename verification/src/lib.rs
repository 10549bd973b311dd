//! A tee for standard streams: bytes written to a stream are captured in a
//! backing store and relayed, in order, to the destination that the stream had before.
//!
//! This crate holds the decisions of the tee as state machines over plain
//! values. The caller performs each action (a positional read, a write to the
//! destination, a pause) and hands back what happened as an event.

pub mod agreement;
pub mod capture;
pub mod config;
pub mod error;
pub mod relay;
pub mod setup;
pub mod store;
pub mod teardown;
