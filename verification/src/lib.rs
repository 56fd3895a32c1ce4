//! Client-side consumption engine for Redis streams.
//!
//! A stream is an append-only, server-managed ordered log. This crate
//! provides the decision logic of a stream consumer: how the starting
//! cursor is resolved from configuration, how a read-dispatch step
//! advances the cursor and switches from draining pending entries to
//! live delivery, and when a handled message must be acknowledged.
//! The remote commands themselves (reads, acknowledgments, group
//! creation) are issued by a thin unverified shell around this crate.

pub mod consumer;
pub mod cursor;
pub mod types;
