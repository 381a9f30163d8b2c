//! Batch processing of telemetry messages with per-message failure isolation.
//!
//! A batch of queue messages is decoded one message at a time, every decoded
//! record is handed to a [`sink::Sink`] exactly once, and the caller gets back
//! one [`outcome::ItemOutcome`] per message, so that only the messages that
//! failed need to be delivered again. The processor keeps the history of its
//! calls of the sink as ghost state ([`sink::Recorded`]), and its contracts
//! say what that history holds.

pub mod error;
pub mod message;
pub mod parser;
pub mod outcome;
pub mod sink;
pub mod processor;
pub mod guarantees;
pub mod lifecycle;
