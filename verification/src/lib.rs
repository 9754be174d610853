//! A small in-process message-dispatch pipeline for an MQTT test harness.
//!
//! The pipeline decouples receiving a publication from deciding what to do
//! with it: a single-consumer dispatch loop multiplexes an unbounded inbound
//! queue against a bounded shutdown signal and hands each publication to one
//! configured handler, which either reports a test result or relays the
//! payload downstream. This crate holds the verified core: the data model,
//! the handler variants, and the dispatch-loop state machine with its
//! fixed-priority select protocol.

pub mod channel;
pub mod error;
pub mod handler;
pub mod message;
