//! Supervision core for a media-processing pipeline.
//!
//! An external engine runs the pipeline and emits lifecycle and health
//! events on a bus. This crate holds the decision logic of the supervisor
//! that watches those events: the event classifier, the recovery policy,
//! and the supervisor loop's state tracking. All I/O against the engine
//! (requesting transitions, pulling bus events, probing stages) is done by
//! the surrounding program, which feeds plain event values in and carries
//! the decided actions out.

pub mod config;
pub mod events;
pub mod policy;
pub mod supervisor;
