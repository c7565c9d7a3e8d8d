//! An in-process, bounded, ordered, multi-consumer event stream for a
//! validator plugin: events are encoded, appended to a retention channel and
//! read by independent cursors; a small state machine drives start-up and
//! shutdown of the services around it.

pub mod channel;
pub mod config;
pub mod guarantees;
pub mod plugin;
pub mod protobuf;
