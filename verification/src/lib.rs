//! Event-propagation core of a host telemetry service.
//!
//! Resource providers (*sources*) publish change hints on a shared event
//! queue; a single dispatcher drains the queue, takes a snapshot of each
//! source that was named, converts it to its wire payload, retains it in the
//! latest-value cache and fans it out to the subscribers of that source.
//! Every component is a plain value with sequential transitions: tasks,
//! locks and sockets belong to the program that drives them.

pub mod caches;
pub mod config;
pub mod public;
pub mod server;
pub mod text;
