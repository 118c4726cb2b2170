//! Measurement engine for the end-to-end latency of a publish/subscribe
//! exchange: the pacing of the publisher, the collection of one latency
//! sample per message, the probe for route readiness and the statistics of a
//! completed run. Times are whole nanoseconds throughout. Connections, clocks
//! and pauses are the caller's; every function here goes from plain values to
//! plain values.

pub mod codec;
pub mod collector;
pub mod config;
pub mod driver;
pub mod error;
pub mod format;
pub mod histogram;
pub mod probe;
pub mod rate;
pub mod report;
pub mod stats;
