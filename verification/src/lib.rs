//! Passive DNS quality-of-service measurement.
//!
//! Captured Ethernet frames are decoded down to DNS messages, answers are
//! correlated with the queries that preceded them, and every step leaves
//! observations (query counts, question types, latencies, timeouts) for an
//! exporter to publish.

pub mod dns;
pub mod packet;
pub mod tracking;
pub mod metrics;
pub mod processing;
