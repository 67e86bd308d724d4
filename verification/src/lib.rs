//! A verified model of a small traced HTTP service: a single dice-roll
//! endpoint together with the telemetry pipeline that records a span tree
//! for every request, filters events by severity, and batches finished
//! spans for export to a remote collector.

pub mod batch;
pub mod endpoint;
pub mod handler;
pub mod http;
pub mod level;
pub mod pipeline;
pub mod resource;
pub mod span;
