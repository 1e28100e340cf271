//! Sampling of GPU performance-state residency counters: the classification of
//! states, the aggregation of residencies, the bookkeeping around a telemetry
//! subscription, and the course of one measurement.

pub mod classifier;
pub mod delta;
pub mod duration;
pub mod ioreport;
pub mod measurement;
pub mod text;

pub use duration::{parse_duration, ParseDurationError};
