//! Windowed statistics aggregation for a live network-traffic dashboard.
//!
//! The aggregator keeps cumulative packet counters and two bounded,
//! time-ordered windows of samples; the dashboard module holds the
//! decision logic of the interactive render loop and of the packet loop.

pub mod clock;
pub mod dashboard;
pub mod stats;
