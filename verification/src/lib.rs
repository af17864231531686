//! Reachability monitoring core: hysteresis-based per-family probe
//! classification, an edge-triggered aggregator over the two address
//! families with outage-duration accounting, duration formatting, and
//! the decision logic behind configuration validation.

pub mod aggregator;
pub mod config;
pub mod prober;
pub mod timefmt;
