//! Verified core of a TCP connect-latency measurement tool.
//!
//! The library holds the logic worth proving: alignment helpers for the
//! per-attempt output, the probe state machine that numbers attempts and
//! classifies their results, target normalization, and the aggregator that
//! turns a run's outcomes into per-target statistics. Network I/O, argument
//! parsing and display live outside the library and exchange plain values
//! with it.

pub mod outcome;
pub mod padding;
pub mod prober;
pub mod stats;
pub mod target;

pub use outcome::AttemptEvent;
pub use outcome::Outcome;
pub use outcome::ProbeResult;
pub use outcome::outcome_for;
pub use prober::Prober;
pub use stats::RunStatistics;
pub use stats::aggregate;
pub use stats::stats_for_host;
pub use target::ConfigError;
pub use target::expected_event_count;
pub use target::normalize_target;
pub use target::plan_targets;
pub use padding::digit_count;
pub use padding::gen_filler;
pub use padding::gen_spacer;
