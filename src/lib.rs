//! Policy-violation monitoring for CI runners: aggregation of violation
//! signals, the polling decisions, CI provider detection and the pipeline
//! cancellation fallback chain.

pub mod cancel;
pub mod github;
pub mod polling;
pub mod report;
