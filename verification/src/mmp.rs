//! Metrics measurement protocol bookkeeping: the per-link sender and receiver
//! interval state, burst-loss tracking and report pacing.

pub mod gap;
pub mod intake;
pub mod peer;
pub mod receiver;
pub mod report;
pub mod sender;
pub mod stats;
