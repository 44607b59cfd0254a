//! The controller: configuration, the liveness index and the scheduler.

pub mod config;
pub mod liveness;
pub mod scheduler;
