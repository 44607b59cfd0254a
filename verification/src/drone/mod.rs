//! The drone: the agent that runs backends on one machine.

pub mod docker;
pub mod engine;
pub mod executor;
pub mod lifecycle;
