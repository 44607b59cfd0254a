//! Scheduling and backend lifecycle engine for ephemeral container backends.
//!
//! The controller side keeps a liveness index of drones and answers schedule
//! requests; the drone side drives each backend through its lifecycle. Every
//! decision is a verified function from plain values to plain values; the
//! message bus, the container engine and the clock stay with the caller.

pub mod cli;
pub mod collections;
pub mod concurrent;
pub mod controller;
pub mod dev;
pub mod drone;
pub mod messages;
pub mod random;
pub mod subjects;
pub mod text;
pub mod time;
pub mod types;
