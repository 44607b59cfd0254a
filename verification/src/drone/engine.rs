//! What the executor learns from the container engine.
//!
//! The engine itself (load, status, stop, and a stream of the backends whose
//! container changed by itself) is driven by the caller; the executor asks
//! for one of these through a [`crate::drone::executor::StepCall`] and is
//! told the outcome.

use vstd::prelude::*;

verus! {

/// An IP address, as plain numbers.
#[derive(Clone, Copy, Debug, PartialEq, Eq, Structural)]
pub enum IpAddress {
    /// The four octets of an IPv4 address, first to last.
    V4(u8, u8, u8, u8),
    /// The 128 bits of an IPv6 address, first segment highest.
    V6(u128),
}

/// The address on which a backend answers.
#[derive(Clone, Copy, Debug, PartialEq, Eq, Structural)]
pub struct SocketAddress {
    pub ip: IpAddress,
    pub port: u16,
}

/// The condition of a backend's container, as the engine reports it.
#[derive(Clone, Copy, Debug, PartialEq, Eq, Structural)]
pub enum EngineBackendStatus {
    Loading,
    Starting,
    /// The container runs and is reached at `addr`.
    Running { addr: SocketAddress },
    Failed,
    Exited,
    Terminated,
}

} // verus!
