//! The configuration of the controller and its defaults.

use crate::drone::engine::IpAddress;
use vstd::prelude::*;

verus! {

/// Options of the scheduler. There are none yet.
#[derive(Clone, Copy, Debug, PartialEq, Eq, Structural)]
pub struct SchedulerOptions {}

/// Options of the DNS server.
#[derive(Debug)]
pub struct DnsOptions {
    /// The port to listen on; [`default_port`] where none is configured.
    pub port: u16,
    /// The address to bind to; [`default_bind_ip`] where none is configured.
    pub bind_ip: IpAddress,
    /// The address to give as the responsible person in the SOA record, in
    /// the usual form `user@domain.tld`.
    pub soa_email: Option<String>,
}

/// How to reach the message bus.
#[derive(Debug)]
pub struct NatsConnectionSpec {
    /// The URL of the bus endpoint.
    pub url: String,
}

/// The configuration of a controller.
#[derive(Debug)]
pub struct ControllerConfig {
    pub nats: NatsConnectionSpec,
    /// Present where this controller runs a scheduler.
    pub scheduler: Option<SchedulerOptions>,
    /// Present where this controller runs a DNS server.
    pub dns: Option<DnsOptions>,
}

/// The port on which the DNS server listens unless the configuration names
/// another: the port of DNS.
pub open spec fn spec_default_port() -> u16 {
    53
}

#[verifier::when_used_as_spec(spec_default_port)]
pub fn default_port() -> (port: u16)
    ensures
        port == spec_default_port(),
{
    53
}

/// The address to which the DNS server binds unless the configuration names
/// another: every address of the machine.
pub open spec fn spec_default_bind_ip() -> IpAddress {
    IpAddress::V4(0, 0, 0, 0)
}

#[verifier::when_used_as_spec(spec_default_bind_ip)]
pub fn default_bind_ip() -> (ip: IpAddress)
    ensures
        ip == spec_default_bind_ip(),
{
    IpAddress::V4(0, 0, 0, 0)
}

impl DnsOptions {
    /// The options of a DNS server for which nothing is configured but,
    /// perhaps, the address for the SOA record.
    pub fn with_defaults(soa_email: Option<String>) -> (options: Self)
        ensures
            options.port == spec_default_port(),
            options.bind_ip == spec_default_bind_ip(),
            options.soa_email == soa_email,
    {
        DnsOptions { port: default_port(), bind_ip: default_bind_ip(), soa_email }
    }
}

} // verus!
