//! The endpoint data model: a target address, either an already-resolved
//! transport address or a hostname with a port whose resolution is deferred.

use vstd::prelude::*;

verus! {

/// An IP address, kept as the raw address bytes in network order.
#[derive(Clone, Copy, Debug)]
pub enum IpAddress {
    V4([u8; 4]),
    V6([u8; 16]),
}

/// A resolved transport address: an IP address plus a port.
#[derive(Clone, Copy, Debug)]
pub struct SocketAddress {
    pub ip: IpAddress,
    pub port: u16,
}

/// A tagged target address with exactly two variants: an already-resolved
/// transport address, or a DNS name plus a 16-bit port.
///
/// Endpoints are immutable values; they are cloned freely and never carry
/// ownership of any I/O resource.
#[derive(Clone, Debug)]
pub enum Endpoint {
    Ip(SocketAddress),
    HostName(String, u16),
}

impl Endpoint {
    /// The port this endpoint targets.
    pub open spec fn spec_port(&self) -> u16 {
        match *self {
            Endpoint::Ip(sa) => sa.port,
            Endpoint::HostName(_, p) => p,
        }
    }

    /// A well-formed endpoint has a non-zero port, and a hostname variant
    /// carries a non-empty name.
    pub open spec fn well_formed(&self) -> bool {
        &&& self.spec_port() >= 1
        &&& (match *self {
            Endpoint::Ip(_) => true,
            Endpoint::HostName(h, _) => h@.len() > 0,
        })
    }

    /// Build an endpoint from an already-resolved address.
    pub fn new_from_addr(addr: SocketAddress) -> (r: Endpoint)
        ensures
            r == Endpoint::Ip(addr),
    {
        Endpoint::Ip(addr)
    }

    /// Build an endpoint from a hostname and a port; resolution is deferred.
    pub fn new_from_hostname(hostname: &str, port: u16) -> (r: Endpoint)
        ensures
            r matches Endpoint::HostName(h, p) && h@ == hostname@ && p == port,
    {
        Endpoint::HostName(hostname.to_owned(), port)
    }

    /// The port this endpoint targets.
    pub fn port(&self) -> (r: u16)
        ensures
            r == self.spec_port(),
    {
        match self {
            Endpoint::Ip(sa) => sa.port,
            Endpoint::HostName(_, p) => *p,
        }
    }
}

/// Law: reading a mid-handshake's target endpoint is idempotent. Every
/// `target_endpoint` contract pins its result to the stored target, so any
/// two reads made before finalize return the same value.
pub proof fn lemma_target_endpoint_idempotent(first: Endpoint, second: Endpoint, target: Endpoint)
    requires
        first == target,
        second == target,
    ensures
        first == second,
{
}

} // verus!
