//! Endpoint resolution: an already-resolved endpoint is ready as it is; a
//! hostname endpoint needs one DNS lookup, whose addresses are then paired
//! with the endpoint's port.
//!
//! The DNS lookup itself is asynchronous I/O and lives in the unverified
//! glue; this module decides what to look up and combines the result.

use crate::endpoint::{Endpoint, IpAddress, SocketAddress};
use vstd::prelude::*;

verus! {

/// How an endpoint resolves: either the addresses are already known, or a
/// hostname must be looked up and its addresses paired with the port.
pub enum ResolutionPlan {
    Ready(Vec<SocketAddress>),
    Lookup(String, u16),
}

/// Decide how to resolve an endpoint: an `Ip` endpoint is ready as the one
/// address it holds; a `HostName` endpoint needs a lookup of its name.
pub fn resolve_endpoint_plan(endpoint: &Endpoint) -> (r: ResolutionPlan)
    ensures
        *endpoint matches Endpoint::Ip(sa) ==> (r matches ResolutionPlan::Ready(v) && v@ == seq![
            sa,
        ]),
        *endpoint matches Endpoint::HostName(h, p) ==> (r matches ResolutionPlan::Lookup(h2, p2)
            && h2@ == h@ && p2 == p),
{
    match endpoint {
        Endpoint::Ip(sa) => {
            let mut v: Vec<SocketAddress> = Vec::new();
            v.push(*sa);
            proof {
                assert(v@ =~= seq![*sa]);
            }
            ResolutionPlan::Ready(v)
        },
        Endpoint::HostName(h, p) => ResolutionPlan::Lookup(h.clone(), *p),
    }
}

/// Pair every looked-up address with the endpoint's port, keeping order.
pub fn pair_with_port(ips: &Vec<IpAddress>, port: u16) -> (r: Vec<SocketAddress>)
    ensures
        r@.len() == ips@.len(),
        forall|i: int| 0 <= i < ips@.len() ==> #[trigger] r@[i] == (SocketAddress {
            ip: ips@[i],
            port,
        }),
{
    let mut out: Vec<SocketAddress> = Vec::new();
    let mut i: usize = 0;
    while i < ips.len()
        invariant
            i <= ips@.len(),
            out@.len() == i,
            forall|j: int| 0 <= j < i ==> #[trigger] out@[j] == (SocketAddress {
                ip: ips@[j],
                port,
            }),
        decreases ips@.len() - i,
    {
        out.push(SocketAddress { ip: ips[i], port });
        i += 1;
    }
    out
}

} // verus!
