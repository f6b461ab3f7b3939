//! The outbound connector's address choice: the reference TCP connector
//! resolves the endpoint and connects to the first returned address.

use crate::endpoint::SocketAddress;
use vstd::prelude::*;

verus! {

/// The address a TCP connector dials: the first resolved address, or none
/// when resolution returned no addresses.
pub fn first_address(addrs: &Vec<SocketAddress>) -> (r: Option<SocketAddress>)
    ensures
        r is None <==> addrs@.len() == 0,
        r matches Some(a) ==> addrs@.len() > 0 && a == addrs@[0],
{
    if addrs.len() == 0 {
        None
    } else {
        Some(addrs[0])
    }
}

} // verus!
