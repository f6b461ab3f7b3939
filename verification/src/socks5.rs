//! SOCKS5 (RFC 1928) handshake decoding: method negotiation with "no auth"
//! only and the CONNECT command only.
//!
//! The decoders are pure functions over the bytes received so far. A caller
//! reads from the inbound socket into a growing buffer and re-runs the
//! decoder until the outcome is no longer `Incomplete`; the outcome then says
//! how many bytes the handshake consumed, so any surplus belongs to the
//! spliced tunnel.

use crate::endpoint::{Endpoint, IpAddress, SocketAddress};
use vstd::prelude::*;
use vstd::utf8::{decode_utf8, valid_utf8};

verus! {

/// The protocol failures a SOCKS5 handshake can end in. Any of them drops
/// the connection without a SOCKS5 error reply.
#[derive(Clone, Copy, Debug, PartialEq, Eq)]
pub enum Socks5Error {
    UnsupportedVersion,
    InvalidMethodCount,
    UnsupportedAuthMethod,
    UnsupportedCommand,
    UnsupportedAddressType,
}

/// Result of decoding the client greeting (`VER NMETHODS METHODS...`).
#[derive(Debug)]
pub enum GreetingOutcome {
    /// More bytes are needed: the greeting is at least this many bytes long.
    Incomplete(usize),
    /// The greeting is valid and offers the "no auth" method; it occupies
    /// this many bytes. The server replies with [`method_reply`].
    Accepted(usize),
    /// The greeting is invalid; the connection is dropped.
    Rejected(Socks5Error),
}

/// Result of decoding the connect request (`VER CMD RSV ATYP ADDR PORT`).
#[derive(Debug)]
pub enum RequestOutcome {
    /// More bytes are needed: the request is at least this many bytes long.
    Incomplete(usize),
    /// The request is valid: the decoded target endpoint, and the number of
    /// bytes the request occupies. The server replies with
    /// [`success_reply`] and splices.
    Accepted(Endpoint, usize),
    /// The request is invalid; the connection is dropped.
    Rejected(Socks5Error),
    /// The domain-name address bytes are not valid UTF-8.
    DomainNotUtf8,
}

/// Whether the greeting offers the "no auth" method byte `0x00` among its
/// `b[1]` method bytes.
pub open spec fn greeting_offers_noauth(b: Seq<u8>) -> bool {
    exists|i: int| 2 <= i < 2 + b[1] && b[i] == 0
}

/// The port carried at offset `p`: two bytes, big-endian.
pub open spec fn port_be_at(b: Seq<u8>, p: int) -> int {
    b[p] * 256 + b[p + 1]
}

/// Decode the client greeting from the bytes received so far.
///
/// Every accepted or rejected outcome is pinned to the wire bytes: version
/// byte 5, a non-zero method count, and the no-auth method present among the
/// offered methods.
#[verifier::loop_isolation(false)]
pub fn decode_greeting(input: &Vec<u8>) -> (r: GreetingOutcome)
    ensures
        input@.len() < 2 ==> (r matches GreetingOutcome::Incomplete(n) && n == 2),
        input@.len() >= 2 && input@[0] != 5 ==> r == GreetingOutcome::Rejected(
            Socks5Error::UnsupportedVersion,
        ),
        input@.len() >= 2 && input@[0] == 5 && input@[1] == 0 ==> r
            == GreetingOutcome::Rejected(Socks5Error::InvalidMethodCount),
        input@.len() >= 2 && input@[0] == 5 && input@[1] != 0 && input@.len() < 2 + input@[1]
            ==> (r matches GreetingOutcome::Incomplete(n) && n == 2 + input@[1]),
        input@.len() >= 2 && input@[0] == 5 && input@[1] != 0 && input@.len() >= 2 + input@[1]
            && greeting_offers_noauth(input@) ==> (r matches GreetingOutcome::Accepted(c) && c
            == 2 + input@[1]),
        input@.len() >= 2 && input@[0] == 5 && input@[1] != 0 && input@.len() >= 2 + input@[1]
            && !greeting_offers_noauth(input@) ==> r == GreetingOutcome::Rejected(
            Socks5Error::UnsupportedAuthMethod,
        ),
{
    if input.len() < 2 {
        return GreetingOutcome::Incomplete(2);
    }
    if input[0] != 5 {
        return GreetingOutcome::Rejected(Socks5Error::UnsupportedVersion);
    }
    let nmethods = input[1];
    if nmethods == 0 {
        return GreetingOutcome::Rejected(Socks5Error::InvalidMethodCount);
    }
    let total: usize = 2 + nmethods as usize;
    if input.len() < total {
        return GreetingOutcome::Incomplete(total);
    }
    let mut i: usize = 2;
    while i < total
        invariant
            2 <= i <= total,
            total == 2 + input@[1],
            input@.len() >= total,
            forall|j: int| 2 <= j < i ==> input@[j] != 0,
        decreases total - i,
    {
        if input[i] == 0 {
            proof {
                assert(2 <= i < 2 + input@[1] && input@[i as int] == 0);
            }
            return GreetingOutcome::Accepted(total);
        }
        i += 1;
    }
    GreetingOutcome::Rejected(Socks5Error::UnsupportedAuthMethod)
}

/// The method-selection reply: protocol version 5, method "no auth".
pub fn method_reply() -> (r: Vec<u8>)
    ensures
        r@ == seq![5u8, 0u8],
{
    let mut v: Vec<u8> = Vec::new();
    v.push(5);
    v.push(0);
    proof {
        assert(v@ =~= seq![5u8, 0u8]);
    }
    v
}

/// Decode the connect request from the bytes received after the greeting.
///
/// The decoded endpoint is pinned to the wire bytes: the port equals the two
/// port bytes big-endian, and the host equals the on-wire address bytes (IP
/// variants) or their UTF-8 decoding (domain variant).
#[verifier::loop_isolation(false)]
pub fn decode_request(input: &Vec<u8>) -> (r: RequestOutcome)
    ensures
        input@.len() < 4 ==> (r matches RequestOutcome::Incomplete(n) && n == 4),
        input@.len() >= 4 && input@[0] != 5 ==> r == RequestOutcome::Rejected(
            Socks5Error::UnsupportedVersion,
        ),
        input@.len() >= 4 && input@[0] == 5 && input@[1] != 1 ==> r == RequestOutcome::Rejected(
            Socks5Error::UnsupportedCommand,
        ),
        input@.len() >= 4 && input@[0] == 5 && input@[1] == 1 && input@[3] == 1 && input@.len()
            < 10 ==> (r matches RequestOutcome::Incomplete(n) && n == 10),
        input@.len() >= 10 && input@[0] == 5 && input@[1] == 1 && input@[3] == 1 ==> ({
            &&& r matches RequestOutcome::Accepted(ep, c)
            &&& c == 10
            &&& ep matches Endpoint::Ip(sa)
            &&& sa.ip matches IpAddress::V4(a)
            &&& a@ == input@.subrange(4, 8)
            &&& sa.port == port_be_at(input@, 8)
        }),
        input@.len() >= 4 && input@[0] == 5 && input@[1] == 1 && input@[3] == 4 && input@.len()
            < 22 ==> (r matches RequestOutcome::Incomplete(n) && n == 22),
        input@.len() >= 22 && input@[0] == 5 && input@[1] == 1 && input@[3] == 4 ==> ({
            &&& r matches RequestOutcome::Accepted(ep, c)
            &&& c == 22
            &&& ep matches Endpoint::Ip(sa)
            &&& sa.ip matches IpAddress::V6(a)
            &&& a@ == input@.subrange(4, 20)
            &&& sa.port == port_be_at(input@, 20)
        }),
        input@.len() >= 4 && input@[0] == 5 && input@[1] == 1 && input@[3] == 3 && input@.len()
            < 5 ==> (r matches RequestOutcome::Incomplete(n) && n == 5),
        input@.len() >= 5 && input@[0] == 5 && input@[1] == 1 && input@[3] == 3 && input@.len()
            < 7 + input@[4] ==> (r matches RequestOutcome::Incomplete(n) && n == 7
            + input@[4]),
        input@.len() >= 5 && input@[0] == 5 && input@[1] == 1 && input@[3] == 3 && input@.len()
            >= 7 + input@[4] && valid_utf8(input@.subrange(5, 5 + input@[4])) ==> ({
            &&& r matches RequestOutcome::Accepted(ep, c)
            &&& c == 7 + input@[4]
            &&& ep matches Endpoint::HostName(h, p)
            &&& h@ == decode_utf8(input@.subrange(5, 5 + input@[4]))
            &&& p == port_be_at(input@, 5 + input@[4])
        }),
        input@.len() >= 5 && input@[0] == 5 && input@[1] == 1 && input@[3] == 3 && input@.len()
            >= 7 + input@[4] && !valid_utf8(input@.subrange(5, 5 + input@[4])) ==> r
            == RequestOutcome::DomainNotUtf8,
        input@.len() >= 4 && input@[0] == 5 && input@[1] == 1 && input@[3] != 1 && input@[3] != 3
            && input@[3] != 4 ==> r == RequestOutcome::Rejected(
            Socks5Error::UnsupportedAddressType,
        ),
{
    if input.len() < 4 {
        return RequestOutcome::Incomplete(4);
    }
    if input[0] != 5 {
        return RequestOutcome::Rejected(Socks5Error::UnsupportedVersion);
    }
    if input[1] != 1 {
        return RequestOutcome::Rejected(Socks5Error::UnsupportedCommand);
    }
    let atyp = input[3];
    if atyp == 1 {
        if input.len() < 10 {
            return RequestOutcome::Incomplete(10);
        }
        let a: [u8; 4] = [input[4], input[5], input[6], input[7]];
        let port = port_from_be(input[8], input[9]);
        proof {
            assert(a@ =~= input@.subrange(4, 8));
        }
        return RequestOutcome::Accepted(
            Endpoint::Ip(SocketAddress { ip: IpAddress::V4(a), port }),
            10,
        );
    }
    if atyp == 4 {
        if input.len() < 22 {
            return RequestOutcome::Incomplete(22);
        }
        let a: [u8; 16] = [
            input[4],
            input[5],
            input[6],
            input[7],
            input[8],
            input[9],
            input[10],
            input[11],
            input[12],
            input[13],
            input[14],
            input[15],
            input[16],
            input[17],
            input[18],
            input[19],
        ];
        let port = port_from_be(input[20], input[21]);
        proof {
            assert(a@ =~= input@.subrange(4, 20));
        }
        return RequestOutcome::Accepted(
            Endpoint::Ip(SocketAddress { ip: IpAddress::V6(a), port }),
            22,
        );
    }
    if atyp == 3 {
        if input.len() < 5 {
            return RequestOutcome::Incomplete(5);
        }
        let dlen = input[4] as usize;
        let total: usize = 7 + dlen;
        if input.len() < total {
            return RequestOutcome::Incomplete(total);
        }
        let mut domain: Vec<u8> = Vec::new();
        let mut i: usize = 0;
        while i < dlen
            invariant
                0 <= i <= dlen,
                input@.len() >= 7 + dlen,
                domain@ == input@.subrange(5, 5 + i),
            decreases dlen - i,
        {
            domain.push(input[5 + i]);
            i += 1;
            proof {
                assert(domain@ =~= input@.subrange(5, 5 + i));
            }
        }
        let port = port_from_be(input[5 + dlen], input[6 + dlen]);
        return match bytes_to_string(domain) {
            Some(host) => RequestOutcome::Accepted(Endpoint::HostName(host, port), total),
            None => RequestOutcome::DomainNotUtf8,
        };
    }
    RequestOutcome::Rejected(Socks5Error::UnsupportedAddressType)
}

/// The fixed 10-byte success reply: version 5, succeeded, reserved, IPv4,
/// bound address and port zeroed (many clients ignore them).
pub fn success_reply() -> (r: Vec<u8>)
    ensures
        r@ == seq![5u8, 0u8, 0u8, 1u8, 0u8, 0u8, 0u8, 0u8, 0u8, 0u8],
{
    let mut v: Vec<u8> = Vec::new();
    v.push(5);
    v.push(0);
    v.push(0);
    v.push(1);
    v.push(0);
    v.push(0);
    v.push(0);
    v.push(0);
    v.push(0);
    v.push(0);
    proof {
        assert(v@ =~= seq![5u8, 0u8, 0u8, 1u8, 0u8, 0u8, 0u8, 0u8, 0u8, 0u8]);
    }
    v
}

/// A 16-bit value from two bytes, big-endian.
pub fn port_from_be(hi: u8, lo: u8) -> (r: u16)
    ensures
        r == hi * 256 + lo,
{
    hi as u16 * 256 + lo as u16
}

/// Carrier created once the SOCKS5 request is decoded but before any data
/// is forwarded: it holds the decoded target, and any bytes the caller read
/// beyond the request, which belong to the spliced tunnel. The inbound
/// socket itself lives beside it in the unverified glue.
pub struct Socks5MidHandshake {
    pub target: Endpoint,
    pub residue: Vec<u8>,
}

impl Socks5MidHandshake {
    /// Wrap the decoded target and the surplus bytes.
    pub fn new(target: Endpoint, residue: Vec<u8>) -> (r: Socks5MidHandshake)
        ensures
            r.target == target,
            r.residue@ == residue@,
    {
        Socks5MidHandshake { target, residue }
    }

    /// The decoded target endpoint; pure, callable any number of times
    /// before finalize, always returning the stored target.
    pub fn target_endpoint(&self) -> (r: &Endpoint)
        ensures
            *r == self.target,
    {
        &self.target
    }
}

/// Relies on `String::from_utf8`: it succeeds exactly on valid UTF-8 input
/// and decodes the bytes to the characters they encode.
#[verifier::external_body]
fn bytes_to_string(v: Vec<u8>) -> (r: Option<String>)
    ensures
        r is Some <==> valid_utf8(v@),
        r matches Some(s) ==> s@ == decode_utf8(v@),
{
    String::from_utf8(v).ok()
}

} // verus!
