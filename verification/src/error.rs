//! The error taxonomy a caller may discriminate on. In transit the value is
//! opaque to the pipeline: no component recovers from a failure internally;
//! every failure aborts its connection and surfaces to the spawn site.

use crate::http::HttpError;
use crate::router::RouteError;
use crate::socks5::Socks5Error;
use vstd::prelude::*;

verus! {

/// One failure of the connection pipeline.
#[derive(Debug)]
pub enum Error {
    /// A SOCKS5 handshake failure.
    Socks5(Socks5Error),
    /// An HTTP acceptor failure.
    Http(HttpError),
    /// Every candidate route failed.
    Route(RouteError),
    /// An underlying read, write or connect failure, surfaced unchanged.
    Transport,
    /// A DNS failure, surfaced unchanged.
    Resolution,
}

} // verus!
