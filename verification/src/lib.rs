//! Verified core of a proxy server framework.
//!
//! The crate terminates inbound client protocols (SOCKS5, HTTP CONNECT and an
//! HTTP forward proxy with per-request rewriting), decodes the requested
//! destination into an [`endpoint::Endpoint`], and models the coordination and
//! byte-splicing that bridge the inbound connection to an upstream one.
//! All protocol decoding and decision logic lives here with proved contracts;
//! the sockets, the async runtime and the HTTP framing library are driven by
//! unverified glue that feeds plain values in and out of this crate.

pub mod connector;
pub mod endpoint;
pub mod error;
pub mod http;
pub mod io;
pub mod resolver;
pub mod rewrite;
pub mod router;
pub mod session;
pub mod socks5;
