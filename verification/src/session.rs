//! Per-connection session state: the target endpoint once it is known.

use crate::endpoint::Endpoint;
use vstd::prelude::*;

verus! {

/// State attached to one inbound connection. The endpoint is `None` until an
/// acceptor has decoded the requested destination.
pub struct Session {
    pub endpoint: Option<Endpoint>,
}

impl Session {
    /// A fresh session knows no target endpoint yet.
    pub fn new() -> (r: Session)
        ensures
            r.endpoint is None,
    {
        Session { endpoint: None }
    }
}

} // verus!
