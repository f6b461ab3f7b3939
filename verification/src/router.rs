//! The sequencing router: race an ordered list of candidate routers and
//! keep the first success, in deterministic priority order.

use vstd::prelude::*;

verus! {

/// Routing failure: every candidate router failed to produce a connection.
#[derive(Clone, Copy, Debug, PartialEq, Eq)]
pub enum RouteError {
    NoRouteToDestination,
}

/// Pick the candidate whose connection is used: `outcomes[i]` says whether
/// candidate `i` produced a connection. The first success in priority order
/// wins — ties between concurrent successes resolve to the lower index —
/// and when every candidate failed the route fails.
pub fn select_route(outcomes: &Vec<bool>) -> (r: Result<usize, RouteError>)
    ensures
        r matches Ok(i) ==> i < outcomes@.len() && outcomes@[i as int] && (forall|j: int|
            0 <= j < i ==> !outcomes@[j]),
        r is Err <==> (forall|j: int| 0 <= j < outcomes@.len() ==> !outcomes@[j]),
{
    let mut i: usize = 0;
    while i < outcomes.len()
        invariant
            i <= outcomes@.len(),
            forall|j: int| 0 <= j < i ==> !outcomes@[j],
        decreases outcomes@.len() - i,
    {
        if outcomes[i] {
            return Ok(i);
        }
        i += 1;
    }
    Err(RouteError::NoRouteToDestination)
}

} // verus!
