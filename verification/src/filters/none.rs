//! A filter that matches no route.
use vstd::prelude::*;
use crate::reject::Rejection;
use crate::route::Route;

verus! {

/// A filter that never matches: every request is rejected with `404`.
pub fn none(_route: &Route) -> (r: Result<(), Rejection>)
    ensures
        r == Err::<(), Rejection>(Rejection::NotFound),
{
    Err(Rejection::NotFound)
}

} // verus!
