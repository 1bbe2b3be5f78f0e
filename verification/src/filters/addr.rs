//! Socket Address Filters
use vstd::prelude::*;
use crate::route::Route;

verus! {

/// Creates a filter to get the remote address of the connection, if the
/// underlying transport has one; never rejects.
pub fn remote(route: &Route) -> (r: Option<String>)
    ensures
        match route.spec_remote_addr() {
            Some(a) => r matches Some(s) && s@ == a,
            None => r is None,
        },
{
    match route.remote_addr() {
        Some(a) => Some(a.to_owned()),
        None => None,
    }
}

} // verus!
