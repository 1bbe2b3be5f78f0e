//! Query Filters
use vstd::prelude::*;
use crate::reject::Rejection;
use crate::route::Route;

verus! {

/// The query string to deserialize (`query` hands it to a deserializer):
/// the request's query, or the empty string when there is none.
pub fn query_str(route: &Route) -> (q: &str)
    ensures
        match route.spec_query() {
            Some(s) => q@ == s,
            None => q@ == ""@,
        },
{
    match route.query() {
        Some(q) => q,
        None => "",
    }
}

/// Extracts the raw query string, without parsing it; rejects with
/// `InvalidQuery` when the request has none.
pub fn raw(route: &Route) -> (r: Result<String, Rejection>)
    ensures
        match route.spec_query() {
            Some(s) => r matches Ok(q) && q@ == s,
            None => r == Err::<String, Rejection>(Rejection::InvalidQuery),
        },
{
    match route.query() {
        Some(q) => Ok(q.to_owned()),
        None => Err(Rejection::InvalidQuery),
    }
}

} // verus!
