//! Host ("authority") filter
use vstd::prelude::*;
use crate::reject::Rejection;
use crate::route::Route;
use crate::text::{lower_chars, to_ascii_lowercase};
use vstd::string::StringSliceAdditionalSpecFns;

verus! {

/// The text of the authority that `b` parses as
/// (`http::uri::Authority::try_from`); `None` when `b` is no authority.
pub uninterp spec fn parsed_authority(b: Seq<u8>) -> Option<Seq<char>>;

/// Parses an authority with `http`; the result is named `parsed_authority`.
#[verifier::external_body]
fn parse_authority(b: &[u8]) -> (r: Option<String>)
    ensures
        r matches Some(a) ==> parsed_authority(b@) == Some(a@),
        r is None ==> parsed_authority(b@) is None,
{
    match http::uri::Authority::try_from(b) {
        Ok(a) => Some(a.as_str().to_owned()),
        Err(_) => None,
    }
}

/// The host the request is for: the `host` field, parsed as an authority,
/// or else the authority of the request's URI; a `host` field that is no
/// authority is refused as an invalid `host` header.
pub open spec fn spec_host(route: Route) -> Result<Option<Seq<char>>, Seq<char>> {
    match route.spec_headers().spec_get("host"@) {
        Some(v) => match parsed_authority(v) {
            Some(a) => Ok(Some(a)),
            None => Err("host"@),
        },
        None => Ok(route.spec_authority()),
    }
}

/// Creates a filter that extracts the host, if the request names one;
/// rejects a malformed `host` field with `InvalidHeader("host")`.
pub fn optional(route: &Route) -> (r: Result<Option<String>, Rejection>)
    ensures
        match spec_host(*route) {
            Ok(Some(a)) => r matches Ok(Some(s)) && s@ == a,
            Ok(None) => r matches Ok(None),
            Err(n) => r matches Err(Rejection::InvalidHeader(h)) && h@ == n,
        },
{
    match route.headers().get("host") {
        Some(v) => match parse_authority(v.as_slice()) {
            Some(a) => Ok(Some(a)),
            None => Err(Rejection::InvalidHeader("host".to_owned())),
        },
        None => match route.authority() {
            Some(a) => Ok(Some(a.to_owned())),
            None => Ok(None),
        },
    }
}

/// Whether `r` is what `exact` answers for the request of `route` when
/// the expected authority is `want`: `Ok` for that host (ignoring ASCII
/// case), `404` for another or none, and the rejection of `optional` for a
/// malformed `host` field.
pub open spec fn exact_outcome(route: Route, want: Seq<char>, r: Result<(), Rejection>) -> bool {
    match spec_host(route) {
        Ok(Some(a)) => if lower_chars(a) == lower_chars(want) {
            r is Ok
        } else {
            r == Err::<(), Rejection>(Rejection::NotFound)
        },
        Ok(None) => r == Err::<(), Rejection>(Rejection::NotFound),
        Err(n) => r matches Err(Rejection::InvalidHeader(h)) && h@ == n,
    }
}

/// Creates a filter that requires the host to be `expected`, ignoring
/// ASCII case (as authorities compare); rejects with `404` for another or
/// no host, and as `optional` for a malformed `host` field. `expected` must
/// be an authority (`try_exact` checks it first).
pub fn exact(route: &Route, expected: &str) -> (r: Result<(), Rejection>)
    requires
        parsed_authority(expected.spec_bytes()) is Some,
    ensures
        exact_outcome(*route, parsed_authority(expected.spec_bytes())->0, r),
{
    let want = parse_authority(expected.as_bytes()).unwrap();
    match optional(route) {
        Ok(Some(a)) => {
            let x = to_ascii_lowercase(a.as_str());
            let y = to_ascii_lowercase(want.as_str());
            if x == y {
                Ok(())
            } else {
                Err(Rejection::NotFound)
            }
        },
        Ok(None) => Err(Rejection::NotFound),
        Err(e) => Err(e),
    }
}

/// Like `exact`, but `None` when `expected` is no authority.
pub fn try_exact(route: &Route, expected: &str) -> (r: Option<Result<(), Rejection>>)
    ensures
        r is None <==> parsed_authority(expected.spec_bytes()) is None,
        r matches Some(x) ==> exact_outcome(*route, parsed_authority(expected.spec_bytes())->0, x),
{
    match parse_authority(expected.as_bytes()) {
        Some(_) => Some(exact(route, expected)),
        None => None,
    }
}

} // verus!
