//! Header Filters
//!
//! These filters are used to interact with the Request HTTP headers. Some
//! of them, like `exact` and `exact_ignore_case`, are just predicates,
//! they don't extract any values. The `header` filter allows parsing
//! a value from any header.
use vstd::prelude::*;
use crate::csv::{all_visible_ascii, is_visible_ascii_bytes};
use crate::filters::path::parses_to;
use crate::header_map::HeaderMap;
use crate::reject::Rejection;
use crate::route::Route;
use crate::text::{ascii_string, ascii_text, bytes_eq, bytes_eq_ignore_ascii_case, lower_bytes};
use vstd::string::StringSliceAdditionalSpecFns;

verus! {

/// Parses the value of the header `name` with `parse`: rejects with `400` if the header is missing, is not visible
/// ASCII, or does not parse.
pub fn header<T, P: Fn(&str) -> Option<T>>(route: &Route, name: &str, parse: P) -> (r: Result<(T,), Rejection>)
    requires
        forall|s: &str| #[trigger] call_requires(parse, (s,)),
    ensures
        match route.spec_headers().spec_get(name@) {
            Some(v) if all_visible_ascii(v) => match r {
                Ok(t) => parses_to(parse, ascii_text(v), Some(t.0)),
                Err(e) => e == Rejection::BadRequest && parses_to(parse, ascii_text(v), None),
            },
            _ => r == Err::<(T,), Rejection>(Rejection::BadRequest),
        },
{
    match route.headers().get(name) {
        Some(v) => {
            if !is_visible_ascii_bytes(v.as_slice()) {
                return Err(Rejection::BadRequest);
            }
            let text = ascii_string(v.as_slice());
            let parsed = parse(text.as_str());
            assert(parses_to(parse, ascii_text(v@), parsed));
            match parsed {
                Some(t) => Ok((t,)),
                None => Err(Rejection::BadRequest),
            }
        },
        None => Err(Rejection::BadRequest),
    }
}

/// Requires that the header `name` is exactly `value`; rejects with `400`
/// otherwise, also when it is missing.
pub fn exact(route: &Route, name: &str, value: &str) -> (r: Result<(), Rejection>)
    ensures
        route.spec_headers().spec_get(name@) == Some(value.spec_bytes()) ==> r is Ok,
        route.spec_headers().spec_get(name@) != Some(value.spec_bytes()) ==> r == Err::<(), Rejection>(
            Rejection::BadRequest,
        ),
{
    match route.headers().get(name) {
        Some(v) => {
            if bytes_eq(v.as_slice(), value.as_bytes()) {
                Ok(())
            } else {
                Err(Rejection::BadRequest)
            }
        },
        None => Err(Rejection::BadRequest),
    }
}

/// Requires that the header `name` is `value`, ignoring ASCII case;
/// rejects with `400` otherwise, also when it is missing.
pub fn exact_ignore_case(route: &Route, name: &str, value: &str) -> (r: Result<(), Rejection>)
    ensures
        (route.spec_headers().spec_get(name@) matches Some(v) && lower_bytes(v) == lower_bytes(
            value.spec_bytes(),
        )) ==> r is Ok,
        !(route.spec_headers().spec_get(name@) matches Some(v) && lower_bytes(v) == lower_bytes(
            value.spec_bytes(),
        )) ==> r == Err::<(), Rejection>(Rejection::BadRequest),
{
    match route.headers().get(name) {
        Some(v) => {
            if bytes_eq_ignore_ascii_case(v.as_slice(), value.as_bytes()) {
                Ok(())
            } else {
                Err(Rejection::BadRequest)
            }
        },
        None => Err(Rejection::BadRequest),
    }
}

/// A copy of the request's header fields; never rejects.
pub fn headers_cloned(route: &Route) -> (h: HeaderMap)
    ensures
        h.view() == route.spec_headers().view(),
{
    route.headers().clone()
}

/// The value of the header `name`, if present; never rejects.
pub fn optional(route: &Route, name: &str) -> (r: Option<Vec<u8>>)
    ensures
        match route.spec_headers().spec_get(name@) {
            Some(v) => r matches Some(x) && x@ == v,
            None => r is None,
        },
{
    match route.headers().get(name) {
        Some(v) => Some(v.clone()),
        None => None,
    }
}

} // verus!
