//! HTTP Method filters.
//!
//! The filters deal with the HTTP Method part of a request. Several here
//! will match the request `Method`, and if not matched, will reject the
//! request with a `405 Method Not Allowed`.
//!
//! There is also `method()`, which never rejects a request, and just
//! extracts the method.
use vstd::prelude::*;
use crate::reject::Rejection;
use crate::request::Method;
use crate::route::Route;

verus! {

/// Matches requests with the method `m`; rejects others with `405`.
pub fn method_is(route: &Route, m: &Method) -> (r: Result<(), Rejection>)
    ensures
        route.spec_method() == m.view() ==> r is Ok,
        route.spec_method() != m.view() ==> r == Err::<(), Rejection>(Rejection::MethodNotAllowed),
{
    if route.method().same(m) {
        Ok(())
    } else {
        Err(Rejection::MethodNotAllowed)
    }
}

/// Matches `GET` requests.
pub fn get(route: &Route) -> (r: Result<(), Rejection>)
    ensures
        route.spec_method() == seq![71u8, 69, 84] ==> r is Ok,
        route.spec_method() != seq![71u8, 69, 84] ==> r == Err::<(), Rejection>(Rejection::MethodNotAllowed),
{
    method_is(route, &Method::get())
}

/// Matches `POST` requests.
pub fn post(route: &Route) -> (r: Result<(), Rejection>)
    ensures
        route.spec_method() == seq![80u8, 79, 83, 84] ==> r is Ok,
        route.spec_method() != seq![80u8, 79, 83, 84] ==> r == Err::<(), Rejection>(Rejection::MethodNotAllowed),
{
    method_is(route, &Method::post())
}

/// Matches `PUT` requests.
pub fn put(route: &Route) -> (r: Result<(), Rejection>)
    ensures
        route.spec_method() == seq![80u8, 85, 84] ==> r is Ok,
        route.spec_method() != seq![80u8, 85, 84] ==> r == Err::<(), Rejection>(Rejection::MethodNotAllowed),
{
    method_is(route, &Method::put())
}

/// Matches `DELETE` requests.
pub fn delete(route: &Route) -> (r: Result<(), Rejection>)
    ensures
        route.spec_method() == seq![68u8, 69, 76, 69, 84, 69] ==> r is Ok,
        route.spec_method() != seq![68u8, 69, 76, 69, 84, 69] ==> r == Err::<(), Rejection>(
            Rejection::MethodNotAllowed,
        ),
{
    method_is(route, &Method::delete())
}

/// Matches `HEAD` requests.
pub fn head(route: &Route) -> (r: Result<(), Rejection>)
    ensures
        route.spec_method() == seq![72u8, 69, 65, 68] ==> r is Ok,
        route.spec_method() != seq![72u8, 69, 65, 68] ==> r == Err::<(), Rejection>(Rejection::MethodNotAllowed),
{
    method_is(route, &Method::head())
}

/// Matches `OPTIONS` requests.
pub fn options(route: &Route) -> (r: Result<(), Rejection>)
    ensures
        route.spec_method() == seq![79u8, 80, 84, 73, 79, 78, 83] ==> r is Ok,
        route.spec_method() != seq![79u8, 80, 84, 73, 79, 78, 83] ==> r == Err::<(), Rejection>(
            Rejection::MethodNotAllowed,
        ),
{
    method_is(route, &Method::options())
}

/// Matches `PATCH` requests.
pub fn patch(route: &Route) -> (r: Result<(), Rejection>)
    ensures
        route.spec_method() == seq![80u8, 65, 84, 67, 72] ==> r is Ok,
        route.spec_method() != seq![80u8, 65, 84, 67, 72] ==> r == Err::<(), Rejection>(
            Rejection::MethodNotAllowed,
        ),
{
    method_is(route, &Method::patch())
}

/// Extracts the request's method; never rejects.
pub fn method(route: &Route) -> (m: Method)
    ensures
        m.view() == route.spec_method(),
{
    route.method().clone()
}

} // verus!
