//! Method filters that report whether they matched.
use vstd::prelude::*;
use crate::filter::paths::FilterResult;
use crate::request::Method as HttpMethod;

verus! {

/// A filter that matches requests of one method.
#[derive(Debug)]
pub struct Method {
    m: HttpMethod,
}

/// A filter that matches requests with the method `m`.
pub fn method(m: HttpMethod) -> (f: Method)
    ensures
        f.spec_method() == m.view(),
{
    Method { m }
}

/// Matches `GET` requests.
pub fn get() -> (f: Method)
    ensures
        f.spec_method() == seq![71u8, 69, 84],
{
    method(HttpMethod::get())
}

/// Matches `POST` requests.
pub fn post() -> (f: Method)
    ensures
        f.spec_method() == seq![80u8, 79, 83, 84],
{
    method(HttpMethod::post())
}

/// Matches `PUT` requests.
pub fn put() -> (f: Method)
    ensures
        f.spec_method() == seq![80u8, 85, 84],
{
    method(HttpMethod::put())
}

/// Matches `DELETE` requests.
pub fn delete() -> (f: Method)
    ensures
        f.spec_method() == seq![68u8, 69, 76, 69, 84, 69],
{
    method(HttpMethod::delete())
}

impl Method {
    pub closed spec fn spec_method(&self) -> Seq<u8> {
        self.m.view()
    }

    /// Matches a request with the method `req_method`.
    pub fn filter(&self, req_method: &HttpMethod) -> (r: FilterResult<()>)
        ensures
            (r is Matched) == (req_method.view() == self.spec_method()),
    {
        if self.m.same(req_method) {
            FilterResult::Matched(())
        } else {
            FilterResult::Skipped
        }
    }

    /// `method + filter`: the method must match, then `t`.
    pub fn add<T>(self, rhs: T) -> (r: MethodAnd<T>)
        ensures
            r.spec_method() == self.spec_method(),
            r.spec_then() == rhs,
    {
        MethodAnd { m: self, t: rhs }
    }
}

/// A filter that requires a method, then another filter.
#[derive(Debug)]
pub struct MethodAnd<T> {
    m: Method,
    t: T,
}

impl<T> MethodAnd<T> {
    pub closed spec fn spec_method(&self) -> Seq<u8> {
        self.m.spec_method()
    }

    pub closed spec fn spec_then(&self) -> T {
        self.t
    }

    /// The filter required after the method.
    pub fn then(&self) -> (t: &T)
        ensures
            *t == self.spec_then(),
    {
        &self.t
    }

    /// Matches a request with the method `req_method` whose other filter
    /// `inner` matches; `inner` runs only when the method matched.
    pub fn filter<E, I: FnOnce() -> FilterResult<E>>(&self, req_method: &HttpMethod, inner: I) -> (r: FilterResult<E>)
        requires
            call_requires(inner, ()),
        ensures
            req_method.view() != self.spec_method() ==> r is Skipped,
            req_method.view() == self.spec_method() ==> call_ensures(inner, (), r),
    {
        match self.m.filter(req_method) {
            FilterResult::Matched(()) => inner(),
            FilterResult::Skipped => FilterResult::Skipped,
        }
    }
}

} // verus!
