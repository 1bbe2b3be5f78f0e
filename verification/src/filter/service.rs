//! Serving requests with a filter: each request is routed through the
//! filter, and what the filter gives (a reply or a rejection) becomes the
//! response.
use vstd::prelude::*;
use crate::filter::Polled;
use crate::reject::Rejection;
use crate::reply::{Reply, Response};
use crate::request::Request;
use crate::route::Route;

verus! {

/// Converts a filter into a service.
pub fn service<F>(filter: F) -> (s: FilteredService<F>)
    ensures
        s.spec_filter() == filter,
{
    FilteredService { filter }
}

/// A filter serving requests.
#[derive(Clone, Copy, Debug)]
pub struct FilteredService<F> {
    filter: F,
}

/// The future of a served request.
#[derive(Debug)]
pub struct FilteredFuture;

/// The response that a filter's outcome becomes: the reply's response, or
/// the response to the rejection.
pub open spec fn outcome_response<R: Reply>(r: &Result<R, Rejection>, resp: Response) -> bool {
    match r {
        Ok(reply) => resp.status == reply.reply_status() && resp.headers.view() == reply.reply_headers()
            && resp.body == reply.reply_body(),
        Err(e) => resp.status == e.reply_status() && resp.headers.view() == e.reply_headers()
            && resp.body == e.reply_body(),
    }
}

impl<F> FilteredService<F> {
    pub closed spec fn spec_filter(&self) -> F {
        self.filter
    }

    /// The filter that serves.
    pub fn filter(&self) -> (f: &F)
        ensures
            *f == self.spec_filter(),
    {
        &self.filter
    }

    /// Starts serving `req`: the route that the filter reads, and the
    /// future of the response.
    pub fn call_route(&self, req: Request) -> (r: (Route, FilteredFuture))
        ensures
            r.0.spec_full_path() == req.path@,
            r.0.spec_method() == req.method.view(),
            r.0.spec_headers() == req.headers,
    {
        (Route::new(req), FilteredFuture)
    }
}

impl FilteredFuture {
    /// The response, once the filter's future gave `polled`.
    pub fn poll<R: Reply>(&self, polled: Polled<Result<R, Rejection>>) -> (r: Polled<Response>)
        ensures
            match polled {
                Polled::Pending => r is Pending,
                Polled::Ready(res) => r matches Polled::Ready(resp) && outcome_response(&res, resp),
            },
    {
        match polled {
            Polled::Pending => Polled::Pending,
            Polled::Ready(Ok(reply)) => Polled::Ready(reply.into_response()),
            Polled::Ready(Err(e)) => Polled::Ready(e.into_response()),
        }
    }
}

} // verus!
