//! A filter lifted into a service that is always ready.
use vstd::prelude::*;
use crate::filter::service::outcome_response;
use crate::filter::Polled;
use crate::reject::Rejection;
use crate::reply::{Reply, Response};
use crate::request::Request;
use crate::route::Route;

verus! {

/// Wraps a filter, serving requests with it.
#[derive(Clone, Copy, Debug)]
pub struct LiftService<F> {
    filter: F,
}

/// Lifts a filter into a service.
pub fn lift<F>(filter: F) -> (s: LiftService<F>)
    ensures
        s.spec_filter() == filter,
{
    LiftService { filter }
}

/// The future of a served request.
#[derive(Debug)]
pub struct ResponseFuture;

impl<F> LiftService<F> {
    pub closed spec fn spec_filter(&self) -> F {
        self.filter
    }

    /// The service is always ready.
    pub fn poll_ready(&self) -> (r: Polled<()>)
        ensures
            r == Polled::Ready(()),
    {
        Polled::Ready(())
    }

    /// Starts serving `req`: the route that the filter reads, and the
    /// future of the response.
    pub fn call(&self, req: Request) -> (r: (Route, ResponseFuture))
        ensures
            r.0.spec_full_path() == req.path@,
            r.0.spec_method() == req.method.view(),
            r.0.spec_headers() == req.headers,
    {
        (Route::new(req), ResponseFuture)
    }
}

impl ResponseFuture {
    /// The response, once the filter's future gave `polled`.
    pub fn poll<R: Reply>(&self, polled: Polled<Result<R, Rejection>>) -> (r: Polled<Response>)
        ensures
            match polled {
                Polled::Pending => r is Pending,
                Polled::Ready(res) => r matches Polled::Ready(resp) && outcome_response(&res, resp),
            },
    {
        match polled {
            Polled::Pending => Polled::Pending,
            Polled::Ready(Ok(reply)) => Polled::Ready(reply.into_response()),
            Polled::Ready(Err(e)) => Polled::Ready(e.into_response()),
        }
    }
}

} // verus!
