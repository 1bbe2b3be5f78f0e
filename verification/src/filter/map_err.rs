//! `MapErr`: maps the rejection of a filter through a function.
use vstd::prelude::*;
use crate::filter::Polled;
use crate::reject::Rejection;

verus! {

/// A filter that maps the rejection of `filter` through `callback`.
#[derive(Clone, Copy, Debug)]
pub struct MapErr<T, F> {
    filter: T,
    callback: F,
}

impl<T, F> MapErr<T, F> {
    /// The filter made of the given parts.
    pub fn new(filter: T, callback: F) -> (r: Self)
        ensures
            r.spec_filter() == filter,
            r.spec_callback() == callback,
    {
        MapErr { filter, callback }
    }

    pub closed spec fn spec_filter(&self) -> T {
        self.filter
    }

    /// The inner filter.
    pub fn inner(&self) -> (r: &T)
        ensures
            *r == self.spec_filter(),
    {
        &self.filter
    }

    pub closed spec fn spec_callback(&self) -> F {
        self.callback
    }

    /// The callback applied to its rejection.
    pub fn callback(&self) -> (r: &F)
        ensures
            *r == self.spec_callback(),
    {
        &self.callback
    }

    /// Starts filtering a request with the inner filter.
    pub fn filter(&self) -> (f: MapErrFuture<F>) where F: Clone
        ensures
            cloned::<F>(self.spec_callback(), f.spec_callback()),
    {
        MapErrFuture { callback: self.callback.clone() }
    }
}

/// The future of a `MapErr` filter.
pub struct MapErrFuture<F> {
    callback: F,
}

impl<F> MapErrFuture<F> {
    /// The callback applied to the inner filter's rejection.
    pub closed spec fn spec_callback(&self) -> F {
        self.callback
    }

    pub fn poll<A, E>(&self, polled: Polled<Result<A, Rejection>>) -> (r: Polled<Result<A, E>>) where F: Fn(Rejection) -> E
        requires
            polled matches Polled::Ready(Err(e)) ==> call_requires(self.spec_callback(), (e,)),
        ensures
            match polled {
                Polled::Pending => r is Pending,
                Polled::Ready(Ok(a)) => r == Polled::<Result<A, E>>::Ready(Ok(a)),
                Polled::Ready(Err(e)) => r matches Polled::Ready(Err(x)) && call_ensures(self.spec_callback(), (e,), x),
            },
    {
        match polled {
            Polled::Pending => Polled::Pending,
            Polled::Ready(Ok(a)) => Polled::Ready(Ok(a)),
            Polled::Ready(Err(e)) => Polled::Ready(Err((self.callback)(e))),
        }
    }
}

} // verus!
