//! `MapFilter`: maps what a filter extracts through a function.
use vstd::prelude::*;
use crate::filter::Polled;
use crate::generic::Func;
use crate::reject::Rejection;

verus! {

/// A filter that maps what `filter` extracts through `callback`.
#[derive(Clone, Copy, Debug)]
pub struct MapFilter<T, F> {
    filter: T,
    callback: F,
}

impl<T, F> MapFilter<T, F> {
    /// The filter made of the given parts.
    pub fn new(filter: T, callback: F) -> (r: Self)
        ensures
            r.spec_filter() == filter,
            r.spec_callback() == callback,
    {
        MapFilter { filter, callback }
    }

    pub closed spec fn spec_filter(&self) -> T {
        self.filter
    }

    /// The inner filter.
    pub fn inner(&self) -> (r: &T)
        ensures
            *r == self.spec_filter(),
    {
        &self.filter
    }

    pub closed spec fn spec_callback(&self) -> F {
        self.callback
    }

    /// The callback applied to what it extracts.
    pub fn callback(&self) -> (r: &F)
        ensures
            *r == self.spec_callback(),
    {
        &self.callback
    }

    /// Starts filtering a request with the inner filter.
    pub fn filter(&self) -> (f: MapFuture<F>) where F: Clone
        ensures
            cloned::<F>(self.spec_callback(), f.spec_callback()),
    {
        MapFuture { callback: self.callback.clone() }
    }
}

/// The future of a `MapFilter` filter.
pub struct MapFuture<F> {
    callback: F,
}

impl<F> MapFuture<F> {
    /// The callback applied to what the inner filter extracts.
    pub closed spec fn spec_callback(&self) -> F {
        self.callback
    }

    pub fn poll<A>(&self, polled: Polled<Result<A, Rejection>>) -> (r: Polled<Result<(F::Output,), Rejection>>) where F: Func<A>
        requires
            polled matches Polled::Ready(Ok(a)) ==> self.spec_callback().func_requires(a),
        ensures
            match polled {
                Polled::Pending => r is Pending,
                Polled::Ready(Ok(a)) => r matches Polled::Ready(Ok(c)) && self.spec_callback().func_ensures(a, c.0),
                Polled::Ready(Err(e)) => r == Polled::<Result<(F::Output,), Rejection>>::Ready(Err(e)),
            },
    {
        match polled {
            Polled::Pending => Polled::Pending,
            Polled::Ready(Ok(a)) => Polled::Ready(Ok((self.callback.call(a),))),
            Polled::Ready(Err(e)) => Polled::Ready(Err(e)),
        }
    }
}

} // verus!
