//! `Negate`: accepts what a filter rejects, and rejects what it accepts.
use vstd::prelude::*;
use crate::filter::Polled;
use crate::generic::Func;
use crate::reject::Rejection;

verus! {

/// A filter that accepts a request exactly when `filter` rejects it; what
/// `filter` extracts goes to `callback`, whose result is the rejection.
#[derive(Clone, Copy, Debug)]
pub struct Negate<T, F> {
    filter: T,
    callback: F,
}

impl<T, F> Negate<T, F> {
    /// The filter made of the given parts.
    pub fn new(filter: T, callback: F) -> (r: Self)
        ensures
            r.spec_filter() == filter,
            r.spec_callback() == callback,
    {
        Negate { filter, callback }
    }

    pub closed spec fn spec_filter(&self) -> T {
        self.filter
    }

    /// The inner filter.
    pub fn inner(&self) -> (r: &T)
        ensures
            *r == self.spec_filter(),
    {
        &self.filter
    }

    pub closed spec fn spec_callback(&self) -> F {
        self.callback
    }

    /// The callback that turns what it extracts into a rejection.
    pub fn callback(&self) -> (r: &F)
        ensures
            *r == self.spec_callback(),
    {
        &self.callback
    }

    /// Starts filtering a request with the inner filter.
    pub fn filter(&self) -> (f: NegateFuture<F>) where F: Clone
        ensures
            cloned::<F>(self.spec_callback(), f.spec_callback()),
    {
        NegateFuture { callback: self.callback.clone() }
    }
}

/// The future of a `Negate` filter.
pub struct NegateFuture<F> {
    callback: F,
}

impl<F> NegateFuture<F> {
    /// The callback applied to what the inner filter extracts.
    pub closed spec fn spec_callback(&self) -> F {
        self.callback
    }

    pub fn poll<A>(&self, polled: Polled<Result<A, Rejection>>) -> (r: Polled<Result<(), F::Output>>) where F: Func<A>
        requires
            polled matches Polled::Ready(Ok(a)) ==> self.spec_callback().func_requires(a),
        ensures
            match polled {
                Polled::Pending => r is Pending,
                Polled::Ready(Ok(a)) => r matches Polled::Ready(Err(x)) && self.spec_callback().func_ensures(a, x),
                Polled::Ready(Err(_)) => r == Polled::<Result<(), F::Output>>::Ready(Ok(())),
            },
    {
        match polled {
            Polled::Pending => Polled::Pending,
            Polled::Ready(Ok(a)) => Polled::Ready(Err(self.callback.call(a))),
            Polled::Ready(Err(_)) => Polled::Ready(Ok(())),
        }
    }
}

} // verus!
