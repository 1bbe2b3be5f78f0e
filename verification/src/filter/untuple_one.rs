//! `UntupleOne`: extracts the tuple that a filter extracts as its one value.
use vstd::prelude::*;
use crate::filter::Polled;
use crate::reject::Rejection;

verus! {

/// A filter over `filter`, which extracts a tuple of one tuple, that
/// extracts the inner tuple.
#[derive(Clone, Copy, Debug)]
pub struct UntupleOne<F> {
    filter: F,
}

impl<F> UntupleOne<F> {
    /// The filter made of the given parts.
    pub fn new(filter: F) -> (r: Self)
        ensures
            r.spec_filter() == filter,
    {
        UntupleOne { filter }
    }

    pub closed spec fn spec_filter(&self) -> F {
        self.filter
    }

    /// The inner filter.
    pub fn inner(&self) -> (r: &F)
        ensures
            *r == self.spec_filter(),
    {
        &self.filter
    }

    /// Starts filtering a request with the inner filter.
    pub fn filter(&self) -> (f: UntupleOneFuture) {
        UntupleOneFuture
    }
}

/// The future of a `UntupleOne` filter.
pub struct UntupleOneFuture;

impl UntupleOneFuture {
    /// What the filter gives once the inner filter's future gave `polled`.
    pub fn poll<T>(&self, polled: Polled<Result<(T,), Rejection>>) -> (r: Polled<Result<T, Rejection>>)
        ensures
            match polled {
                Polled::Pending => r is Pending,
                Polled::Ready(Ok(a)) => r == Polled::<Result<T, Rejection>>::Ready(Ok(a.0)),
                Polled::Ready(Err(e)) => r == Polled::<Result<T, Rejection>>::Ready(Err(e)),
            },
    {
        match polled {
            Polled::Pending => Polled::Pending,
            Polled::Ready(Ok(a)) => Polled::Ready(Ok(a.0)),
            Polled::Ready(Err(e)) => Polled::Ready(Err(e)),
        }
    }
}

} // verus!
