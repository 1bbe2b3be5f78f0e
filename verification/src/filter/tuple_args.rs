//! `TupleArgs`: extracts the arguments a filter extracts as one value.
use vstd::prelude::*;
use crate::filter::Polled;
use crate::reject::Rejection;

verus! {

/// A filter over `filter` that extracts what `filter` extracts as one
/// value.
#[derive(Clone, Copy, Debug)]
pub struct TupleArgs<F> {
    filter: F,
}

impl<F> TupleArgs<F> {
    /// The filter made of the given parts.
    pub fn new(filter: F) -> (r: Self)
        ensures
            r.spec_filter() == filter,
    {
        TupleArgs { filter }
    }

    pub closed spec fn spec_filter(&self) -> F {
        self.filter
    }

    /// The inner filter.
    pub fn inner(&self) -> (r: &F)
        ensures
            *r == self.spec_filter(),
    {
        &self.filter
    }

    /// Starts filtering a request with the inner filter.
    pub fn filter(&self) -> (f: TupleArgsFuture) {
        TupleArgsFuture
    }
}

/// The future of a `TupleArgs` filter.
pub struct TupleArgsFuture;

impl TupleArgsFuture {
    /// What the filter gives once the inner filter's future gave `polled`.
    pub fn poll<A>(&self, polled: Polled<Result<A, Rejection>>) -> (r: Polled<Result<(A,), Rejection>>)
        ensures
            match polled {
                Polled::Pending => r is Pending,
                Polled::Ready(Ok(a)) => r == Polled::<Result<(A,), Rejection>>::Ready(Ok((a,))),
                Polled::Ready(Err(e)) => r == Polled::<Result<(A,), Rejection>>::Ready(Err(e)),
            },
    {
        match polled {
            Polled::Pending => Polled::Pending,
            Polled::Ready(Ok(a)) => Polled::Ready(Ok((a,))),
            Polled::Ready(Err(e)) => Polled::Ready(Err(e)),
        }
    }
}

} // verus!
