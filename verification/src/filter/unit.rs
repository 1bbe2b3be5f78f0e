//! `Unit`: a filter that extracts nothing from one that extracts `()`.
use vstd::prelude::*;
use crate::filter::Polled;
use crate::reject::Rejection;

verus! {

/// A filter over `filter`, which extracts `((),)`, that extracts nothing.
#[derive(Clone, Copy, Debug)]
pub struct Unit<F> {
    filter: F,
}

impl<F> Unit<F> {
    /// The filter made of the given parts.
    pub fn new(filter: F) -> (r: Self)
        ensures
            r.spec_filter() == filter,
    {
        Unit { filter }
    }

    pub closed spec fn spec_filter(&self) -> F {
        self.filter
    }

    /// The inner filter.
    pub fn inner(&self) -> (r: &F)
        ensures
            *r == self.spec_filter(),
    {
        &self.filter
    }

    /// Starts filtering a request with the inner filter.
    pub fn filter(&self) -> (f: UnitFuture) {
        UnitFuture
    }
}

/// The future of a `Unit` filter.
pub struct UnitFuture;

impl UnitFuture {
    /// What the filter gives once the inner filter's future gave `polled`.
    pub fn poll(&self, polled: Polled<Result<((),), Rejection>>) -> (r: Polled<Result<(), Rejection>>)
        ensures
            match polled {
                Polled::Pending => r is Pending,
                Polled::Ready(Ok(a)) => r == Polled::<Result<(), Rejection>>::Ready(Ok(())),
                Polled::Ready(Err(e)) => r == Polled::<Result<(), Rejection>>::Ready(Err(e)),
            },
    {
        match polled {
            Polled::Pending => Polled::Pending,
            Polled::Ready(Ok(a)) => Polled::Ready(Ok(())),
            Polled::Ready(Err(e)) => Polled::Ready(Err(e)),
        }
    }
}

} // verus!
