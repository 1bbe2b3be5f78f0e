//! `Unify`: extracts the value of whichever alternative matched, when both
//! extract the same type.
use vstd::prelude::*;
use crate::filter::Polled;
use crate::reject::Rejection;
use crate::generic::Either;

verus! {

/// A filter over `filter`, which extracts an `Either` of two values of
/// one type, that extracts the value itself.
#[derive(Clone, Copy, Debug)]
pub struct Unify<F> {
    filter: F,
}

impl<F> Unify<F> {
    /// The filter made of the given parts.
    pub fn new(filter: F) -> (r: Self)
        ensures
            r.spec_filter() == filter,
    {
        Unify { filter }
    }

    pub closed spec fn spec_filter(&self) -> F {
        self.filter
    }

    /// The inner filter.
    pub fn inner(&self) -> (r: &F)
        ensures
            *r == self.spec_filter(),
    {
        &self.filter
    }

    /// Starts filtering a request with the inner filter.
    pub fn filter(&self) -> (f: UnifyFuture) {
        UnifyFuture
    }
}

/// The future of a `Unify` filter.
pub struct UnifyFuture;

impl UnifyFuture {
    /// What the filter gives once the inner filter's future gave `polled`.
    pub fn poll<T>(&self, polled: Polled<Result<(Either<T, T>,), Rejection>>) -> (r: Polled<Result<T, Rejection>>)
        ensures
            match polled {
                Polled::Pending => r is Pending,
                Polled::Ready(Ok(a)) => r == Polled::<Result<T, Rejection>>::Ready(Ok(match a.0 { Either::A(x) => x, Either::B(x) => x })),
                Polled::Ready(Err(e)) => r == Polled::<Result<T, Rejection>>::Ready(Err(e)),
            },
    {
        match polled {
            Polled::Pending => Polled::Pending,
            Polled::Ready(Ok(a)) => Polled::Ready(Ok(match a.0 {
                Either::A(x) => x,
                Either::B(x) => x,
            })),
            Polled::Ready(Err(e)) => Polled::Ready(Err(e)),
        }
    }
}

} // verus!
