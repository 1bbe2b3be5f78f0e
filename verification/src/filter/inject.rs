//! `Inject`: extracts a value of its own before what a filter extracts.
use vstd::prelude::*;
use crate::filter::Polled;
use crate::reject::Rejection;

verus! {

/// A filter that extracts `variable` before what `filter` extracts.
#[derive(Clone, Copy, Debug)]
pub struct Inject<T, V> {
    filter: T,
    variable: V,
}

impl<T, V> Inject<T, V> {
    /// The filter made of the given parts.
    pub fn new(filter: T, variable: V) -> (r: Self)
        ensures
            r.spec_filter() == filter,
            r.spec_variable() == variable,
    {
        Inject { filter, variable }
    }

    pub closed spec fn spec_filter(&self) -> T {
        self.filter
    }

    /// The inner filter.
    pub fn inner(&self) -> (r: &T)
        ensures
            *r == self.spec_filter(),
    {
        &self.filter
    }

    pub closed spec fn spec_variable(&self) -> V {
        self.variable
    }

    /// The value extracted first.
    pub fn variable(&self) -> (r: &V)
        ensures
            *r == self.spec_variable(),
    {
        &self.variable
    }

    /// Starts filtering a request with the inner filter.
    pub fn filter(&self) -> (f: InjectFuture<V>) where V: Clone
        ensures
            cloned::<V>(self.spec_variable(), f.spec_variable()),
    {
        InjectFuture { variable: self.variable.clone() }
    }
}

/// The future of an `Inject` filter.
pub struct InjectFuture<V> {
    variable: V,
}

impl<V> InjectFuture<V> {
    /// The value extracted first.
    pub closed spec fn spec_variable(&self) -> V {
        self.variable
    }

    pub fn poll<A>(&self, polled: Polled<Result<A, Rejection>>) -> (r: Polled<Result<(V, A), Rejection>>) where V: Clone
        ensures
            match polled {
                Polled::Pending => r is Pending,
                Polled::Ready(Ok(a)) => r matches Polled::Ready(Ok(x)) && x.1 == a && cloned::<V>(self.spec_variable(), x.0),
                Polled::Ready(Err(e)) => r == Polled::<Result<(V, A), Rejection>>::Ready(Err(e)),
            },
    {
        match polled {
            Polled::Pending => Polled::Pending,
            Polled::Ready(Ok(a)) => Polled::Ready(Ok((self.variable.clone(), a))),
            Polled::Ready(Err(e)) => Polled::Ready(Err(e)),
        }
    }
}

} // verus!
