//! `MapAsync`: runs an asynchronous callback on what a filter extracts.
use vstd::prelude::*;
use crate::filter::and_then::ThenState;
use crate::filter::Polled;
use crate::reject::Rejection;

verus! {

/// A filter that hands what `filter` extracts to `callback`, whose future
/// gives the extracted value.
#[derive(Clone, Copy, Debug)]
pub struct MapAsync<T, F> {
    filter: T,
    callback: F,
}

impl<T, F> MapAsync<T, F> {
    /// The filter made of the given parts.
    pub fn new(filter: T, callback: F) -> (r: Self)
        ensures
            r.spec_filter() == filter,
            r.spec_callback() == callback,
    {
        MapAsync { filter, callback }
    }

    pub closed spec fn spec_filter(&self) -> T {
        self.filter
    }

    /// The filter run first.
    pub fn inner(&self) -> (r: &T)
        ensures
            *r == self.spec_filter(),
    {
        &self.filter
    }

    pub closed spec fn spec_callback(&self) -> F {
        self.callback
    }

    /// The callback applied to what it extracts.
    pub fn callback(&self) -> (r: &F)
        ensures
            *r == self.spec_callback(),
    {
        &self.callback
    }
    /// Starts filtering a request: the inner filter runs first.
    pub fn filter(&self) -> (f: MapAsyncFuture)
        ensures
            f.spec_state() is First,
    {
        MapAsyncFuture { state: ThenState::First }
    }
}

/// The outcome of a future that a `MapAsync` filter polled.
pub enum MapAsyncEvent<A, C> {
    /// What the inner filter's future gave.
    First(Polled<Result<A, Rejection>>),
    /// What the callback's future gave.
    Second(Polled<C>),
}

/// What happens next.
pub enum MapAsyncStep<A, C> {
    /// Nothing yet: poll the same future again later.
    Pending,
    /// The inner filter accepted: call the callback with these values and
    /// poll its future.
    Call(A),
    /// The filter is finished with this outcome.
    Ready(Result<(C,), Rejection>),
}

/// The future of a `MapAsync` filter.
pub struct MapAsyncFuture {
    state: ThenState,
}

impl MapAsyncFuture {
    pub closed spec fn spec_state(&self) -> ThenState {
        self.state
    }

    /// Takes what the current future gave and decides what follows: a
    /// rejection of the inner filter ends the filter with it; the
    /// callback's value is its one extracted value.
    pub fn poll<A, C>(&mut self, event: MapAsyncEvent<A, C>) -> (step: MapAsyncStep<A, C>)
        requires
            old(self).spec_state() is First ==> event is First,
            old(self).spec_state() is Second ==> event is Second,
            !(old(self).spec_state() is Done),
        ensures
            match event {
                MapAsyncEvent::First(Polled::Pending) | MapAsyncEvent::Second(Polled::Pending) => {
                    &&& step is Pending
                    &&& final(self).spec_state() == old(self).spec_state()
                },
                MapAsyncEvent::First(Polled::Ready(Ok(a))) => {
                    &&& step == MapAsyncStep::<A, C>::Call(a)
                    &&& final(self).spec_state() is Second
                },
                MapAsyncEvent::First(Polled::Ready(Err(e))) => {
                    &&& step == MapAsyncStep::<A, C>::Ready(Err(e))
                    &&& final(self).spec_state() is Done
                },
                MapAsyncEvent::Second(Polled::Ready(c)) => {
                    &&& step == MapAsyncStep::<A, C>::Ready(Ok((c,)))
                    &&& final(self).spec_state() is Done
                },
            },
    {
        match event {
            MapAsyncEvent::First(Polled::Pending) => MapAsyncStep::Pending,
            MapAsyncEvent::Second(Polled::Pending) => MapAsyncStep::Pending,
            MapAsyncEvent::First(Polled::Ready(Ok(a))) => {
                self.state = ThenState::Second;
                MapAsyncStep::Call(a)
            },
            MapAsyncEvent::First(Polled::Ready(Err(e))) => {
                self.state = ThenState::Done;
                MapAsyncStep::Ready(Err(e))
            },
            MapAsyncEvent::Second(Polled::Ready(c)) => {
                self.state = ThenState::Done;
                MapAsyncStep::Ready(Ok((c,)))
            },
        }
    }
}

} // verus!
