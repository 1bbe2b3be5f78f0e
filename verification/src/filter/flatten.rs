//! `Flatten`: runs the filter that an asynchronous callback chooses from
//! what another filter extracted.
use vstd::prelude::*;
use crate::filter::Polled;
use crate::reject::Rejection;

verus! {

/// A filter that hands what `filter` extracts to `callback`, whose future
/// gives the filter that then runs.
#[derive(Clone, Copy, Debug)]
pub struct Flatten<T, F> {
    filter: T,
    callback: F,
}

impl<T, F> Flatten<T, F> {
    /// The filter made of the given parts.
    pub fn new(filter: T, callback: F) -> (r: Self)
        ensures
            r.spec_filter() == filter,
            r.spec_callback() == callback,
    {
        Flatten { filter, callback }
    }

    pub closed spec fn spec_filter(&self) -> T {
        self.filter
    }

    /// The filter run first.
    pub fn inner(&self) -> (r: &T)
        ensures
            *r == self.spec_filter(),
    {
        &self.filter
    }

    pub closed spec fn spec_callback(&self) -> F {
        self.callback
    }

    /// The callback that chooses the next filter.
    pub fn callback(&self) -> (r: &F)
        ensures
            *r == self.spec_callback(),
    {
        &self.callback
    }
    /// Starts filtering a request: the inner filter runs first.
    pub fn filter(&self) -> (f: FlattenFuture)
        ensures
            f.spec_state() is First,
    {
        FlattenFuture { state: FlattenState::First }
    }
}

/// Where a `Flatten` filter stands.
pub enum FlattenState {
    /// Waiting for the inner filter.
    First,
    /// Waiting for the callback's future to give a filter.
    Second,
    /// Waiting for the filter the callback gave.
    Third,
    /// Finished.
    Done,
}

/// The outcome of a future that a `Flatten` filter polled.
pub enum FlattenEvent<A, C> {
    /// What the inner filter's future gave.
    First(Polled<Result<A, Rejection>>),
    /// Whether the callback's future has given a filter.
    Second(Polled<()>),
    /// What the chosen filter's future gave.
    Third(Polled<Result<C, Rejection>>),
}

/// What happens next.
pub enum FlattenStep<A, C> {
    /// Nothing yet: poll the same future again later.
    Pending,
    /// The inner filter accepted: call the callback with these values and
    /// poll its future.
    Call(A),
    /// The callback gave a filter: start it on the request and poll it.
    RunFilter,
    /// The filter is finished with this outcome.
    Ready(Result<C, Rejection>),
}

/// The future of a `Flatten` filter.
pub struct FlattenFuture {
    state: FlattenState,
}

impl FlattenFuture {
    pub closed spec fn spec_state(&self) -> FlattenState {
        self.state
    }

    /// Takes what the current future gave and decides what follows: a
    /// rejection of the inner or of the chosen filter ends the filter with
    /// it; what the chosen filter extracts is what this filter extracts.
    pub fn poll<A, C>(&mut self, event: FlattenEvent<A, C>) -> (step: FlattenStep<A, C>)
        requires
            old(self).spec_state() is First ==> event is First,
            old(self).spec_state() is Second ==> event is Second,
            old(self).spec_state() is Third ==> event is Third,
            !(old(self).spec_state() is Done),
        ensures
            match event {
                FlattenEvent::First(Polled::Pending) | FlattenEvent::Second(Polled::Pending)
                | FlattenEvent::Third(Polled::Pending) => {
                    &&& step is Pending
                    &&& final(self).spec_state() == old(self).spec_state()
                },
                FlattenEvent::First(Polled::Ready(Ok(a))) => {
                    &&& step == FlattenStep::<A, C>::Call(a)
                    &&& final(self).spec_state() is Second
                },
                FlattenEvent::Second(Polled::Ready(())) => {
                    &&& step is RunFilter
                    &&& final(self).spec_state() is Third
                },
                FlattenEvent::Third(Polled::Ready(Ok(c))) => {
                    &&& step == FlattenStep::<A, C>::Ready(Ok(c))
                    &&& final(self).spec_state() is Done
                },
                FlattenEvent::First(Polled::Ready(Err(e))) | FlattenEvent::Third(Polled::Ready(Err(e))) => {
                    &&& step == FlattenStep::<A, C>::Ready(Err(e))
                    &&& final(self).spec_state() is Done
                },
            },
    {
        match event {
            FlattenEvent::First(Polled::Pending) => FlattenStep::Pending,
            FlattenEvent::Second(Polled::Pending) => FlattenStep::Pending,
            FlattenEvent::Third(Polled::Pending) => FlattenStep::Pending,
            FlattenEvent::First(Polled::Ready(Ok(a))) => {
                self.state = FlattenState::Second;
                FlattenStep::Call(a)
            },
            FlattenEvent::First(Polled::Ready(Err(e))) => {
                self.state = FlattenState::Done;
                FlattenStep::Ready(Err(e))
            },
            FlattenEvent::Second(Polled::Ready(())) => {
                self.state = FlattenState::Third;
                FlattenStep::RunFilter
            },
            FlattenEvent::Third(Polled::Ready(Ok(c))) => {
                self.state = FlattenState::Done;
                FlattenStep::Ready(Ok(c))
            },
            FlattenEvent::Third(Polled::Ready(Err(e))) => {
                self.state = FlattenState::Done;
                FlattenStep::Ready(Err(e))
            },
        }
    }
}

} // verus!
