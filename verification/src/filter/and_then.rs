//! `AndThen`: runs an asynchronous callback on what a filter extracts; the
//! callback may reject the request.
use vstd::prelude::*;
use crate::filter::Polled;
use crate::reject::Rejection;

verus! {

/// A filter that hands what `filter` extracts to `callback`, whose future
/// gives the extracted value or a rejection.
#[derive(Clone, Copy, Debug)]
pub struct AndThen<T, F> {
    filter: T,
    callback: F,
}

impl<T, F> AndThen<T, F> {
    /// The filter made of the given parts.
    pub fn new(filter: T, callback: F) -> (r: Self)
        ensures
            r.spec_filter() == filter,
            r.spec_callback() == callback,
    {
        AndThen { filter, callback }
    }

    pub closed spec fn spec_filter(&self) -> T {
        self.filter
    }

    /// The filter run first.
    pub fn inner(&self) -> (r: &T)
        ensures
            *r == self.spec_filter(),
    {
        &self.filter
    }

    pub closed spec fn spec_callback(&self) -> F {
        self.callback
    }

    /// The callback applied to what it extracts.
    pub fn callback(&self) -> (r: &F)
        ensures
            *r == self.spec_callback(),
    {
        &self.callback
    }
    /// Starts filtering a request: the inner filter runs first.
    pub fn filter(&self) -> (f: AndThenFuture)
        ensures
            f.spec_state() is First,
    {
        AndThenFuture { state: ThenState::First }
    }
}

/// Where a filter that runs a callback after another filter stands.
pub enum ThenState {
    /// Waiting for the inner filter.
    First,
    /// Waiting for the callback's future.
    Second,
    /// Finished.
    Done,
}

/// The outcome of a future that an `AndThen` filter polled.
pub enum ThenEvent<A, C> {
    /// What the inner filter's future gave.
    First(Polled<Result<A, Rejection>>),
    /// What the callback's future gave.
    Second(Polled<Result<C, Rejection>>),
}

/// What happens next.
pub enum ThenStep<A, C> {
    /// Nothing yet: poll the same future again later.
    Pending,
    /// The inner filter accepted: call the callback with these values and
    /// poll its future.
    Call(A),
    /// The filter is finished with this outcome.
    Ready(Result<(C,), Rejection>),
}

/// The future of an `AndThen` filter.
pub struct AndThenFuture {
    state: ThenState,
}

impl AndThenFuture {
    pub closed spec fn spec_state(&self) -> ThenState {
        self.state
    }

    /// Takes what the current future gave and decides what follows: a
    /// rejection of the inner filter or of the callback ends the filter
    /// with it; the callback's value is its one extracted value.
    pub fn poll<A, C>(&mut self, event: ThenEvent<A, C>) -> (step: ThenStep<A, C>)
        requires
            old(self).spec_state() is First ==> event is First,
            old(self).spec_state() is Second ==> event is Second,
            !(old(self).spec_state() is Done),
        ensures
            match event {
                ThenEvent::First(Polled::Pending) | ThenEvent::Second(Polled::Pending) => {
                    &&& step is Pending
                    &&& final(self).spec_state() == old(self).spec_state()
                },
                ThenEvent::First(Polled::Ready(Ok(a))) => {
                    &&& step == ThenStep::<A, C>::Call(a)
                    &&& final(self).spec_state() is Second
                },
                ThenEvent::Second(Polled::Ready(Ok(c))) => {
                    &&& step == ThenStep::<A, C>::Ready(Ok((c,)))
                    &&& final(self).spec_state() is Done
                },
                ThenEvent::First(Polled::Ready(Err(e))) | ThenEvent::Second(Polled::Ready(Err(e))) => {
                    &&& step == ThenStep::<A, C>::Ready(Err(e))
                    &&& final(self).spec_state() is Done
                },
            },
    {
        match event {
            ThenEvent::First(Polled::Pending) => ThenStep::Pending,
            ThenEvent::Second(Polled::Pending) => ThenStep::Pending,
            ThenEvent::First(Polled::Ready(Ok(a))) => {
                self.state = ThenState::Second;
                ThenStep::Call(a)
            },
            ThenEvent::Second(Polled::Ready(Ok(c))) => {
                self.state = ThenState::Done;
                ThenStep::Ready(Ok((c,)))
            },
            ThenEvent::First(Polled::Ready(Err(e))) => {
                self.state = ThenState::Done;
                ThenStep::Ready(Err(e))
            },
            ThenEvent::Second(Polled::Ready(Err(e))) => {
                self.state = ThenState::Done;
                ThenStep::Ready(Err(e))
            },
        }
    }
}

} // verus!
