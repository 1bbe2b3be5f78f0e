//! `And`: requires two filters to accept the request, and joins what they
//! extract.
use vstd::prelude::*;
use crate::filter::Polled;
use crate::generic::{combine, Combine, HList, Tuple};
use crate::reject::Rejection;

verus! {

/// A filter that requires both `first` and `second` to accept a request.
#[derive(Clone, Copy, Debug)]
pub struct And<T, U> {
    first: T,
    second: U,
}

/// Where an `And` filter stands.
pub enum AndState<A> {
    /// Waiting for the first filter.
    First,
    /// The first filter extracted the given values; waiting for the second.
    Second(A),
    /// Finished.
    Done,
}

/// The outcome of a future that the `And` filter polled.
pub enum AndEvent<A, B> {
    First(Polled<Result<A, Rejection>>),
    Second(Polled<Result<B, Rejection>>),
}

/// What happens next.
pub enum AndStep<C> {
    /// Nothing yet: poll the same future again later.
    Pending,
    /// The first filter accepted: start the second filter's future and poll
    /// it.
    PollSecond,
    /// The filter is finished with this outcome.
    Ready(Result<C, Rejection>),
}

/// The future of an `And` filter whose filters extract `A` and `B`.
pub struct AndFuture<A> {
    state: AndState<A>,
}

impl<T, U> And<T, U> {
    /// The filter that requires `first` and then `second`.
    pub fn new(first: T, second: U) -> (r: Self)
        ensures
            r.spec_first() == first,
            r.spec_second() == second,
    {
        And { first, second }
    }

    pub closed spec fn spec_first(&self) -> T {
        self.first
    }

    pub closed spec fn spec_second(&self) -> U {
        self.second
    }

    /// The filter run first.
    pub fn first(&self) -> (r: &T)
        ensures
            *r == self.spec_first(),
    {
        &self.first
    }

    /// The filter run when the first accepts.
    pub fn second(&self) -> (r: &U)
        ensures
            *r == self.spec_second(),
    {
        &self.second
    }

    /// Starts filtering a request: the first filter runs first.
    pub fn filter<A>(&self) -> (f: AndFuture<A>)
        ensures
            f.spec_state() is First,
    {
        AndFuture { state: AndState::First }
    }
}

impl<A> AndFuture<A> {
    pub closed spec fn spec_state(&self) -> AndState<A> {
        self.state
    }
}

impl<A: Tuple> AndFuture<A> {
    /// Takes what the current future gave and decides what follows: a
    /// rejection of either filter ends the filter with it; when both
    /// accept, their extracted tuples are joined into one.
    pub fn poll<B: Tuple>(&mut self, event: AndEvent<A, B>) -> (step: AndStep<
        <<A::HList as Combine<B::HList>>::Output as HList>::Tuple,
    >) where A::HList: Combine<B::HList>
        requires
            old(self).spec_state() is First ==> event is First,
            old(self).spec_state() is Second ==> event is Second,
            !(old(self).spec_state() is Done),
        ensures
            match event {
                AndEvent::First(Polled::Pending) | AndEvent::Second(Polled::Pending) => {
                    &&& step is Pending
                    &&& final(self).spec_state() == old(self).spec_state()
                },
                AndEvent::First(Polled::Ready(Ok(a))) => {
                    &&& step is PollSecond
                    &&& final(self).spec_state() == AndState::Second(a)
                },
                AndEvent::Second(Polled::Ready(Ok(b))) => {
                    &&& old(self).spec_state() matches AndState::Second(a) && step matches AndStep::Ready(Ok(c))
                        && c == a.spec_hlist().spec_combine(b.spec_hlist()).spec_flatten()
                    &&& final(self).spec_state() is Done
                },
                AndEvent::First(Polled::Ready(Err(e))) | AndEvent::Second(Polled::Ready(Err(e))) => {
                    &&& step matches AndStep::Ready(Err(r)) && r == e
                    &&& final(self).spec_state() is Done
                },
            },
    {
        match event {
            AndEvent::First(Polled::Pending) => AndStep::Pending,
            AndEvent::Second(Polled::Pending) => AndStep::Pending,
            AndEvent::First(Polled::Ready(Ok(a))) => {
                self.state = AndState::Second(a);
                AndStep::PollSecond
            },
            AndEvent::First(Polled::Ready(Err(e))) => {
                self.state = AndState::Done;
                AndStep::Ready(Err(e))
            },
            AndEvent::Second(Polled::Ready(Err(e))) => {
                self.state = AndState::Done;
                AndStep::Ready(Err(e))
            },
            AndEvent::Second(Polled::Ready(Ok(b))) => {
                let mut state = AndState::Done;
                std::mem::swap(&mut state, &mut self.state);
                match state {
                    AndState::Second(a) => AndStep::Ready(Ok(combine(a, b))),
                    _ => {
                        assert(false);
                        AndStep::Pending
                    },
                }
            },
        }
    }
}

} // verus!
