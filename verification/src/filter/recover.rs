//! `Recover`: turns a rejection of a filter into a reply through a callback.
use vstd::prelude::*;
use crate::filter::or::PathIndex;
use crate::filter::Polled;
use crate::generic::Either;
use crate::reject::Rejection;
use crate::route::Route;

verus! {

/// A filter that hands a rejection of `filter` to `callback`, whose future
/// gives a value to extract in its place, or a rejection.
#[derive(Clone, Copy, Debug)]
pub struct Recover<T, F> {
    filter: T,
    callback: F,
}

impl<T, F> Recover<T, F> {
    /// The filter made of the given parts.
    pub fn new(filter: T, callback: F) -> (r: Self)
        ensures
            r.spec_filter() == filter,
            r.spec_callback() == callback,
    {
        Recover { filter, callback }
    }

    pub closed spec fn spec_filter(&self) -> T {
        self.filter
    }

    /// The filter run first.
    pub fn inner(&self) -> (r: &T)
        ensures
            *r == self.spec_filter(),
    {
        &self.filter
    }

    pub closed spec fn spec_callback(&self) -> F {
        self.callback
    }

    /// The callback applied to its rejection.
    pub fn callback(&self) -> (r: &F)
        ensures
            *r == self.spec_callback(),
    {
        &self.callback
    }
    /// Starts filtering the request of `route`: the inner filter runs
    /// first, and the position of the path is remembered.
    pub fn filter(&self, route: &Route) -> (f: RecoverFuture)
        ensures
            f.spec_state() is First,
            f.spec_start_index() == route.spec_index(),
    {
        RecoverFuture { state: RecoverState::First, start_path_index: PathIndex::new(route) }
    }
}

/// Where a `Recover` filter stands.
pub enum RecoverState {
    /// Waiting for the inner filter.
    First,
    /// Waiting for the callback's future.
    Second,
    /// Finished.
    Done,
}

/// The outcome of a future that a `Recover` filter polled.
pub enum RecoverEvent<A, C> {
    /// What the inner filter's future gave.
    First(Polled<Result<A, Rejection>>),
    /// What the callback's future gave.
    Second(Polled<Result<C, Rejection>>),
}

/// What happens next.
pub enum RecoverStep<A, C> {
    /// Nothing yet: poll the same future again later.
    Pending,
    /// The inner filter rejected: call the callback with the rejection and
    /// poll its future.
    Call(Rejection),
    /// The filter is finished with this outcome.
    Ready(Result<Either<A, (C,)>, Rejection>),
}

/// The future of a `Recover` filter.
pub struct RecoverFuture {
    state: RecoverState,
    start_path_index: PathIndex,
}

impl RecoverFuture {
    pub closed spec fn spec_state(&self) -> RecoverState {
        self.state
    }

    /// The matched path index when the filter began.
    pub closed spec fn spec_start_index(&self) -> nat {
        self.start_path_index.spec_index()
    }

    /// Takes what the current future gave and decides what follows: what
    /// the inner filter extracts passes; its rejection restores the path
    /// and goes to the callback, whose value passes in its place.
    pub fn poll<A, C>(&mut self, route: &mut Route, event: RecoverEvent<A, C>) -> (step: RecoverStep<A, C>)
        requires
            old(self).spec_state() is First ==> event is First,
            old(self).spec_state() is Second ==> event is Second,
            !(old(self).spec_state() is Done),
            old(self).spec_start_index() <= old(route).spec_index(),
        ensures
            final(self).spec_start_index() == old(self).spec_start_index(),
            match event {
                RecoverEvent::First(Polled::Pending) | RecoverEvent::Second(Polled::Pending) => {
                    &&& step is Pending
                    &&& final(self).spec_state() == old(self).spec_state()
                    &&& *final(route) == *old(route)
                },
                RecoverEvent::First(Polled::Ready(Ok(a))) => {
                    &&& step == RecoverStep::<A, C>::Ready(Ok(Either::A(a)))
                    &&& final(self).spec_state() is Done
                    &&& *final(route) == *old(route)
                },
                RecoverEvent::First(Polled::Ready(Err(e))) => {
                    &&& step == RecoverStep::<A, C>::Call(e)
                    &&& final(self).spec_state() is Second
                    &&& final(route).same_request(old(route))
                    &&& final(route).spec_index() == old(self).spec_start_index()
                },
                RecoverEvent::Second(Polled::Ready(Ok(c))) => {
                    &&& step == RecoverStep::<A, C>::Ready(Ok(Either::B((c,))))
                    &&& final(self).spec_state() is Done
                    &&& *final(route) == *old(route)
                },
                RecoverEvent::Second(Polled::Ready(Err(e))) => {
                    &&& step == RecoverStep::<A, C>::Ready(Err(e))
                    &&& final(self).spec_state() is Done
                    &&& *final(route) == *old(route)
                },
            },
    {
        match event {
            RecoverEvent::First(Polled::Pending) => RecoverStep::Pending,
            RecoverEvent::Second(Polled::Pending) => RecoverStep::Pending,
            RecoverEvent::First(Polled::Ready(Ok(a))) => {
                self.state = RecoverState::Done;
                RecoverStep::Ready(Ok(Either::A(a)))
            },
            RecoverEvent::First(Polled::Ready(Err(e))) => {
                self.start_path_index.reset_path(route);
                self.state = RecoverState::Second;
                RecoverStep::Call(e)
            },
            RecoverEvent::Second(Polled::Ready(Ok(c))) => {
                self.state = RecoverState::Done;
                RecoverStep::Ready(Ok(Either::B((c,))))
            },
            RecoverEvent::Second(Polled::Ready(Err(e))) => {
                self.state = RecoverState::Done;
                RecoverStep::Ready(Err(e))
            },
        }
    }
}

} // verus!
