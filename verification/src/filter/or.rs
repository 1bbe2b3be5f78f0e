//! `Or`: tries a second filter when the first rejects the request.
use vstd::prelude::*;
use crate::filter::Polled;
use crate::generic::Either;
use crate::reject::{spec_combine, Rejection};
use crate::route::Route;

verus! {

/// A filter that tries `first`, and `second` if `first` rejects.
#[derive(Clone, Copy, Debug)]
pub struct Or<T, U> {
    first: T,
    second: U,
}

/// The matched path index of the route when an alternative began.
pub struct PathIndex(usize);

impl PathIndex {
    /// The remembered index.
    pub closed spec fn spec_index(&self) -> nat {
        self.0 as nat
    }

    /// Remembers where the route's path stands now.
    pub fn new(route: &Route) -> (p: PathIndex)
        ensures
            p.spec_index() == route.spec_index(),
    {
        PathIndex(route.matched_path_index())
    }

    /// Puts the route's path back where it stood when this was made: the
    /// next alternative sees the path that the failed one saw.
    pub fn reset_path(&self, route: &mut Route)
        requires
            self.spec_index() <= old(route).spec_index(),
        ensures
            final(route).same_request(old(route)),
            final(route).spec_index() == self.spec_index(),
    {
        route.reset_matched_path_index(self.0);
    }
}

/// Where an `Or` filter stands.
pub enum OrState {
    /// Waiting for the first filter.
    First,
    /// The first filter rejected with the given rejection; waiting for the
    /// second.
    Second(Rejection),
    /// Finished.
    Done,
}

/// The outcome of a future that the `Or` filter polled.
pub enum OrEvent<A, B> {
    /// What the first filter's future gave.
    First(Polled<Result<A, Rejection>>),
    /// What the second filter's future gave.
    Second(Polled<Result<B, Rejection>>),
}

/// What happens next.
pub enum OrStep<A, B> {
    /// Nothing yet: poll the same future again later.
    Pending,
    /// The first filter rejected: start the second filter's future and poll
    /// it.
    PollSecond,
    /// The filter is finished with this outcome.
    Ready(Result<Either<A, B>, Rejection>),
}

/// The future of an `Or` filter.
pub struct EitherFuture {
    state: OrState,
    start_path_index: PathIndex,
}

impl<T, U> Or<T, U> {
    /// The filter that tries `first`, and then `second`.
    pub fn new(first: T, second: U) -> (r: Self)
        ensures
            r.spec_first() == first,
            r.spec_second() == second,
    {
        Or { first, second }
    }

    pub closed spec fn spec_first(&self) -> T {
        self.first
    }

    pub closed spec fn spec_second(&self) -> U {
        self.second
    }

    /// The filter tried first.
    pub fn first(&self) -> (r: &T)
        ensures
            *r == self.spec_first(),
    {
        &self.first
    }

    /// The filter tried when the first rejects.
    pub fn second(&self) -> (r: &U)
        ensures
            *r == self.spec_second(),
    {
        &self.second
    }

    /// Starts filtering the request of `route`: the first filter runs first,
    /// and the position of the path is remembered for the second.
    pub fn filter(&self, route: &Route) -> (f: EitherFuture)
        ensures
            f.spec_state() is First,
            f.spec_start_index() == route.spec_index(),
    {
        EitherFuture { state: OrState::First, start_path_index: PathIndex::new(route) }
    }
}

impl EitherFuture {
    pub closed spec fn spec_state(&self) -> OrState {
        self.state
    }

    /// The matched path index when the filter began.
    pub closed spec fn spec_start_index(&self) -> nat {
        self.start_path_index.spec_index()
    }

    /// Takes what the current future gave and decides what follows. A
    /// rejection of the first filter restores the path and starts the
    /// second; a rejection of the second restores the path and ends with
    /// the combination of both rejections.
    pub fn poll<A, B>(&mut self, route: &mut Route, event: OrEvent<A, B>) -> (step: OrStep<A, B>)
        requires
            old(self).spec_state() is First ==> event is First,
            old(self).spec_state() is Second ==> event is Second,
            !(old(self).spec_state() is Done),
            old(self).spec_start_index() <= old(route).spec_index(),
        ensures
            final(self).spec_start_index() == old(self).spec_start_index(),
            match event {
                OrEvent::First(Polled::Pending) | OrEvent::Second(Polled::Pending) => {
                    &&& step is Pending
                    &&& final(self).spec_state() == old(self).spec_state()
                    &&& *final(route) == *old(route)
                },
                OrEvent::First(Polled::Ready(Ok(a))) => {
                    &&& step == OrStep::<A, B>::Ready(Ok(Either::A(a)))
                    &&& final(self).spec_state() is Done
                    &&& *final(route) == *old(route)
                },
                OrEvent::First(Polled::Ready(Err(e))) => {
                    &&& step is PollSecond
                    &&& final(self).spec_state() == OrState::Second(e)
                    &&& final(route).same_request(old(route))
                    &&& final(route).spec_index() == old(self).spec_start_index()
                },
                OrEvent::Second(Polled::Ready(Ok(b))) => {
                    &&& step == OrStep::<A, B>::Ready(Ok(Either::B(b)))
                    &&& final(self).spec_state() is Done
                    &&& *final(route) == *old(route)
                },
                OrEvent::Second(Polled::Ready(Err(e2))) => {
                    &&& old(self).spec_state() matches OrState::Second(e1) && step
                        == OrStep::<A, B>::Ready(Err(spec_combine(e2, e1)))
                    &&& final(self).spec_state() is Done
                    &&& final(route).same_request(old(route))
                    &&& final(route).spec_index() == old(self).spec_start_index()
                },
            },
    {
        match event {
            OrEvent::First(Polled::Pending) => OrStep::Pending,
            OrEvent::Second(Polled::Pending) => OrStep::Pending,
            OrEvent::First(Polled::Ready(Ok(a))) => {
                self.state = OrState::Done;
                OrStep::Ready(Ok(Either::A(a)))
            },
            OrEvent::First(Polled::Ready(Err(e))) => {
                self.start_path_index.reset_path(route);
                self.state = OrState::Second(e);
                OrStep::PollSecond
            },
            OrEvent::Second(Polled::Ready(Ok(b))) => {
                self.state = OrState::Done;
                OrStep::Ready(Ok(Either::B(b)))
            },
            OrEvent::Second(Polled::Ready(Err(e2))) => {
                self.start_path_index.reset_path(route);
                let mut state = OrState::Done;
                std::mem::swap(&mut state, &mut self.state);
                match state {
                    OrState::Second(e1) => OrStep::Ready(Err(e2.combine(e1))),
                    _ => {
                        assert(false);
                        OrStep::Pending
                    },
                }
            },
        }
    }
}

} // verus!
