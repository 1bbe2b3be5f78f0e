//! Filter combinators: the decisions that composed filters make about a
//! request, stated over the outcomes of the filters they compose.
//!
//! A composed filter runs the futures of the filters it is made of; each
//! combinator here is the state machine that decides, from what the last
//! future it polled gave, what happens next.
use vstd::prelude::*;

pub mod and;
pub mod and_then;
pub mod flatten;
pub mod inject;
pub mod lift;
pub mod map;
pub mod map_async;
pub mod map_err;
pub mod method;
pub mod negate;
pub mod or;
pub mod paths;
pub mod recover;
pub mod service;
pub mod tuple;
pub mod tuple_all;
pub mod tuple_args;
pub mod unify;
pub mod unit;
pub mod untuple_one;
pub mod wrap;

use crate::filter::and::And;
use crate::filter::and_then::AndThen;
use crate::filter::map::MapFilter;
use crate::filter::map_err::MapErr;
use crate::filter::or::Or;
use crate::filter::wrap::Wrap;

verus! {

/// The filters: values that decide about requests. Each filter type says
/// what it decides in the methods of its own.
pub trait FilterBase {
}

/// Composable request filters.
pub trait Filter: FilterBase + Sized {
    /// Composes a new filter that requires both this and the other to
    /// filter a request, and joins what they extract.
    fn and<F>(self, other: F) -> (r: And<Self, F>)
        ensures
            r.spec_first() == self,
            r.spec_second() == other,
    {
        And::new(self, other)
    }

    /// Composes a new filter of either this or the other filter.
    fn or<F>(self, other: F) -> (r: Or<Self, F>)
        ensures
            r.spec_first() == self,
            r.spec_second() == other,
    {
        Or::new(self, other)
    }

    /// Composes this filter with a function receiving what it extracts.
    fn map<F>(self, fun: F) -> (r: MapFilter<Self, F>)
        ensures
            r.spec_filter() == self,
            r.spec_callback() == fun,
    {
        MapFilter::new(self, fun)
    }

    /// Composes this filter with an asynchronous function receiving what it
    /// extracts, which may reject.
    fn and_then<F>(self, fun: F) -> (r: AndThen<Self, F>)
        ensures
            r.spec_filter() == self,
            r.spec_callback() == fun,
    {
        AndThen::new(self, fun)
    }

    /// Maps the rejection of this filter through `fun`.
    fn map_err<F>(self, fun: F) -> (r: MapErr<Self, F>)
        ensures
            r.spec_filter() == self,
            r.spec_callback() == fun,
    {
        MapErr::new(self, fun)
    }

    /// Wraps this filter with `wrapper`.
    fn with<W: Wrap<Self>>(self, wrapper: W) -> (r: W::Wrapped)
        ensures
            wrapper.wraps(self, r),
    {
        wrapper.wrap(self)
    }
}

impl<T: FilterBase> Filter for T {
}

/// A filter that can be cloned.
pub trait FilterClone: Filter + Clone {
}

impl<T: Filter + Clone> FilterClone for T {
}

/// A filter whose extracted value is a reply.
pub trait FilterReplyBase: Filter {
    type Reply: crate::reply::Reply;
}

/// A filter whose extracted value is a reply.
pub trait FilterReply: FilterReplyBase {
}

impl<T: FilterReplyBase> FilterReply for T {
}

impl<T, U> FilterBase for And<T, U> {
}

impl<T, U> FilterBase for Or<T, U> {
}

impl<T, F> FilterBase for MapFilter<T, F> {
}

impl<T, F> FilterBase for AndThen<T, F> {
}

impl<T, F> FilterBase for MapErr<T, F> {
}

impl<T, F> FilterBase for crate::filter::flatten::Flatten<T, F> {
}

impl<T, V> FilterBase for crate::filter::inject::Inject<T, V> {
}

impl<T, F> FilterBase for crate::filter::map_async::MapAsync<T, F> {
}

impl<T, F> FilterBase for crate::filter::negate::Negate<T, F> {
}

impl<T, F> FilterBase for crate::filter::recover::Recover<T, F> {
}

impl<F> FilterBase for crate::filter::tuple_all::TupleAll<F> {
}

impl<F> FilterBase for crate::filter::tuple_args::TupleArgs<F> {
}

impl<F> FilterBase for crate::filter::unify::Unify<F> {
}

impl<F> FilterBase for crate::filter::unit::Unit<F> {
}

impl<F> FilterBase for crate::filter::untuple_one::UntupleOne<F> {
}

impl<F> FilterBase for crate::filters::cors::CorsFilter<F> {
}

impl<F> FilterBase for crate::filters::auth::basic::AuthFilter<F> {
}

impl<F> FilterBase for crate::filters::compression::WithCompression<F> {
}

impl<F> FilterBase for crate::filters::decompression::WithDecompression<F> {
}

impl<F> FilterBase for crate::filters::log::WithLog<F> {
}

impl<F> FilterBase for crate::filters::tracing::WithTrace<F> {
}

impl<T, F> FilterBase for crate::filters::ext::DataProvider<T, F> {
}

impl FilterBase for crate::filters::any::Any {
}

/// What polling a future gave: nothing yet, or its output.
pub enum Polled<T> {
    Pending,
    Ready(T),
}

} // verus!
