//! Request Extensions
use vstd::prelude::*;
use crate::reject::{Known, Rejection};

verus! {

/// The rejection for a request that lacks an extension a filter needs.
pub fn missing_extension() -> (r: Rejection)
    ensures
        r == Rejection::Known(Known::MissingExtension),
{
    Rejection::Known(Known::MissingExtension)
}

/// Get a previously set extension of the current route, or reject with
/// `MissingExtension`.
pub fn get<T: Clone>(ext: Option<&T>) -> (r: Result<T, Rejection>)
    ensures
        match ext {
            Some(v) => r matches Ok(c) && cloned::<T>(*v, c),
            None => r == Err::<T, Rejection>(Rejection::Known(Known::MissingExtension)),
        },
{
    match ext {
        Some(v) => Ok(v.clone()),
        None => Err(missing_extension()),
    }
}

/// Get a previously set extension of the current route, if any.
pub fn optional<T: Clone>(ext: Option<&T>) -> (r: Option<T>)
    ensures
        match ext {
            Some(v) => r matches Some(c) && cloned::<T>(*v, c),
            None => r is None,
        },
{
    match ext {
        Some(v) => Some(v.clone()),
        None => None,
    }
}

/// Provide some data to the filter it wraps.
pub fn provide<T>(data: T) -> (p: Provider<T>)
    ensures
        p.spec_data() == data,
{
    Provider { data }
}

/// A wrapping filter that provides data to the filter it wraps.
#[derive(Clone, Debug)]
pub struct Provider<T> {
    data: T,
}

impl<T> Provider<T> {
    pub closed spec fn spec_data(&self) -> T {
        self.data
    }

    /// Wraps the filter `filter`.
    pub fn wrap<F>(&self, filter: F) -> (d: DataProvider<T, F>)
        where T: Clone
        ensures
            cloned::<T>(self.spec_data(), d.spec_data()),
            d.spec_next() == filter,
    {
        DataProvider { data: self.data.clone(), next: filter }
    }
}

/// A filter that stores its data among the request's extensions before the
/// filter it wraps runs.
#[derive(Clone, Debug)]
pub struct DataProvider<T, F> {
    data: T,
    next: F,
}

impl<T, F> DataProvider<T, F> {
    pub closed spec fn spec_data(&self) -> T {
        self.data
    }

    pub closed spec fn spec_next(&self) -> F {
        self.next
    }

    /// The data to store among the request's extensions, and the filter
    /// to run next.
    pub fn filter(&self) -> (r: (T, &F))
        where T: Clone
        ensures
            cloned::<T>(self.spec_data(), r.0),
            *r.1 == self.spec_next(),
    {
        (self.data.clone(), &self.next)
    }
}

impl<T: Clone, F> crate::filter::wrap::Wrap<F> for Provider<T> {
    type Wrapped = DataProvider<T, F>;

    open spec fn wraps(&self, filter: F, w: DataProvider<T, F>) -> bool {
        cloned::<T>(self.spec_data(), w.spec_data()) && w.spec_next() == filter
    }

    fn wrap(&self, filter: F) -> (w: DataProvider<T, F>) {
        Provider::wrap(self, filter)
    }
}

} // verus!
