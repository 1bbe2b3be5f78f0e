//! A filter that matches any route.
use vstd::prelude::*;
use crate::filter::Polled;

verus! {

/// A filter that matches any route; it extracts nothing and never
/// rejects.
#[derive(Clone, Copy, Debug)]
pub struct Any;

/// The future of the `Any` filter.
#[derive(Clone, Copy, Debug)]
pub struct AnyFut;

/// A filter that matches any route.
pub fn any() -> (a: Any) {
    Any
}

impl Any {
    /// Starts filtering a request.
    pub fn filter(&self) -> (f: AnyFut) {
        AnyFut
    }
}

impl AnyFut {
    /// The outcome, ready at once: the request matched.
    pub fn poll(&self) -> (r: Polled<()>)
        ensures
            r == Polled::Ready(()),
    {
        Polled::Ready(())
    }
}

} // verus!
