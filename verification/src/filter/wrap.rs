//! Wrapping filters: values that wrap a filter into another, such as a
//! `cors` configuration or a logger.
use vstd::prelude::*;

verus! {

/// Something that wraps a filter `F` into another filter.
pub trait Wrap<F> {
    type Wrapped;

    /// Whether `w` is `filter` wrapped by `self`.
    spec fn wraps(&self, filter: F, w: Self::Wrapped) -> bool;

    fn wrap(&self, filter: F) -> (w: Self::Wrapped)
        ensures
            self.wraps(filter, w),
    ;
}

impl<'a, T: Wrap<F>, F> Wrap<F> for &'a T {
    type Wrapped = T::Wrapped;

    open spec fn wraps(&self, filter: F, w: T::Wrapped) -> bool {
        (**self).wraps(filter, w)
    }

    fn wrap(&self, filter: F) -> (w: T::Wrapped) {
        (**self).wrap(filter)
    }
}

} // verus!
