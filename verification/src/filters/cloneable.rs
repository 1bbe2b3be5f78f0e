//! A filter that extracts a copy of a value.
use vstd::prelude::*;

verus! {

/// Extracts a clone of `value` for each request; never rejects.
pub fn with_cloneable<C: Clone>(value: &C) -> (r: (C,))
    ensures
        cloned::<C>(*value, r.0),
{
    (value.clone(),)
}

} // verus!
