//! A filter that extracts a copy of a variable.
use vstd::prelude::*;

verus! {

/// Extracts a clone of `var` for each request; never rejects.
pub fn with_var<T: Clone>(var: &T) -> (r: (T,))
    ensures
        cloned::<T>(*var, r.0),
{
    (var.clone(),)
}

} // verus!
