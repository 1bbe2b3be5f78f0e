//! Functions that can be called, and cloned to be called elsewhere: what a
//! pool of blocking workers runs.
use vstd::prelude::*;

verus! {

/// A function of `A` to `R` that can be cloned.
pub trait FnClone<A, R>: Fn(A) -> R + Clone {
}

impl<F: Fn(A) -> R + Clone, A, R> FnClone<A, R> for F {
}

/// Calls `f` with `args` (what a worker does with each job).
pub fn call_clone<A, R, F: FnClone<A, R>>(f: &F, args: A) -> (r: R)
    requires
        call_requires(*f, (args,)),
    ensures
        call_ensures(*f, (args,), r),
{
    f(args)
}

} // verus!
