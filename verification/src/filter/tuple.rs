//! Heterogeneous lists built from `HCons` cells, the tuples they stand for,
//! and functions applied to such tuples.
use vstd::prelude::*;

verus! {

/// A cell of a heterogeneous list: an element and the rest of the list.
#[derive(Debug)]
pub struct HCons<H, T>(pub H, pub T);

/// A list of one element.
pub type Cons<T> = HCons<T, ()>;

/// The list of the one element `val`.
pub fn cons<T>(val: T) -> (r: Cons<T>)
    ensures
        r == HCons(val, ()),
{
    HCons(val, ())
}

/// Converts `HCons` lists (and `()`) into tuples.
pub trait HList {
    type Tuple;

    /// The tuple of the list's elements, in order.
    spec fn spec_flatten(self) -> Self::Tuple;

    fn flatten(self) -> (t: Self::Tuple)
        ensures
            t == self.spec_flatten(),
    ;
}

/// Converts tuples into `HCons` lists.
pub trait Tuple {
    type HList;

    /// The list of the tuple's elements, in order.
    spec fn spec_hlist(self) -> Self::HList;

    fn hlist(self) -> (h: Self::HList)
        ensures
            h == self.spec_hlist(),
    ;
}

/// Appends `HCons` lists.
pub trait Combine<T> {
    type Output;

    /// The elements of `self`, then those of `other`.
    spec fn spec_combine(self, other: T) -> Self::Output;

    fn combine(self, other: T) -> (r: Self::Output)
        ensures
            r == self.spec_combine(other),
    ;
}

/// A function applied to the arguments a tuple holds.
pub trait Func<Args> {
    type Output;

    /// Whether the function may be applied to `args`.
    spec fn func_requires(&self, args: Args) -> bool;

    /// Whether `output` is a possible result of applying it to `args`.
    spec fn func_ensures(&self, args: Args, output: Self::Output) -> bool;

    fn call(&self, args: Args) -> (r: Self::Output)
        requires
            self.func_requires(args),
        ensures
            self.func_ensures(args, r),
    ;
}

// ===== impl Combine =====

impl<T> Combine<T> for () {
    type Output = T;

    open spec fn spec_combine(self, other: T) -> T {
        other
    }

    fn combine(self, other: T) -> (r: T) {
        other
    }
}

impl<H, T, U> Combine<U> for HCons<H, T> where T: Combine<U> {
    type Output = HCons<H, <T as Combine<U>>::Output>;

    open spec fn spec_combine(self, other: U) -> HCons<H, <T as Combine<U>>::Output> {
        HCons(self.0, self.1.spec_combine(other))
    }

    fn combine(self, other: U) -> (r: HCons<H, <T as Combine<U>>::Output>) {
        let HCons(h, t) = self;
        HCons(h, t.combine(other))
    }
}

// ===== impl HList =====

impl HList for () {
    type Tuple = ();

    open spec fn spec_flatten(self) -> () {
        ()
    }

    fn flatten(self) -> (t: ()) {
    }
}

impl<T1> HList for Cons<T1> {
    type Tuple = (T1,);

    open spec fn spec_flatten(self) -> (T1,) {
        (self.0,)
    }

    fn flatten(self) -> (t: (T1,)) {
        (self.0,)
    }
}

impl<T1, T2> HList for HCons<T1, Cons<T2>> {
    type Tuple = (T1, T2);

    open spec fn spec_flatten(self) -> (T1, T2) {
        (self.0, self.1.0)
    }

    fn flatten(self) -> (t: (T1, T2)) {
        let HCons(a, HCons(b, ())) = self;
        (a, b)
    }
}

impl<T1, T2, T3> HList for HCons<T1, HCons<T2, Cons<T3>>> {
    type Tuple = (T1, T2, T3);

    open spec fn spec_flatten(self) -> (T1, T2, T3) {
        (self.0, self.1.0, self.1.1.0)
    }

    fn flatten(self) -> (t: (T1, T2, T3)) {
        let HCons(a, HCons(b, HCons(c, ()))) = self;
        (a, b, c)
    }
}

// ===== impl Tuple =====

impl Tuple for () {
    type HList = ();

    open spec fn spec_hlist(self) -> () {
        ()
    }

    fn hlist(self) -> (h: ()) {
    }
}

impl<T1> Tuple for (T1,) {
    type HList = Cons<T1>;

    open spec fn spec_hlist(self) -> Cons<T1> {
        HCons(self.0, ())
    }

    fn hlist(self) -> (h: Cons<T1>) {
        HCons(self.0, ())
    }
}

impl<T1, T2> Tuple for (T1, T2) {
    type HList = HCons<T1, Cons<T2>>;

    open spec fn spec_hlist(self) -> HCons<T1, Cons<T2>> {
        HCons(self.0, HCons(self.1, ()))
    }

    fn hlist(self) -> (h: HCons<T1, Cons<T2>>) {
        let (a, b) = self;
        HCons(a, HCons(b, ()))
    }
}

impl<T1, T2, T3> Tuple for (T1, T2, T3) {
    type HList = HCons<T1, HCons<T2, Cons<T3>>>;

    open spec fn spec_hlist(self) -> HCons<T1, HCons<T2, Cons<T3>>> {
        HCons(self.0, HCons(self.1, HCons(self.2, ())))
    }

    fn hlist(self) -> (h: HCons<T1, HCons<T2, Cons<T3>>>) {
        let (a, b, c) = self;
        HCons(a, HCons(b, HCons(c, ())))
    }
}

impl<T1, T2, T3, T4> Tuple for (T1, T2, T3, T4) {
    type HList = HCons<T1, HCons<T2, HCons<T3, Cons<T4>>>>;

    open spec fn spec_hlist(self) -> HCons<T1, HCons<T2, HCons<T3, Cons<T4>>>> {
        HCons(self.0, HCons(self.1, HCons(self.2, HCons(self.3, ()))))
    }

    fn hlist(self) -> (h: HCons<T1, HCons<T2, HCons<T3, Cons<T4>>>>) {
        let (a, b, c, d) = self;
        HCons(a, HCons(b, HCons(c, HCons(d, ()))))
    }
}

// ===== impl Func =====

impl<F: Fn() -> R, R> Func<()> for F {
    type Output = R;

    open spec fn func_requires(&self, args: ()) -> bool {
        call_requires(*self, ())
    }

    open spec fn func_ensures(&self, args: (), output: R) -> bool {
        call_ensures(*self, (), output)
    }

    fn call(&self, args: ()) -> (r: R) {
        (*self)()
    }
}

impl<F: Fn(A1) -> R, A1, R> Func<(A1,)> for F {
    type Output = R;

    open spec fn func_requires(&self, args: (A1,)) -> bool {
        call_requires(*self, (args.0,))
    }

    open spec fn func_ensures(&self, args: (A1,), output: R) -> bool {
        call_ensures(*self, (args.0,), output)
    }

    fn call(&self, args: (A1,)) -> (r: R) {
        (*self)(args.0)
    }
}

impl<F: Fn(A1, A2) -> R, A1, A2, R> Func<(A1, A2)> for F {
    type Output = R;

    open spec fn func_requires(&self, args: (A1, A2)) -> bool {
        call_requires(*self, (args.0, args.1))
    }

    open spec fn func_ensures(&self, args: (A1, A2), output: R) -> bool {
        call_ensures(*self, (args.0, args.1), output)
    }

    fn call(&self, args: (A1, A2)) -> (r: R) {
        let (a, b) = args;
        (*self)(a, b)
    }
}

impl<F: Fn(A1, A2, A3) -> R, A1, A2, A3, R> Func<(A1, A2, A3)> for F {
    type Output = R;

    open spec fn func_requires(&self, args: (A1, A2, A3)) -> bool {
        call_requires(*self, (args.0, args.1, args.2))
    }

    open spec fn func_ensures(&self, args: (A1, A2, A3), output: R) -> bool {
        call_ensures(*self, (args.0, args.1, args.2), output)
    }

    fn call(&self, args: (A1, A2, A3)) -> (r: R) {
        let (a, b, c) = args;
        (*self)(a, b, c)
    }
}

/// Turning a tuple of up to three elements into a list and back gives the
/// tuple.
pub proof fn lemma_round_trip<T1, T2, T3>(a: T1, b: T2, c: T3)
    ensures
        ().spec_hlist().spec_flatten() == (),
        (a,).spec_hlist().spec_flatten() == (a,),
        (a, b).spec_hlist().spec_flatten() == (a, b),
        (a, b, c).spec_hlist().spec_flatten() == (a, b, c),
{
}

} // verus!
