//! Generic values that filters extract: tuples, the inductive lists that
//! tuples are combined through, and functions applied to either.
use vstd::prelude::*;

verus! {

/// A statically-typed inductive list of mixed-type elements.
///
/// `Product` values form chains like `Product(1, Product(true, ()))`; the
/// elements need not have one type. `Product` implements `HList`, whose
/// `flatten` turns the chain into a tuple, and `Combine`, whose `combine`
/// appends two chains.
#[derive(Debug)]
pub struct Product<H, T: HList>(pub H, pub T);

/// A tuple of one element.
pub type One<T> = (T,);

/// The one-element tuple of `val`.
pub fn one<T>(val: T) -> (r: One<T>)
    ensures
        r == (val,),
{
    (val,)
}

/// One of two values: what the first of two filters produced, or what the
/// second produced.
#[derive(Debug)]
pub enum Either<T, U> {
    A(T),
    B(U),
}

/// `Product` chains that can be turned into a tuple.
pub trait HList: Sized {
    /// The tuple of the same elements (a `Tuple` whose chain is `Self`).
    type Tuple;

    /// The tuple of the chain's elements, in order.
    spec fn spec_flatten(self) -> Self::Tuple;

    /// Returns the tuple represented by `self`.
    fn flatten(self) -> (t: Self::Tuple)
        ensures
            t == self.spec_flatten(),
    ;
}

/// Tuples that can be turned into a `Product` chain.
pub trait Tuple: Sized {
    type HList: HList<Tuple = Self>;

    /// The chain of the tuple's elements, in order.
    spec fn spec_hlist(self) -> Self::HList;

    fn hlist(self) -> (h: Self::HList)
        ensures
            h == self.spec_hlist(),
    ;

    /// Turning a tuple into a chain and back gives the tuple.
    proof fn lemma_round_trip(self)
        ensures
            self.spec_hlist().spec_flatten() == self,
    ;

}

/// `Product` chains that can be appended to.
pub trait Combine<T: HList> {
    type Output: HList;

    /// The elements of `self`, then those of `other`.
    spec fn spec_combine(self, other: T) -> Self::Output;

    fn combine(self, other: T) -> (r: Self::Output)
        ensures
            r == self.spec_combine(other),
    ;
}

/// A function that can take its arguments from an `Args` value: a tuple
/// or `Product` chain of its arguments, or a `Rejection`.
pub trait Func<Args> {
    type Output;

    /// Whether the function may be applied to `args`.
    spec fn func_requires(&self, args: Args) -> bool;

    /// Whether `output` is a possible result of applying it to `args`.
    spec fn func_ensures(&self, args: Args, output: Self::Output) -> bool;

    /// Applies the function to the arguments that `args` holds.
    fn call(&self, args: Args) -> (r: Self::Output)
        requires
            self.func_requires(args),
        ensures
            self.func_ensures(args, r),
    ;
}

/// The tuple of the elements of `a`, then those of `b` (`Tuple::combine`).
pub fn combine<A: Tuple, B: Tuple>(a: A, b: B) -> (r: <<A::HList as Combine<B::HList>>::Output as HList>::Tuple) where
    A::HList: Combine<B::HList>,
    ensures
        r == a.spec_hlist().spec_combine(b.spec_hlist()).spec_flatten(),
{
    a.hlist().combine(b.hlist()).flatten()
}

// ===== impl Combine =====

impl<T: HList> Combine<T> for () {
    type Output = T;

    open spec fn spec_combine(self, other: T) -> T {
        other
    }

    fn combine(self, other: T) -> (r: T) {
        other
    }
}

impl<H, T: HList, U: HList> Combine<U> for Product<H, T> where
    T: Combine<U>,
    Product<H, <T as Combine<U>>::Output>: HList,
 {
    type Output = Product<H, <T as Combine<U>>::Output>;

    open spec fn spec_combine(self, other: U) -> Product<H, <T as Combine<U>>::Output> {
        Product(self.0, self.1.spec_combine(other))
    }

    fn combine(self, other: U) -> (r: Product<H, <T as Combine<U>>::Output>) {
        let Product(h, t) = self;
        Product(h, t.combine(other))
    }
}

impl HList for () {
    type Tuple = ();

    open spec fn spec_flatten(self) -> () {
        ()
    }

    fn flatten(self) -> (t: ()) {
    }
}

impl Tuple for () {
    type HList = ();

    open spec fn spec_hlist(self) -> () {
        ()
    }

    fn hlist(self) -> (h: ()) {
    }

    proof fn lemma_round_trip(self) {
    }
}

impl<F: Fn() -> R, R> Func<()> for F {
    type Output = R;

    open spec fn func_requires(&self, args: ()) -> bool {
        call_requires(*self, ())
    }

    open spec fn func_ensures(&self, args: (), output: R) -> bool {
        call_ensures(*self, (), output)
    }

    fn call(&self, args: ()) -> (r: R) {
        (*self)()
    }
}

impl<F: Fn(crate::reject::Rejection) -> R, R> Func<crate::reject::Rejection> for F {
    type Output = R;

    open spec fn func_requires(&self, args: crate::reject::Rejection) -> bool {
        call_requires(*self, (args,))
    }

    open spec fn func_ensures(&self, args: crate::reject::Rejection, output: R) -> bool {
        call_ensures(*self, (args,), output)
    }

    fn call(&self, args: crate::reject::Rejection) -> (r: R) {
        (*self)(args)
    }
}

// ===== Chains and tuples of one to sixteen elements =====

impl<T1> HList for Product<T1, ()> {
    type Tuple = (T1,);

    open spec fn spec_flatten(self) -> (T1,) {
        (self.0,)
    }

    fn flatten(self) -> (t: (T1,)) {
        let Product(x1, ()) = self;
        (x1,)
    }
}

impl<T1> Tuple for (T1,) {
    type HList = Product<T1, ()>;

    open spec fn spec_hlist(self) -> Product<T1, ()> {
        Product(self.0, ())
    }

    fn hlist(self) -> (h: Product<T1, ()>) {
        let (x1,) = self;
        Product(x1, ())
    }

    proof fn lemma_round_trip(self) {
    }
}

impl<F: Fn(T1) -> R, R, T1> Func<Product<T1, ()>> for F {
    type Output = R;

    open spec fn func_requires(&self, args: Product<T1, ()>) -> bool {
        call_requires(*self, (args.0,))
    }

    open spec fn func_ensures(&self, args: Product<T1, ()>, output: R) -> bool {
        call_ensures(*self, (args.0,), output)
    }

    fn call(&self, args: Product<T1, ()>) -> (r: R) {
        let Product(x1, ()) = args;
        (*self)(x1)
    }
}

impl<F: Fn(T1) -> R, R, T1> Func<(T1,)> for F {
    type Output = R;

    open spec fn func_requires(&self, args: (T1,)) -> bool {
        call_requires(*self, (args.0,))
    }

    open spec fn func_ensures(&self, args: (T1,), output: R) -> bool {
        call_ensures(*self, (args.0,), output)
    }

    fn call(&self, args: (T1,)) -> (r: R) {
        let (x1,) = args;
        (*self)(x1)
    }
}

impl<T1, T2> HList for Product<T1, Product<T2, ()>> {
    type Tuple = (T1, T2);

    open spec fn spec_flatten(self) -> (T1, T2) {
        (self.0, self.1.0)
    }

    fn flatten(self) -> (t: (T1, T2)) {
        let Product(x1, Product(x2, ())) = self;
        (x1, x2)
    }
}

impl<T1, T2> Tuple for (T1, T2) {
    type HList = Product<T1, Product<T2, ()>>;

    open spec fn spec_hlist(self) -> Product<T1, Product<T2, ()>> {
        Product(self.0, Product(self.1, ()))
    }

    fn hlist(self) -> (h: Product<T1, Product<T2, ()>>) {
        let (x1, x2) = self;
        Product(x1, Product(x2, ()))
    }

    proof fn lemma_round_trip(self) {
    }
}

impl<F: Fn(T1, T2) -> R, R, T1, T2> Func<Product<T1, Product<T2, ()>>> for F {
    type Output = R;

    open spec fn func_requires(&self, args: Product<T1, Product<T2, ()>>) -> bool {
        call_requires(*self, (args.0, args.1.0,))
    }

    open spec fn func_ensures(&self, args: Product<T1, Product<T2, ()>>, output: R) -> bool {
        call_ensures(*self, (args.0, args.1.0,), output)
    }

    fn call(&self, args: Product<T1, Product<T2, ()>>) -> (r: R) {
        let Product(x1, Product(x2, ())) = args;
        (*self)(x1, x2)
    }
}

impl<F: Fn(T1, T2) -> R, R, T1, T2> Func<(T1, T2)> for F {
    type Output = R;

    open spec fn func_requires(&self, args: (T1, T2)) -> bool {
        call_requires(*self, (args.0, args.1,))
    }

    open spec fn func_ensures(&self, args: (T1, T2), output: R) -> bool {
        call_ensures(*self, (args.0, args.1,), output)
    }

    fn call(&self, args: (T1, T2)) -> (r: R) {
        let (x1, x2) = args;
        (*self)(x1, x2)
    }
}

impl<T1, T2, T3> HList for Product<T1, Product<T2, Product<T3, ()>>> {
    type Tuple = (T1, T2, T3);

    open spec fn spec_flatten(self) -> (T1, T2, T3) {
        (self.0, self.1.0, self.1.1.0)
    }

    fn flatten(self) -> (t: (T1, T2, T3)) {
        let Product(x1, Product(x2, Product(x3, ()))) = self;
        (x1, x2, x3)
    }
}

impl<T1, T2, T3> Tuple for (T1, T2, T3) {
    type HList = Product<T1, Product<T2, Product<T3, ()>>>;

    open spec fn spec_hlist(self) -> Product<T1, Product<T2, Product<T3, ()>>> {
        Product(self.0, Product(self.1, Product(self.2, ())))
    }

    fn hlist(self) -> (h: Product<T1, Product<T2, Product<T3, ()>>>) {
        let (x1, x2, x3) = self;
        Product(x1, Product(x2, Product(x3, ())))
    }

    proof fn lemma_round_trip(self) {
    }
}

impl<F: Fn(T1, T2, T3) -> R, R, T1, T2, T3> Func<Product<T1, Product<T2, Product<T3, ()>>>> for F {
    type Output = R;

    open spec fn func_requires(&self, args: Product<T1, Product<T2, Product<T3, ()>>>) -> bool {
        call_requires(*self, (args.0, args.1.0, args.1.1.0,))
    }

    open spec fn func_ensures(&self, args: Product<T1, Product<T2, Product<T3, ()>>>, output: R) -> bool {
        call_ensures(*self, (args.0, args.1.0, args.1.1.0,), output)
    }

    fn call(&self, args: Product<T1, Product<T2, Product<T3, ()>>>) -> (r: R) {
        let Product(x1, Product(x2, Product(x3, ()))) = args;
        (*self)(x1, x2, x3)
    }
}

impl<F: Fn(T1, T2, T3) -> R, R, T1, T2, T3> Func<(T1, T2, T3)> for F {
    type Output = R;

    open spec fn func_requires(&self, args: (T1, T2, T3)) -> bool {
        call_requires(*self, (args.0, args.1, args.2,))
    }

    open spec fn func_ensures(&self, args: (T1, T2, T3), output: R) -> bool {
        call_ensures(*self, (args.0, args.1, args.2,), output)
    }

    fn call(&self, args: (T1, T2, T3)) -> (r: R) {
        let (x1, x2, x3) = args;
        (*self)(x1, x2, x3)
    }
}

impl<T1, T2, T3, T4> HList for Product<T1, Product<T2, Product<T3, Product<T4, ()>>>> {
    type Tuple = (T1, T2, T3, T4);

    open spec fn spec_flatten(self) -> (T1, T2, T3, T4) {
        (self.0, self.1.0, self.1.1.0, self.1.1.1.0)
    }

    fn flatten(self) -> (t: (T1, T2, T3, T4)) {
        let Product(x1, Product(x2, Product(x3, Product(x4, ())))) = self;
        (x1, x2, x3, x4)
    }
}

impl<T1, T2, T3, T4> Tuple for (T1, T2, T3, T4) {
    type HList = Product<T1, Product<T2, Product<T3, Product<T4, ()>>>>;

    open spec fn spec_hlist(self) -> Product<T1, Product<T2, Product<T3, Product<T4, ()>>>> {
        Product(self.0, Product(self.1, Product(self.2, Product(self.3, ()))))
    }

    fn hlist(self) -> (h: Product<T1, Product<T2, Product<T3, Product<T4, ()>>>>) {
        let (x1, x2, x3, x4) = self;
        Product(x1, Product(x2, Product(x3, Product(x4, ()))))
    }

    proof fn lemma_round_trip(self) {
    }
}

impl<F: Fn(T1, T2, T3, T4) -> R, R, T1, T2, T3, T4> Func<Product<T1, Product<T2, Product<T3, Product<T4, ()>>>>> for F {
    type Output = R;

    open spec fn func_requires(&self, args: Product<T1, Product<T2, Product<T3, Product<T4, ()>>>>) -> bool {
        call_requires(*self, (args.0, args.1.0, args.1.1.0, args.1.1.1.0,))
    }

    open spec fn func_ensures(&self, args: Product<T1, Product<T2, Product<T3, Product<T4, ()>>>>, output: R) -> bool {
        call_ensures(*self, (args.0, args.1.0, args.1.1.0, args.1.1.1.0,), output)
    }

    fn call(&self, args: Product<T1, Product<T2, Product<T3, Product<T4, ()>>>>) -> (r: R) {
        let Product(x1, Product(x2, Product(x3, Product(x4, ())))) = args;
        (*self)(x1, x2, x3, x4)
    }
}

impl<F: Fn(T1, T2, T3, T4) -> R, R, T1, T2, T3, T4> Func<(T1, T2, T3, T4)> for F {
    type Output = R;

    open spec fn func_requires(&self, args: (T1, T2, T3, T4)) -> bool {
        call_requires(*self, (args.0, args.1, args.2, args.3,))
    }

    open spec fn func_ensures(&self, args: (T1, T2, T3, T4), output: R) -> bool {
        call_ensures(*self, (args.0, args.1, args.2, args.3,), output)
    }

    fn call(&self, args: (T1, T2, T3, T4)) -> (r: R) {
        let (x1, x2, x3, x4) = args;
        (*self)(x1, x2, x3, x4)
    }
}

impl<T1, T2, T3, T4, T5> HList for Product<T1, Product<T2, Product<T3, Product<T4, Product<T5, ()>>>>> {
    type Tuple = (T1, T2, T3, T4, T5);

    open spec fn spec_flatten(self) -> (T1, T2, T3, T4, T5) {
        (self.0, self.1.0, self.1.1.0, self.1.1.1.0, self.1.1.1.1.0)
    }

    fn flatten(self) -> (t: (T1, T2, T3, T4, T5)) {
        let Product(x1, Product(x2, Product(x3, Product(x4, Product(x5, ()))))) = self;
        (x1, x2, x3, x4, x5)
    }
}

impl<T1, T2, T3, T4, T5> Tuple for (T1, T2, T3, T4, T5) {
    type HList = Product<T1, Product<T2, Product<T3, Product<T4, Product<T5, ()>>>>>;

    open spec fn spec_hlist(self) -> Product<T1, Product<T2, Product<T3, Product<T4, Product<T5, ()>>>>> {
        Product(self.0, Product(self.1, Product(self.2, Product(self.3, Product(self.4, ())))))
    }

    fn hlist(self) -> (h: Product<T1, Product<T2, Product<T3, Product<T4, Product<T5, ()>>>>>) {
        let (x1, x2, x3, x4, x5) = self;
        Product(x1, Product(x2, Product(x3, Product(x4, Product(x5, ())))))
    }

    proof fn lemma_round_trip(self) {
    }
}

impl<F: Fn(T1, T2, T3, T4, T5) -> R, R, T1, T2, T3, T4, T5> Func<Product<T1, Product<T2, Product<T3, Product<T4, Product<T5, ()>>>>>> for F {
    type Output = R;

    open spec fn func_requires(&self, args: Product<T1, Product<T2, Product<T3, Product<T4, Product<T5, ()>>>>>) -> bool {
        call_requires(*self, (args.0, args.1.0, args.1.1.0, args.1.1.1.0, args.1.1.1.1.0,))
    }

    open spec fn func_ensures(&self, args: Product<T1, Product<T2, Product<T3, Product<T4, Product<T5, ()>>>>>, output: R) -> bool {
        call_ensures(*self, (args.0, args.1.0, args.1.1.0, args.1.1.1.0, args.1.1.1.1.0,), output)
    }

    fn call(&self, args: Product<T1, Product<T2, Product<T3, Product<T4, Product<T5, ()>>>>>) -> (r: R) {
        let Product(x1, Product(x2, Product(x3, Product(x4, Product(x5, ()))))) = args;
        (*self)(x1, x2, x3, x4, x5)
    }
}

impl<F: Fn(T1, T2, T3, T4, T5) -> R, R, T1, T2, T3, T4, T5> Func<(T1, T2, T3, T4, T5)> for F {
    type Output = R;

    open spec fn func_requires(&self, args: (T1, T2, T3, T4, T5)) -> bool {
        call_requires(*self, (args.0, args.1, args.2, args.3, args.4,))
    }

    open spec fn func_ensures(&self, args: (T1, T2, T3, T4, T5), output: R) -> bool {
        call_ensures(*self, (args.0, args.1, args.2, args.3, args.4,), output)
    }

    fn call(&self, args: (T1, T2, T3, T4, T5)) -> (r: R) {
        let (x1, x2, x3, x4, x5) = args;
        (*self)(x1, x2, x3, x4, x5)
    }
}

impl<T1, T2, T3, T4, T5, T6> HList for Product<T1, Product<T2, Product<T3, Product<T4, Product<T5, Product<T6, ()>>>>>> {
    type Tuple = (T1, T2, T3, T4, T5, T6);

    open spec fn spec_flatten(self) -> (T1, T2, T3, T4, T5, T6) {
        (self.0, self.1.0, self.1.1.0, self.1.1.1.0, self.1.1.1.1.0, self.1.1.1.1.1.0)
    }

    fn flatten(self) -> (t: (T1, T2, T3, T4, T5, T6)) {
        let Product(x1, Product(x2, Product(x3, Product(x4, Product(x5, Product(x6, ())))))) = self;
        (x1, x2, x3, x4, x5, x6)
    }
}

impl<T1, T2, T3, T4, T5, T6> Tuple for (T1, T2, T3, T4, T5, T6) {
    type HList = Product<T1, Product<T2, Product<T3, Product<T4, Product<T5, Product<T6, ()>>>>>>;

    open spec fn spec_hlist(self) -> Product<T1, Product<T2, Product<T3, Product<T4, Product<T5, Product<T6, ()>>>>>> {
        Product(self.0, Product(self.1, Product(self.2, Product(self.3, Product(self.4, Product(self.5, ()))))))
    }

    fn hlist(self) -> (h: Product<T1, Product<T2, Product<T3, Product<T4, Product<T5, Product<T6, ()>>>>>>) {
        let (x1, x2, x3, x4, x5, x6) = self;
        Product(x1, Product(x2, Product(x3, Product(x4, Product(x5, Product(x6, ()))))))
    }

    proof fn lemma_round_trip(self) {
    }
}

impl<F: Fn(T1, T2, T3, T4, T5, T6) -> R, R, T1, T2, T3, T4, T5, T6> Func<Product<T1, Product<T2, Product<T3, Product<T4, Product<T5, Product<T6, ()>>>>>>> for F {
    type Output = R;

    open spec fn func_requires(&self, args: Product<T1, Product<T2, Product<T3, Product<T4, Product<T5, Product<T6, ()>>>>>>) -> bool {
        call_requires(*self, (args.0, args.1.0, args.1.1.0, args.1.1.1.0, args.1.1.1.1.0, args.1.1.1.1.1.0,))
    }

    open spec fn func_ensures(&self, args: Product<T1, Product<T2, Product<T3, Product<T4, Product<T5, Product<T6, ()>>>>>>, output: R) -> bool {
        call_ensures(*self, (args.0, args.1.0, args.1.1.0, args.1.1.1.0, args.1.1.1.1.0, args.1.1.1.1.1.0,), output)
    }

    fn call(&self, args: Product<T1, Product<T2, Product<T3, Product<T4, Product<T5, Product<T6, ()>>>>>>) -> (r: R) {
        let Product(x1, Product(x2, Product(x3, Product(x4, Product(x5, Product(x6, ())))))) = args;
        (*self)(x1, x2, x3, x4, x5, x6)
    }
}

impl<F: Fn(T1, T2, T3, T4, T5, T6) -> R, R, T1, T2, T3, T4, T5, T6> Func<(T1, T2, T3, T4, T5, T6)> for F {
    type Output = R;

    open spec fn func_requires(&self, args: (T1, T2, T3, T4, T5, T6)) -> bool {
        call_requires(*self, (args.0, args.1, args.2, args.3, args.4, args.5,))
    }

    open spec fn func_ensures(&self, args: (T1, T2, T3, T4, T5, T6), output: R) -> bool {
        call_ensures(*self, (args.0, args.1, args.2, args.3, args.4, args.5,), output)
    }

    fn call(&self, args: (T1, T2, T3, T4, T5, T6)) -> (r: R) {
        let (x1, x2, x3, x4, x5, x6) = args;
        (*self)(x1, x2, x3, x4, x5, x6)
    }
}

impl<T1, T2, T3, T4, T5, T6, T7> HList for Product<T1, Product<T2, Product<T3, Product<T4, Product<T5, Product<T6, Product<T7, ()>>>>>>> {
    type Tuple = (T1, T2, T3, T4, T5, T6, T7);

    open spec fn spec_flatten(self) -> (T1, T2, T3, T4, T5, T6, T7) {
        (self.0, self.1.0, self.1.1.0, self.1.1.1.0, self.1.1.1.1.0, self.1.1.1.1.1.0, self.1.1.1.1.1.1.0)
    }

    fn flatten(self) -> (t: (T1, T2, T3, T4, T5, T6, T7)) {
        let Product(x1, Product(x2, Product(x3, Product(x4, Product(x5, Product(x6, Product(x7, ()))))))) = self;
        (x1, x2, x3, x4, x5, x6, x7)
    }
}

impl<T1, T2, T3, T4, T5, T6, T7> Tuple for (T1, T2, T3, T4, T5, T6, T7) {
    type HList = Product<T1, Product<T2, Product<T3, Product<T4, Product<T5, Product<T6, Product<T7, ()>>>>>>>;

    open spec fn spec_hlist(self) -> Product<T1, Product<T2, Product<T3, Product<T4, Product<T5, Product<T6, Product<T7, ()>>>>>>> {
        Product(self.0, Product(self.1, Product(self.2, Product(self.3, Product(self.4, Product(self.5, Product(self.6, ())))))))
    }

    fn hlist(self) -> (h: Product<T1, Product<T2, Product<T3, Product<T4, Product<T5, Product<T6, Product<T7, ()>>>>>>>) {
        let (x1, x2, x3, x4, x5, x6, x7) = self;
        Product(x1, Product(x2, Product(x3, Product(x4, Product(x5, Product(x6, Product(x7, ())))))))
    }

    proof fn lemma_round_trip(self) {
    }
}

impl<F: Fn(T1, T2, T3, T4, T5, T6, T7) -> R, R, T1, T2, T3, T4, T5, T6, T7> Func<Product<T1, Product<T2, Product<T3, Product<T4, Product<T5, Product<T6, Product<T7, ()>>>>>>>> for F {
    type Output = R;

    open spec fn func_requires(&self, args: Product<T1, Product<T2, Product<T3, Product<T4, Product<T5, Product<T6, Product<T7, ()>>>>>>>) -> bool {
        call_requires(*self, (args.0, args.1.0, args.1.1.0, args.1.1.1.0, args.1.1.1.1.0, args.1.1.1.1.1.0, args.1.1.1.1.1.1.0,))
    }

    open spec fn func_ensures(&self, args: Product<T1, Product<T2, Product<T3, Product<T4, Product<T5, Product<T6, Product<T7, ()>>>>>>>, output: R) -> bool {
        call_ensures(*self, (args.0, args.1.0, args.1.1.0, args.1.1.1.0, args.1.1.1.1.0, args.1.1.1.1.1.0, args.1.1.1.1.1.1.0,), output)
    }

    fn call(&self, args: Product<T1, Product<T2, Product<T3, Product<T4, Product<T5, Product<T6, Product<T7, ()>>>>>>>) -> (r: R) {
        let Product(x1, Product(x2, Product(x3, Product(x4, Product(x5, Product(x6, Product(x7, ()))))))) = args;
        (*self)(x1, x2, x3, x4, x5, x6, x7)
    }
}

impl<F: Fn(T1, T2, T3, T4, T5, T6, T7) -> R, R, T1, T2, T3, T4, T5, T6, T7> Func<(T1, T2, T3, T4, T5, T6, T7)> for F {
    type Output = R;

    open spec fn func_requires(&self, args: (T1, T2, T3, T4, T5, T6, T7)) -> bool {
        call_requires(*self, (args.0, args.1, args.2, args.3, args.4, args.5, args.6,))
    }

    open spec fn func_ensures(&self, args: (T1, T2, T3, T4, T5, T6, T7), output: R) -> bool {
        call_ensures(*self, (args.0, args.1, args.2, args.3, args.4, args.5, args.6,), output)
    }

    fn call(&self, args: (T1, T2, T3, T4, T5, T6, T7)) -> (r: R) {
        let (x1, x2, x3, x4, x5, x6, x7) = args;
        (*self)(x1, x2, x3, x4, x5, x6, x7)
    }
}

impl<T1, T2, T3, T4, T5, T6, T7, T8> HList for Product<T1, Product<T2, Product<T3, Product<T4, Product<T5, Product<T6, Product<T7, Product<T8, ()>>>>>>>> {
    type Tuple = (T1, T2, T3, T4, T5, T6, T7, T8);

    open spec fn spec_flatten(self) -> (T1, T2, T3, T4, T5, T6, T7, T8) {
        (self.0, self.1.0, self.1.1.0, self.1.1.1.0, self.1.1.1.1.0, self.1.1.1.1.1.0, self.1.1.1.1.1.1.0, self.1.1.1.1.1.1.1.0)
    }

    fn flatten(self) -> (t: (T1, T2, T3, T4, T5, T6, T7, T8)) {
        let Product(x1, Product(x2, Product(x3, Product(x4, Product(x5, Product(x6, Product(x7, Product(x8, ())))))))) = self;
        (x1, x2, x3, x4, x5, x6, x7, x8)
    }
}

impl<T1, T2, T3, T4, T5, T6, T7, T8> Tuple for (T1, T2, T3, T4, T5, T6, T7, T8) {
    type HList = Product<T1, Product<T2, Product<T3, Product<T4, Product<T5, Product<T6, Product<T7, Product<T8, ()>>>>>>>>;

    open spec fn spec_hlist(self) -> Product<T1, Product<T2, Product<T3, Product<T4, Product<T5, Product<T6, Product<T7, Product<T8, ()>>>>>>>> {
        Product(self.0, Product(self.1, Product(self.2, Product(self.3, Product(self.4, Product(self.5, Product(self.6, Product(self.7, ()))))))))
    }

    fn hlist(self) -> (h: Product<T1, Product<T2, Product<T3, Product<T4, Product<T5, Product<T6, Product<T7, Product<T8, ()>>>>>>>>) {
        let (x1, x2, x3, x4, x5, x6, x7, x8) = self;
        Product(x1, Product(x2, Product(x3, Product(x4, Product(x5, Product(x6, Product(x7, Product(x8, ()))))))))
    }

    proof fn lemma_round_trip(self) {
    }
}

impl<F: Fn(T1, T2, T3, T4, T5, T6, T7, T8) -> R, R, T1, T2, T3, T4, T5, T6, T7, T8> Func<Product<T1, Product<T2, Product<T3, Product<T4, Product<T5, Product<T6, Product<T7, Product<T8, ()>>>>>>>>> for F {
    type Output = R;

    open spec fn func_requires(&self, args: Product<T1, Product<T2, Product<T3, Product<T4, Product<T5, Product<T6, Product<T7, Product<T8, ()>>>>>>>>) -> bool {
        call_requires(*self, (args.0, args.1.0, args.1.1.0, args.1.1.1.0, args.1.1.1.1.0, args.1.1.1.1.1.0, args.1.1.1.1.1.1.0, args.1.1.1.1.1.1.1.0,))
    }

    open spec fn func_ensures(&self, args: Product<T1, Product<T2, Product<T3, Product<T4, Product<T5, Product<T6, Product<T7, Product<T8, ()>>>>>>>>, output: R) -> bool {
        call_ensures(*self, (args.0, args.1.0, args.1.1.0, args.1.1.1.0, args.1.1.1.1.0, args.1.1.1.1.1.0, args.1.1.1.1.1.1.0, args.1.1.1.1.1.1.1.0,), output)
    }

    fn call(&self, args: Product<T1, Product<T2, Product<T3, Product<T4, Product<T5, Product<T6, Product<T7, Product<T8, ()>>>>>>>>) -> (r: R) {
        let Product(x1, Product(x2, Product(x3, Product(x4, Product(x5, Product(x6, Product(x7, Product(x8, ())))))))) = args;
        (*self)(x1, x2, x3, x4, x5, x6, x7, x8)
    }
}

impl<F: Fn(T1, T2, T3, T4, T5, T6, T7, T8) -> R, R, T1, T2, T3, T4, T5, T6, T7, T8> Func<(T1, T2, T3, T4, T5, T6, T7, T8)> for F {
    type Output = R;

    open spec fn func_requires(&self, args: (T1, T2, T3, T4, T5, T6, T7, T8)) -> bool {
        call_requires(*self, (args.0, args.1, args.2, args.3, args.4, args.5, args.6, args.7,))
    }

    open spec fn func_ensures(&self, args: (T1, T2, T3, T4, T5, T6, T7, T8), output: R) -> bool {
        call_ensures(*self, (args.0, args.1, args.2, args.3, args.4, args.5, args.6, args.7,), output)
    }

    fn call(&self, args: (T1, T2, T3, T4, T5, T6, T7, T8)) -> (r: R) {
        let (x1, x2, x3, x4, x5, x6, x7, x8) = args;
        (*self)(x1, x2, x3, x4, x5, x6, x7, x8)
    }
}

impl<T1, T2, T3, T4, T5, T6, T7, T8, T9> HList for Product<T1, Product<T2, Product<T3, Product<T4, Product<T5, Product<T6, Product<T7, Product<T8, Product<T9, ()>>>>>>>>> {
    type Tuple = (T1, T2, T3, T4, T5, T6, T7, T8, T9);

    open spec fn spec_flatten(self) -> (T1, T2, T3, T4, T5, T6, T7, T8, T9) {
        (self.0, self.1.0, self.1.1.0, self.1.1.1.0, self.1.1.1.1.0, self.1.1.1.1.1.0, self.1.1.1.1.1.1.0, self.1.1.1.1.1.1.1.0, self.1.1.1.1.1.1.1.1.0)
    }

    fn flatten(self) -> (t: (T1, T2, T3, T4, T5, T6, T7, T8, T9)) {
        let Product(x1, Product(x2, Product(x3, Product(x4, Product(x5, Product(x6, Product(x7, Product(x8, Product(x9, ()))))))))) = self;
        (x1, x2, x3, x4, x5, x6, x7, x8, x9)
    }
}

impl<T1, T2, T3, T4, T5, T6, T7, T8, T9> Tuple for (T1, T2, T3, T4, T5, T6, T7, T8, T9) {
    type HList = Product<T1, Product<T2, Product<T3, Product<T4, Product<T5, Product<T6, Product<T7, Product<T8, Product<T9, ()>>>>>>>>>;

    open spec fn spec_hlist(self) -> Product<T1, Product<T2, Product<T3, Product<T4, Product<T5, Product<T6, Product<T7, Product<T8, Product<T9, ()>>>>>>>>> {
        Product(self.0, Product(self.1, Product(self.2, Product(self.3, Product(self.4, Product(self.5, Product(self.6, Product(self.7, Product(self.8, ())))))))))
    }

    fn hlist(self) -> (h: Product<T1, Product<T2, Product<T3, Product<T4, Product<T5, Product<T6, Product<T7, Product<T8, Product<T9, ()>>>>>>>>>) {
        let (x1, x2, x3, x4, x5, x6, x7, x8, x9) = self;
        Product(x1, Product(x2, Product(x3, Product(x4, Product(x5, Product(x6, Product(x7, Product(x8, Product(x9, ())))))))))
    }

    proof fn lemma_round_trip(self) {
    }
}

impl<F: Fn(T1, T2, T3, T4, T5, T6, T7, T8, T9) -> R, R, T1, T2, T3, T4, T5, T6, T7, T8, T9> Func<Product<T1, Product<T2, Product<T3, Product<T4, Product<T5, Product<T6, Product<T7, Product<T8, Product<T9, ()>>>>>>>>>> for F {
    type Output = R;

    open spec fn func_requires(&self, args: Product<T1, Product<T2, Product<T3, Product<T4, Product<T5, Product<T6, Product<T7, Product<T8, Product<T9, ()>>>>>>>>>) -> bool {
        call_requires(*self, (args.0, args.1.0, args.1.1.0, args.1.1.1.0, args.1.1.1.1.0, args.1.1.1.1.1.0, args.1.1.1.1.1.1.0, args.1.1.1.1.1.1.1.0, args.1.1.1.1.1.1.1.1.0,))
    }

    open spec fn func_ensures(&self, args: Product<T1, Product<T2, Product<T3, Product<T4, Product<T5, Product<T6, Product<T7, Product<T8, Product<T9, ()>>>>>>>>>, output: R) -> bool {
        call_ensures(*self, (args.0, args.1.0, args.1.1.0, args.1.1.1.0, args.1.1.1.1.0, args.1.1.1.1.1.0, args.1.1.1.1.1.1.0, args.1.1.1.1.1.1.1.0, args.1.1.1.1.1.1.1.1.0,), output)
    }

    fn call(&self, args: Product<T1, Product<T2, Product<T3, Product<T4, Product<T5, Product<T6, Product<T7, Product<T8, Product<T9, ()>>>>>>>>>) -> (r: R) {
        let Product(x1, Product(x2, Product(x3, Product(x4, Product(x5, Product(x6, Product(x7, Product(x8, Product(x9, ()))))))))) = args;
        (*self)(x1, x2, x3, x4, x5, x6, x7, x8, x9)
    }
}

impl<F: Fn(T1, T2, T3, T4, T5, T6, T7, T8, T9) -> R, R, T1, T2, T3, T4, T5, T6, T7, T8, T9> Func<(T1, T2, T3, T4, T5, T6, T7, T8, T9)> for F {
    type Output = R;

    open spec fn func_requires(&self, args: (T1, T2, T3, T4, T5, T6, T7, T8, T9)) -> bool {
        call_requires(*self, (args.0, args.1, args.2, args.3, args.4, args.5, args.6, args.7, args.8,))
    }

    open spec fn func_ensures(&self, args: (T1, T2, T3, T4, T5, T6, T7, T8, T9), output: R) -> bool {
        call_ensures(*self, (args.0, args.1, args.2, args.3, args.4, args.5, args.6, args.7, args.8,), output)
    }

    fn call(&self, args: (T1, T2, T3, T4, T5, T6, T7, T8, T9)) -> (r: R) {
        let (x1, x2, x3, x4, x5, x6, x7, x8, x9) = args;
        (*self)(x1, x2, x3, x4, x5, x6, x7, x8, x9)
    }
}

impl<T1, T2, T3, T4, T5, T6, T7, T8, T9, T10> HList for Product<T1, Product<T2, Product<T3, Product<T4, Product<T5, Product<T6, Product<T7, Product<T8, Product<T9, Product<T10, ()>>>>>>>>>> {
    type Tuple = (T1, T2, T3, T4, T5, T6, T7, T8, T9, T10);

    open spec fn spec_flatten(self) -> (T1, T2, T3, T4, T5, T6, T7, T8, T9, T10) {
        (self.0, self.1.0, self.1.1.0, self.1.1.1.0, self.1.1.1.1.0, self.1.1.1.1.1.0, self.1.1.1.1.1.1.0, self.1.1.1.1.1.1.1.0, self.1.1.1.1.1.1.1.1.0, self.1.1.1.1.1.1.1.1.1.0)
    }

    fn flatten(self) -> (t: (T1, T2, T3, T4, T5, T6, T7, T8, T9, T10)) {
        let Product(x1, Product(x2, Product(x3, Product(x4, Product(x5, Product(x6, Product(x7, Product(x8, Product(x9, Product(x10, ())))))))))) = self;
        (x1, x2, x3, x4, x5, x6, x7, x8, x9, x10)
    }
}

impl<T1, T2, T3, T4, T5, T6, T7, T8, T9, T10> Tuple for (T1, T2, T3, T4, T5, T6, T7, T8, T9, T10) {
    type HList = Product<T1, Product<T2, Product<T3, Product<T4, Product<T5, Product<T6, Product<T7, Product<T8, Product<T9, Product<T10, ()>>>>>>>>>>;

    open spec fn spec_hlist(self) -> Product<T1, Product<T2, Product<T3, Product<T4, Product<T5, Product<T6, Product<T7, Product<T8, Product<T9, Product<T10, ()>>>>>>>>>> {
        Product(self.0, Product(self.1, Product(self.2, Product(self.3, Product(self.4, Product(self.5, Product(self.6, Product(self.7, Product(self.8, Product(self.9, ()))))))))))
    }

    fn hlist(self) -> (h: Product<T1, Product<T2, Product<T3, Product<T4, Product<T5, Product<T6, Product<T7, Product<T8, Product<T9, Product<T10, ()>>>>>>>>>>) {
        let (x1, x2, x3, x4, x5, x6, x7, x8, x9, x10) = self;
        Product(x1, Product(x2, Product(x3, Product(x4, Product(x5, Product(x6, Product(x7, Product(x8, Product(x9, Product(x10, ()))))))))))
    }

    proof fn lemma_round_trip(self) {
    }
}

impl<F: Fn(T1, T2, T3, T4, T5, T6, T7, T8, T9, T10) -> R, R, T1, T2, T3, T4, T5, T6, T7, T8, T9, T10> Func<Product<T1, Product<T2, Product<T3, Product<T4, Product<T5, Product<T6, Product<T7, Product<T8, Product<T9, Product<T10, ()>>>>>>>>>>> for F {
    type Output = R;

    open spec fn func_requires(&self, args: Product<T1, Product<T2, Product<T3, Product<T4, Product<T5, Product<T6, Product<T7, Product<T8, Product<T9, Product<T10, ()>>>>>>>>>>) -> bool {
        call_requires(*self, (args.0, args.1.0, args.1.1.0, args.1.1.1.0, args.1.1.1.1.0, args.1.1.1.1.1.0, args.1.1.1.1.1.1.0, args.1.1.1.1.1.1.1.0, args.1.1.1.1.1.1.1.1.0, args.1.1.1.1.1.1.1.1.1.0,))
    }

    open spec fn func_ensures(&self, args: Product<T1, Product<T2, Product<T3, Product<T4, Product<T5, Product<T6, Product<T7, Product<T8, Product<T9, Product<T10, ()>>>>>>>>>>, output: R) -> bool {
        call_ensures(*self, (args.0, args.1.0, args.1.1.0, args.1.1.1.0, args.1.1.1.1.0, args.1.1.1.1.1.0, args.1.1.1.1.1.1.0, args.1.1.1.1.1.1.1.0, args.1.1.1.1.1.1.1.1.0, args.1.1.1.1.1.1.1.1.1.0,), output)
    }

    fn call(&self, args: Product<T1, Product<T2, Product<T3, Product<T4, Product<T5, Product<T6, Product<T7, Product<T8, Product<T9, Product<T10, ()>>>>>>>>>>) -> (r: R) {
        let Product(x1, Product(x2, Product(x3, Product(x4, Product(x5, Product(x6, Product(x7, Product(x8, Product(x9, Product(x10, ())))))))))) = args;
        (*self)(x1, x2, x3, x4, x5, x6, x7, x8, x9, x10)
    }
}

impl<F: Fn(T1, T2, T3, T4, T5, T6, T7, T8, T9, T10) -> R, R, T1, T2, T3, T4, T5, T6, T7, T8, T9, T10> Func<(T1, T2, T3, T4, T5, T6, T7, T8, T9, T10)> for F {
    type Output = R;

    open spec fn func_requires(&self, args: (T1, T2, T3, T4, T5, T6, T7, T8, T9, T10)) -> bool {
        call_requires(*self, (args.0, args.1, args.2, args.3, args.4, args.5, args.6, args.7, args.8, args.9,))
    }

    open spec fn func_ensures(&self, args: (T1, T2, T3, T4, T5, T6, T7, T8, T9, T10), output: R) -> bool {
        call_ensures(*self, (args.0, args.1, args.2, args.3, args.4, args.5, args.6, args.7, args.8, args.9,), output)
    }

    fn call(&self, args: (T1, T2, T3, T4, T5, T6, T7, T8, T9, T10)) -> (r: R) {
        let (x1, x2, x3, x4, x5, x6, x7, x8, x9, x10) = args;
        (*self)(x1, x2, x3, x4, x5, x6, x7, x8, x9, x10)
    }
}

impl<T1, T2, T3, T4, T5, T6, T7, T8, T9, T10, T11> HList for Product<T1, Product<T2, Product<T3, Product<T4, Product<T5, Product<T6, Product<T7, Product<T8, Product<T9, Product<T10, Product<T11, ()>>>>>>>>>>> {
    type Tuple = (T1, T2, T3, T4, T5, T6, T7, T8, T9, T10, T11);

    open spec fn spec_flatten(self) -> (T1, T2, T3, T4, T5, T6, T7, T8, T9, T10, T11) {
        (self.0, self.1.0, self.1.1.0, self.1.1.1.0, self.1.1.1.1.0, self.1.1.1.1.1.0, self.1.1.1.1.1.1.0, self.1.1.1.1.1.1.1.0, self.1.1.1.1.1.1.1.1.0, self.1.1.1.1.1.1.1.1.1.0, self.1.1.1.1.1.1.1.1.1.1.0)
    }

    fn flatten(self) -> (t: (T1, T2, T3, T4, T5, T6, T7, T8, T9, T10, T11)) {
        let Product(x1, Product(x2, Product(x3, Product(x4, Product(x5, Product(x6, Product(x7, Product(x8, Product(x9, Product(x10, Product(x11, ()))))))))))) = self;
        (x1, x2, x3, x4, x5, x6, x7, x8, x9, x10, x11)
    }
}

impl<T1, T2, T3, T4, T5, T6, T7, T8, T9, T10, T11> Tuple for (T1, T2, T3, T4, T5, T6, T7, T8, T9, T10, T11) {
    type HList = Product<T1, Product<T2, Product<T3, Product<T4, Product<T5, Product<T6, Product<T7, Product<T8, Product<T9, Product<T10, Product<T11, ()>>>>>>>>>>>;

    open spec fn spec_hlist(self) -> Product<T1, Product<T2, Product<T3, Product<T4, Product<T5, Product<T6, Product<T7, Product<T8, Product<T9, Product<T10, Product<T11, ()>>>>>>>>>>> {
        Product(self.0, Product(self.1, Product(self.2, Product(self.3, Product(self.4, Product(self.5, Product(self.6, Product(self.7, Product(self.8, Product(self.9, Product(self.10, ())))))))))))
    }

    fn hlist(self) -> (h: Product<T1, Product<T2, Product<T3, Product<T4, Product<T5, Product<T6, Product<T7, Product<T8, Product<T9, Product<T10, Product<T11, ()>>>>>>>>>>>) {
        let (x1, x2, x3, x4, x5, x6, x7, x8, x9, x10, x11) = self;
        Product(x1, Product(x2, Product(x3, Product(x4, Product(x5, Product(x6, Product(x7, Product(x8, Product(x9, Product(x10, Product(x11, ())))))))))))
    }

    proof fn lemma_round_trip(self) {
    }
}

impl<F: Fn(T1, T2, T3, T4, T5, T6, T7, T8, T9, T10, T11) -> R, R, T1, T2, T3, T4, T5, T6, T7, T8, T9, T10, T11> Func<Product<T1, Product<T2, Product<T3, Product<T4, Product<T5, Product<T6, Product<T7, Product<T8, Product<T9, Product<T10, Product<T11, ()>>>>>>>>>>>> for F {
    type Output = R;

    open spec fn func_requires(&self, args: Product<T1, Product<T2, Product<T3, Product<T4, Product<T5, Product<T6, Product<T7, Product<T8, Product<T9, Product<T10, Product<T11, ()>>>>>>>>>>>) -> bool {
        call_requires(*self, (args.0, args.1.0, args.1.1.0, args.1.1.1.0, args.1.1.1.1.0, args.1.1.1.1.1.0, args.1.1.1.1.1.1.0, args.1.1.1.1.1.1.1.0, args.1.1.1.1.1.1.1.1.0, args.1.1.1.1.1.1.1.1.1.0, args.1.1.1.1.1.1.1.1.1.1.0,))
    }

    open spec fn func_ensures(&self, args: Product<T1, Product<T2, Product<T3, Product<T4, Product<T5, Product<T6, Product<T7, Product<T8, Product<T9, Product<T10, Product<T11, ()>>>>>>>>>>>, output: R) -> bool {
        call_ensures(*self, (args.0, args.1.0, args.1.1.0, args.1.1.1.0, args.1.1.1.1.0, args.1.1.1.1.1.0, args.1.1.1.1.1.1.0, args.1.1.1.1.1.1.1.0, args.1.1.1.1.1.1.1.1.0, args.1.1.1.1.1.1.1.1.1.0, args.1.1.1.1.1.1.1.1.1.1.0,), output)
    }

    fn call(&self, args: Product<T1, Product<T2, Product<T3, Product<T4, Product<T5, Product<T6, Product<T7, Product<T8, Product<T9, Product<T10, Product<T11, ()>>>>>>>>>>>) -> (r: R) {
        let Product(x1, Product(x2, Product(x3, Product(x4, Product(x5, Product(x6, Product(x7, Product(x8, Product(x9, Product(x10, Product(x11, ()))))))))))) = args;
        (*self)(x1, x2, x3, x4, x5, x6, x7, x8, x9, x10, x11)
    }
}

impl<F: Fn(T1, T2, T3, T4, T5, T6, T7, T8, T9, T10, T11) -> R, R, T1, T2, T3, T4, T5, T6, T7, T8, T9, T10, T11> Func<(T1, T2, T3, T4, T5, T6, T7, T8, T9, T10, T11)> for F {
    type Output = R;

    open spec fn func_requires(&self, args: (T1, T2, T3, T4, T5, T6, T7, T8, T9, T10, T11)) -> bool {
        call_requires(*self, (args.0, args.1, args.2, args.3, args.4, args.5, args.6, args.7, args.8, args.9, args.10,))
    }

    open spec fn func_ensures(&self, args: (T1, T2, T3, T4, T5, T6, T7, T8, T9, T10, T11), output: R) -> bool {
        call_ensures(*self, (args.0, args.1, args.2, args.3, args.4, args.5, args.6, args.7, args.8, args.9, args.10,), output)
    }

    fn call(&self, args: (T1, T2, T3, T4, T5, T6, T7, T8, T9, T10, T11)) -> (r: R) {
        let (x1, x2, x3, x4, x5, x6, x7, x8, x9, x10, x11) = args;
        (*self)(x1, x2, x3, x4, x5, x6, x7, x8, x9, x10, x11)
    }
}

impl<T1, T2, T3, T4, T5, T6, T7, T8, T9, T10, T11, T12> HList for Product<T1, Product<T2, Product<T3, Product<T4, Product<T5, Product<T6, Product<T7, Product<T8, Product<T9, Product<T10, Product<T11, Product<T12, ()>>>>>>>>>>>> {
    type Tuple = (T1, T2, T3, T4, T5, T6, T7, T8, T9, T10, T11, T12);

    open spec fn spec_flatten(self) -> (T1, T2, T3, T4, T5, T6, T7, T8, T9, T10, T11, T12) {
        (self.0, self.1.0, self.1.1.0, self.1.1.1.0, self.1.1.1.1.0, self.1.1.1.1.1.0, self.1.1.1.1.1.1.0, self.1.1.1.1.1.1.1.0, self.1.1.1.1.1.1.1.1.0, self.1.1.1.1.1.1.1.1.1.0, self.1.1.1.1.1.1.1.1.1.1.0, self.1.1.1.1.1.1.1.1.1.1.1.0)
    }

    fn flatten(self) -> (t: (T1, T2, T3, T4, T5, T6, T7, T8, T9, T10, T11, T12)) {
        let Product(x1, Product(x2, Product(x3, Product(x4, Product(x5, Product(x6, Product(x7, Product(x8, Product(x9, Product(x10, Product(x11, Product(x12, ())))))))))))) = self;
        (x1, x2, x3, x4, x5, x6, x7, x8, x9, x10, x11, x12)
    }
}

impl<T1, T2, T3, T4, T5, T6, T7, T8, T9, T10, T11, T12> Tuple for (T1, T2, T3, T4, T5, T6, T7, T8, T9, T10, T11, T12) {
    type HList = Product<T1, Product<T2, Product<T3, Product<T4, Product<T5, Product<T6, Product<T7, Product<T8, Product<T9, Product<T10, Product<T11, Product<T12, ()>>>>>>>>>>>>;

    open spec fn spec_hlist(self) -> Product<T1, Product<T2, Product<T3, Product<T4, Product<T5, Product<T6, Product<T7, Product<T8, Product<T9, Product<T10, Product<T11, Product<T12, ()>>>>>>>>>>>> {
        Product(self.0, Product(self.1, Product(self.2, Product(self.3, Product(self.4, Product(self.5, Product(self.6, Product(self.7, Product(self.8, Product(self.9, Product(self.10, Product(self.11, ()))))))))))))
    }

    fn hlist(self) -> (h: Product<T1, Product<T2, Product<T3, Product<T4, Product<T5, Product<T6, Product<T7, Product<T8, Product<T9, Product<T10, Product<T11, Product<T12, ()>>>>>>>>>>>>) {
        let (x1, x2, x3, x4, x5, x6, x7, x8, x9, x10, x11, x12) = self;
        Product(x1, Product(x2, Product(x3, Product(x4, Product(x5, Product(x6, Product(x7, Product(x8, Product(x9, Product(x10, Product(x11, Product(x12, ()))))))))))))
    }

    proof fn lemma_round_trip(self) {
    }
}

impl<F: Fn(T1, T2, T3, T4, T5, T6, T7, T8, T9, T10, T11, T12) -> R, R, T1, T2, T3, T4, T5, T6, T7, T8, T9, T10, T11, T12> Func<Product<T1, Product<T2, Product<T3, Product<T4, Product<T5, Product<T6, Product<T7, Product<T8, Product<T9, Product<T10, Product<T11, Product<T12, ()>>>>>>>>>>>>> for F {
    type Output = R;

    open spec fn func_requires(&self, args: Product<T1, Product<T2, Product<T3, Product<T4, Product<T5, Product<T6, Product<T7, Product<T8, Product<T9, Product<T10, Product<T11, Product<T12, ()>>>>>>>>>>>>) -> bool {
        call_requires(*self, (args.0, args.1.0, args.1.1.0, args.1.1.1.0, args.1.1.1.1.0, args.1.1.1.1.1.0, args.1.1.1.1.1.1.0, args.1.1.1.1.1.1.1.0, args.1.1.1.1.1.1.1.1.0, args.1.1.1.1.1.1.1.1.1.0, args.1.1.1.1.1.1.1.1.1.1.0, args.1.1.1.1.1.1.1.1.1.1.1.0,))
    }

    open spec fn func_ensures(&self, args: Product<T1, Product<T2, Product<T3, Product<T4, Product<T5, Product<T6, Product<T7, Product<T8, Product<T9, Product<T10, Product<T11, Product<T12, ()>>>>>>>>>>>>, output: R) -> bool {
        call_ensures(*self, (args.0, args.1.0, args.1.1.0, args.1.1.1.0, args.1.1.1.1.0, args.1.1.1.1.1.0, args.1.1.1.1.1.1.0, args.1.1.1.1.1.1.1.0, args.1.1.1.1.1.1.1.1.0, args.1.1.1.1.1.1.1.1.1.0, args.1.1.1.1.1.1.1.1.1.1.0, args.1.1.1.1.1.1.1.1.1.1.1.0,), output)
    }

    fn call(&self, args: Product<T1, Product<T2, Product<T3, Product<T4, Product<T5, Product<T6, Product<T7, Product<T8, Product<T9, Product<T10, Product<T11, Product<T12, ()>>>>>>>>>>>>) -> (r: R) {
        let Product(x1, Product(x2, Product(x3, Product(x4, Product(x5, Product(x6, Product(x7, Product(x8, Product(x9, Product(x10, Product(x11, Product(x12, ())))))))))))) = args;
        (*self)(x1, x2, x3, x4, x5, x6, x7, x8, x9, x10, x11, x12)
    }
}

impl<F: Fn(T1, T2, T3, T4, T5, T6, T7, T8, T9, T10, T11, T12) -> R, R, T1, T2, T3, T4, T5, T6, T7, T8, T9, T10, T11, T12> Func<(T1, T2, T3, T4, T5, T6, T7, T8, T9, T10, T11, T12)> for F {
    type Output = R;

    open spec fn func_requires(&self, args: (T1, T2, T3, T4, T5, T6, T7, T8, T9, T10, T11, T12)) -> bool {
        call_requires(*self, (args.0, args.1, args.2, args.3, args.4, args.5, args.6, args.7, args.8, args.9, args.10, args.11,))
    }

    open spec fn func_ensures(&self, args: (T1, T2, T3, T4, T5, T6, T7, T8, T9, T10, T11, T12), output: R) -> bool {
        call_ensures(*self, (args.0, args.1, args.2, args.3, args.4, args.5, args.6, args.7, args.8, args.9, args.10, args.11,), output)
    }

    fn call(&self, args: (T1, T2, T3, T4, T5, T6, T7, T8, T9, T10, T11, T12)) -> (r: R) {
        let (x1, x2, x3, x4, x5, x6, x7, x8, x9, x10, x11, x12) = args;
        (*self)(x1, x2, x3, x4, x5, x6, x7, x8, x9, x10, x11, x12)
    }
}

impl<T1, T2, T3, T4, T5, T6, T7, T8, T9, T10, T11, T12, T13> HList for Product<T1, Product<T2, Product<T3, Product<T4, Product<T5, Product<T6, Product<T7, Product<T8, Product<T9, Product<T10, Product<T11, Product<T12, Product<T13, ()>>>>>>>>>>>>> {
    type Tuple = (T1, T2, T3, T4, T5, T6, T7, T8, T9, T10, T11, T12, T13);

    open spec fn spec_flatten(self) -> (T1, T2, T3, T4, T5, T6, T7, T8, T9, T10, T11, T12, T13) {
        (self.0, self.1.0, self.1.1.0, self.1.1.1.0, self.1.1.1.1.0, self.1.1.1.1.1.0, self.1.1.1.1.1.1.0, self.1.1.1.1.1.1.1.0, self.1.1.1.1.1.1.1.1.0, self.1.1.1.1.1.1.1.1.1.0, self.1.1.1.1.1.1.1.1.1.1.0, self.1.1.1.1.1.1.1.1.1.1.1.0, self.1.1.1.1.1.1.1.1.1.1.1.1.0)
    }

    fn flatten(self) -> (t: (T1, T2, T3, T4, T5, T6, T7, T8, T9, T10, T11, T12, T13)) {
        let Product(x1, Product(x2, Product(x3, Product(x4, Product(x5, Product(x6, Product(x7, Product(x8, Product(x9, Product(x10, Product(x11, Product(x12, Product(x13, ()))))))))))))) = self;
        (x1, x2, x3, x4, x5, x6, x7, x8, x9, x10, x11, x12, x13)
    }
}

impl<T1, T2, T3, T4, T5, T6, T7, T8, T9, T10, T11, T12, T13> Tuple for (T1, T2, T3, T4, T5, T6, T7, T8, T9, T10, T11, T12, T13) {
    type HList = Product<T1, Product<T2, Product<T3, Product<T4, Product<T5, Product<T6, Product<T7, Product<T8, Product<T9, Product<T10, Product<T11, Product<T12, Product<T13, ()>>>>>>>>>>>>>;

    open spec fn spec_hlist(self) -> Product<T1, Product<T2, Product<T3, Product<T4, Product<T5, Product<T6, Product<T7, Product<T8, Product<T9, Product<T10, Product<T11, Product<T12, Product<T13, ()>>>>>>>>>>>>> {
        Product(self.0, Product(self.1, Product(self.2, Product(self.3, Product(self.4, Product(self.5, Product(self.6, Product(self.7, Product(self.8, Product(self.9, Product(self.10, Product(self.11, Product(self.12, ())))))))))))))
    }

    fn hlist(self) -> (h: Product<T1, Product<T2, Product<T3, Product<T4, Product<T5, Product<T6, Product<T7, Product<T8, Product<T9, Product<T10, Product<T11, Product<T12, Product<T13, ()>>>>>>>>>>>>>) {
        let (x1, x2, x3, x4, x5, x6, x7, x8, x9, x10, x11, x12, x13) = self;
        Product(x1, Product(x2, Product(x3, Product(x4, Product(x5, Product(x6, Product(x7, Product(x8, Product(x9, Product(x10, Product(x11, Product(x12, Product(x13, ())))))))))))))
    }

    proof fn lemma_round_trip(self) {
    }
}

impl<F: Fn(T1, T2, T3, T4, T5, T6, T7, T8, T9, T10, T11, T12, T13) -> R, R, T1, T2, T3, T4, T5, T6, T7, T8, T9, T10, T11, T12, T13> Func<Product<T1, Product<T2, Product<T3, Product<T4, Product<T5, Product<T6, Product<T7, Product<T8, Product<T9, Product<T10, Product<T11, Product<T12, Product<T13, ()>>>>>>>>>>>>>> for F {
    type Output = R;

    open spec fn func_requires(&self, args: Product<T1, Product<T2, Product<T3, Product<T4, Product<T5, Product<T6, Product<T7, Product<T8, Product<T9, Product<T10, Product<T11, Product<T12, Product<T13, ()>>>>>>>>>>>>>) -> bool {
        call_requires(*self, (args.0, args.1.0, args.1.1.0, args.1.1.1.0, args.1.1.1.1.0, args.1.1.1.1.1.0, args.1.1.1.1.1.1.0, args.1.1.1.1.1.1.1.0, args.1.1.1.1.1.1.1.1.0, args.1.1.1.1.1.1.1.1.1.0, args.1.1.1.1.1.1.1.1.1.1.0, args.1.1.1.1.1.1.1.1.1.1.1.0, args.1.1.1.1.1.1.1.1.1.1.1.1.0,))
    }

    open spec fn func_ensures(&self, args: Product<T1, Product<T2, Product<T3, Product<T4, Product<T5, Product<T6, Product<T7, Product<T8, Product<T9, Product<T10, Product<T11, Product<T12, Product<T13, ()>>>>>>>>>>>>>, output: R) -> bool {
        call_ensures(*self, (args.0, args.1.0, args.1.1.0, args.1.1.1.0, args.1.1.1.1.0, args.1.1.1.1.1.0, args.1.1.1.1.1.1.0, args.1.1.1.1.1.1.1.0, args.1.1.1.1.1.1.1.1.0, args.1.1.1.1.1.1.1.1.1.0, args.1.1.1.1.1.1.1.1.1.1.0, args.1.1.1.1.1.1.1.1.1.1.1.0, args.1.1.1.1.1.1.1.1.1.1.1.1.0,), output)
    }

    fn call(&self, args: Product<T1, Product<T2, Product<T3, Product<T4, Product<T5, Product<T6, Product<T7, Product<T8, Product<T9, Product<T10, Product<T11, Product<T12, Product<T13, ()>>>>>>>>>>>>>) -> (r: R) {
        let Product(x1, Product(x2, Product(x3, Product(x4, Product(x5, Product(x6, Product(x7, Product(x8, Product(x9, Product(x10, Product(x11, Product(x12, Product(x13, ()))))))))))))) = args;
        (*self)(x1, x2, x3, x4, x5, x6, x7, x8, x9, x10, x11, x12, x13)
    }
}

impl<F: Fn(T1, T2, T3, T4, T5, T6, T7, T8, T9, T10, T11, T12, T13) -> R, R, T1, T2, T3, T4, T5, T6, T7, T8, T9, T10, T11, T12, T13> Func<(T1, T2, T3, T4, T5, T6, T7, T8, T9, T10, T11, T12, T13)> for F {
    type Output = R;

    open spec fn func_requires(&self, args: (T1, T2, T3, T4, T5, T6, T7, T8, T9, T10, T11, T12, T13)) -> bool {
        call_requires(*self, (args.0, args.1, args.2, args.3, args.4, args.5, args.6, args.7, args.8, args.9, args.10, args.11, args.12,))
    }

    open spec fn func_ensures(&self, args: (T1, T2, T3, T4, T5, T6, T7, T8, T9, T10, T11, T12, T13), output: R) -> bool {
        call_ensures(*self, (args.0, args.1, args.2, args.3, args.4, args.5, args.6, args.7, args.8, args.9, args.10, args.11, args.12,), output)
    }

    fn call(&self, args: (T1, T2, T3, T4, T5, T6, T7, T8, T9, T10, T11, T12, T13)) -> (r: R) {
        let (x1, x2, x3, x4, x5, x6, x7, x8, x9, x10, x11, x12, x13) = args;
        (*self)(x1, x2, x3, x4, x5, x6, x7, x8, x9, x10, x11, x12, x13)
    }
}

impl<T1, T2, T3, T4, T5, T6, T7, T8, T9, T10, T11, T12, T13, T14> HList for Product<T1, Product<T2, Product<T3, Product<T4, Product<T5, Product<T6, Product<T7, Product<T8, Product<T9, Product<T10, Product<T11, Product<T12, Product<T13, Product<T14, ()>>>>>>>>>>>>>> {
    type Tuple = (T1, T2, T3, T4, T5, T6, T7, T8, T9, T10, T11, T12, T13, T14);

    open spec fn spec_flatten(self) -> (T1, T2, T3, T4, T5, T6, T7, T8, T9, T10, T11, T12, T13, T14) {
        (self.0, self.1.0, self.1.1.0, self.1.1.1.0, self.1.1.1.1.0, self.1.1.1.1.1.0, self.1.1.1.1.1.1.0, self.1.1.1.1.1.1.1.0, self.1.1.1.1.1.1.1.1.0, self.1.1.1.1.1.1.1.1.1.0, self.1.1.1.1.1.1.1.1.1.1.0, self.1.1.1.1.1.1.1.1.1.1.1.0, self.1.1.1.1.1.1.1.1.1.1.1.1.0, self.1.1.1.1.1.1.1.1.1.1.1.1.1.0)
    }

    fn flatten(self) -> (t: (T1, T2, T3, T4, T5, T6, T7, T8, T9, T10, T11, T12, T13, T14)) {
        let Product(x1, Product(x2, Product(x3, Product(x4, Product(x5, Product(x6, Product(x7, Product(x8, Product(x9, Product(x10, Product(x11, Product(x12, Product(x13, Product(x14, ())))))))))))))) = self;
        (x1, x2, x3, x4, x5, x6, x7, x8, x9, x10, x11, x12, x13, x14)
    }
}

impl<T1, T2, T3, T4, T5, T6, T7, T8, T9, T10, T11, T12, T13, T14> Tuple for (T1, T2, T3, T4, T5, T6, T7, T8, T9, T10, T11, T12, T13, T14) {
    type HList = Product<T1, Product<T2, Product<T3, Product<T4, Product<T5, Product<T6, Product<T7, Product<T8, Product<T9, Product<T10, Product<T11, Product<T12, Product<T13, Product<T14, ()>>>>>>>>>>>>>>;

    open spec fn spec_hlist(self) -> Product<T1, Product<T2, Product<T3, Product<T4, Product<T5, Product<T6, Product<T7, Product<T8, Product<T9, Product<T10, Product<T11, Product<T12, Product<T13, Product<T14, ()>>>>>>>>>>>>>> {
        Product(self.0, Product(self.1, Product(self.2, Product(self.3, Product(self.4, Product(self.5, Product(self.6, Product(self.7, Product(self.8, Product(self.9, Product(self.10, Product(self.11, Product(self.12, Product(self.13, ()))))))))))))))
    }

    fn hlist(self) -> (h: Product<T1, Product<T2, Product<T3, Product<T4, Product<T5, Product<T6, Product<T7, Product<T8, Product<T9, Product<T10, Product<T11, Product<T12, Product<T13, Product<T14, ()>>>>>>>>>>>>>>) {
        let (x1, x2, x3, x4, x5, x6, x7, x8, x9, x10, x11, x12, x13, x14) = self;
        Product(x1, Product(x2, Product(x3, Product(x4, Product(x5, Product(x6, Product(x7, Product(x8, Product(x9, Product(x10, Product(x11, Product(x12, Product(x13, Product(x14, ()))))))))))))))
    }

    proof fn lemma_round_trip(self) {
    }
}

impl<F: Fn(T1, T2, T3, T4, T5, T6, T7, T8, T9, T10, T11, T12, T13, T14) -> R, R, T1, T2, T3, T4, T5, T6, T7, T8, T9, T10, T11, T12, T13, T14> Func<Product<T1, Product<T2, Product<T3, Product<T4, Product<T5, Product<T6, Product<T7, Product<T8, Product<T9, Product<T10, Product<T11, Product<T12, Product<T13, Product<T14, ()>>>>>>>>>>>>>>> for F {
    type Output = R;

    open spec fn func_requires(&self, args: Product<T1, Product<T2, Product<T3, Product<T4, Product<T5, Product<T6, Product<T7, Product<T8, Product<T9, Product<T10, Product<T11, Product<T12, Product<T13, Product<T14, ()>>>>>>>>>>>>>>) -> bool {
        call_requires(*self, (args.0, args.1.0, args.1.1.0, args.1.1.1.0, args.1.1.1.1.0, args.1.1.1.1.1.0, args.1.1.1.1.1.1.0, args.1.1.1.1.1.1.1.0, args.1.1.1.1.1.1.1.1.0, args.1.1.1.1.1.1.1.1.1.0, args.1.1.1.1.1.1.1.1.1.1.0, args.1.1.1.1.1.1.1.1.1.1.1.0, args.1.1.1.1.1.1.1.1.1.1.1.1.0, args.1.1.1.1.1.1.1.1.1.1.1.1.1.0,))
    }

    open spec fn func_ensures(&self, args: Product<T1, Product<T2, Product<T3, Product<T4, Product<T5, Product<T6, Product<T7, Product<T8, Product<T9, Product<T10, Product<T11, Product<T12, Product<T13, Product<T14, ()>>>>>>>>>>>>>>, output: R) -> bool {
        call_ensures(*self, (args.0, args.1.0, args.1.1.0, args.1.1.1.0, args.1.1.1.1.0, args.1.1.1.1.1.0, args.1.1.1.1.1.1.0, args.1.1.1.1.1.1.1.0, args.1.1.1.1.1.1.1.1.0, args.1.1.1.1.1.1.1.1.1.0, args.1.1.1.1.1.1.1.1.1.1.0, args.1.1.1.1.1.1.1.1.1.1.1.0, args.1.1.1.1.1.1.1.1.1.1.1.1.0, args.1.1.1.1.1.1.1.1.1.1.1.1.1.0,), output)
    }

    fn call(&self, args: Product<T1, Product<T2, Product<T3, Product<T4, Product<T5, Product<T6, Product<T7, Product<T8, Product<T9, Product<T10, Product<T11, Product<T12, Product<T13, Product<T14, ()>>>>>>>>>>>>>>) -> (r: R) {
        let Product(x1, Product(x2, Product(x3, Product(x4, Product(x5, Product(x6, Product(x7, Product(x8, Product(x9, Product(x10, Product(x11, Product(x12, Product(x13, Product(x14, ())))))))))))))) = args;
        (*self)(x1, x2, x3, x4, x5, x6, x7, x8, x9, x10, x11, x12, x13, x14)
    }
}

impl<F: Fn(T1, T2, T3, T4, T5, T6, T7, T8, T9, T10, T11, T12, T13, T14) -> R, R, T1, T2, T3, T4, T5, T6, T7, T8, T9, T10, T11, T12, T13, T14> Func<(T1, T2, T3, T4, T5, T6, T7, T8, T9, T10, T11, T12, T13, T14)> for F {
    type Output = R;

    open spec fn func_requires(&self, args: (T1, T2, T3, T4, T5, T6, T7, T8, T9, T10, T11, T12, T13, T14)) -> bool {
        call_requires(*self, (args.0, args.1, args.2, args.3, args.4, args.5, args.6, args.7, args.8, args.9, args.10, args.11, args.12, args.13,))
    }

    open spec fn func_ensures(&self, args: (T1, T2, T3, T4, T5, T6, T7, T8, T9, T10, T11, T12, T13, T14), output: R) -> bool {
        call_ensures(*self, (args.0, args.1, args.2, args.3, args.4, args.5, args.6, args.7, args.8, args.9, args.10, args.11, args.12, args.13,), output)
    }

    fn call(&self, args: (T1, T2, T3, T4, T5, T6, T7, T8, T9, T10, T11, T12, T13, T14)) -> (r: R) {
        let (x1, x2, x3, x4, x5, x6, x7, x8, x9, x10, x11, x12, x13, x14) = args;
        (*self)(x1, x2, x3, x4, x5, x6, x7, x8, x9, x10, x11, x12, x13, x14)
    }
}

impl<T1, T2, T3, T4, T5, T6, T7, T8, T9, T10, T11, T12, T13, T14, T15> HList for Product<T1, Product<T2, Product<T3, Product<T4, Product<T5, Product<T6, Product<T7, Product<T8, Product<T9, Product<T10, Product<T11, Product<T12, Product<T13, Product<T14, Product<T15, ()>>>>>>>>>>>>>>> {
    type Tuple = (T1, T2, T3, T4, T5, T6, T7, T8, T9, T10, T11, T12, T13, T14, T15);

    open spec fn spec_flatten(self) -> (T1, T2, T3, T4, T5, T6, T7, T8, T9, T10, T11, T12, T13, T14, T15) {
        (self.0, self.1.0, self.1.1.0, self.1.1.1.0, self.1.1.1.1.0, self.1.1.1.1.1.0, self.1.1.1.1.1.1.0, self.1.1.1.1.1.1.1.0, self.1.1.1.1.1.1.1.1.0, self.1.1.1.1.1.1.1.1.1.0, self.1.1.1.1.1.1.1.1.1.1.0, self.1.1.1.1.1.1.1.1.1.1.1.0, self.1.1.1.1.1.1.1.1.1.1.1.1.0, self.1.1.1.1.1.1.1.1.1.1.1.1.1.0, self.1.1.1.1.1.1.1.1.1.1.1.1.1.1.0)
    }

    fn flatten(self) -> (t: (T1, T2, T3, T4, T5, T6, T7, T8, T9, T10, T11, T12, T13, T14, T15)) {
        let Product(x1, Product(x2, Product(x3, Product(x4, Product(x5, Product(x6, Product(x7, Product(x8, Product(x9, Product(x10, Product(x11, Product(x12, Product(x13, Product(x14, Product(x15, ()))))))))))))))) = self;
        (x1, x2, x3, x4, x5, x6, x7, x8, x9, x10, x11, x12, x13, x14, x15)
    }
}

impl<T1, T2, T3, T4, T5, T6, T7, T8, T9, T10, T11, T12, T13, T14, T15> Tuple for (T1, T2, T3, T4, T5, T6, T7, T8, T9, T10, T11, T12, T13, T14, T15) {
    type HList = Product<T1, Product<T2, Product<T3, Product<T4, Product<T5, Product<T6, Product<T7, Product<T8, Product<T9, Product<T10, Product<T11, Product<T12, Product<T13, Product<T14, Product<T15, ()>>>>>>>>>>>>>>>;

    open spec fn spec_hlist(self) -> Product<T1, Product<T2, Product<T3, Product<T4, Product<T5, Product<T6, Product<T7, Product<T8, Product<T9, Product<T10, Product<T11, Product<T12, Product<T13, Product<T14, Product<T15, ()>>>>>>>>>>>>>>> {
        Product(self.0, Product(self.1, Product(self.2, Product(self.3, Product(self.4, Product(self.5, Product(self.6, Product(self.7, Product(self.8, Product(self.9, Product(self.10, Product(self.11, Product(self.12, Product(self.13, Product(self.14, ())))))))))))))))
    }

    fn hlist(self) -> (h: Product<T1, Product<T2, Product<T3, Product<T4, Product<T5, Product<T6, Product<T7, Product<T8, Product<T9, Product<T10, Product<T11, Product<T12, Product<T13, Product<T14, Product<T15, ()>>>>>>>>>>>>>>>) {
        let (x1, x2, x3, x4, x5, x6, x7, x8, x9, x10, x11, x12, x13, x14, x15) = self;
        Product(x1, Product(x2, Product(x3, Product(x4, Product(x5, Product(x6, Product(x7, Product(x8, Product(x9, Product(x10, Product(x11, Product(x12, Product(x13, Product(x14, Product(x15, ())))))))))))))))
    }

    proof fn lemma_round_trip(self) {
    }
}

impl<F: Fn(T1, T2, T3, T4, T5, T6, T7, T8, T9, T10, T11, T12, T13, T14, T15) -> R, R, T1, T2, T3, T4, T5, T6, T7, T8, T9, T10, T11, T12, T13, T14, T15> Func<Product<T1, Product<T2, Product<T3, Product<T4, Product<T5, Product<T6, Product<T7, Product<T8, Product<T9, Product<T10, Product<T11, Product<T12, Product<T13, Product<T14, Product<T15, ()>>>>>>>>>>>>>>>> for F {
    type Output = R;

    open spec fn func_requires(&self, args: Product<T1, Product<T2, Product<T3, Product<T4, Product<T5, Product<T6, Product<T7, Product<T8, Product<T9, Product<T10, Product<T11, Product<T12, Product<T13, Product<T14, Product<T15, ()>>>>>>>>>>>>>>>) -> bool {
        call_requires(*self, (args.0, args.1.0, args.1.1.0, args.1.1.1.0, args.1.1.1.1.0, args.1.1.1.1.1.0, args.1.1.1.1.1.1.0, args.1.1.1.1.1.1.1.0, args.1.1.1.1.1.1.1.1.0, args.1.1.1.1.1.1.1.1.1.0, args.1.1.1.1.1.1.1.1.1.1.0, args.1.1.1.1.1.1.1.1.1.1.1.0, args.1.1.1.1.1.1.1.1.1.1.1.1.0, args.1.1.1.1.1.1.1.1.1.1.1.1.1.0, args.1.1.1.1.1.1.1.1.1.1.1.1.1.1.0,))
    }

    open spec fn func_ensures(&self, args: Product<T1, Product<T2, Product<T3, Product<T4, Product<T5, Product<T6, Product<T7, Product<T8, Product<T9, Product<T10, Product<T11, Product<T12, Product<T13, Product<T14, Product<T15, ()>>>>>>>>>>>>>>>, output: R) -> bool {
        call_ensures(*self, (args.0, args.1.0, args.1.1.0, args.1.1.1.0, args.1.1.1.1.0, args.1.1.1.1.1.0, args.1.1.1.1.1.1.0, args.1.1.1.1.1.1.1.0, args.1.1.1.1.1.1.1.1.0, args.1.1.1.1.1.1.1.1.1.0, args.1.1.1.1.1.1.1.1.1.1.0, args.1.1.1.1.1.1.1.1.1.1.1.0, args.1.1.1.1.1.1.1.1.1.1.1.1.0, args.1.1.1.1.1.1.1.1.1.1.1.1.1.0, args.1.1.1.1.1.1.1.1.1.1.1.1.1.1.0,), output)
    }

    fn call(&self, args: Product<T1, Product<T2, Product<T3, Product<T4, Product<T5, Product<T6, Product<T7, Product<T8, Product<T9, Product<T10, Product<T11, Product<T12, Product<T13, Product<T14, Product<T15, ()>>>>>>>>>>>>>>>) -> (r: R) {
        let Product(x1, Product(x2, Product(x3, Product(x4, Product(x5, Product(x6, Product(x7, Product(x8, Product(x9, Product(x10, Product(x11, Product(x12, Product(x13, Product(x14, Product(x15, ()))))))))))))))) = args;
        (*self)(x1, x2, x3, x4, x5, x6, x7, x8, x9, x10, x11, x12, x13, x14, x15)
    }
}

impl<F: Fn(T1, T2, T3, T4, T5, T6, T7, T8, T9, T10, T11, T12, T13, T14, T15) -> R, R, T1, T2, T3, T4, T5, T6, T7, T8, T9, T10, T11, T12, T13, T14, T15> Func<(T1, T2, T3, T4, T5, T6, T7, T8, T9, T10, T11, T12, T13, T14, T15)> for F {
    type Output = R;

    open spec fn func_requires(&self, args: (T1, T2, T3, T4, T5, T6, T7, T8, T9, T10, T11, T12, T13, T14, T15)) -> bool {
        call_requires(*self, (args.0, args.1, args.2, args.3, args.4, args.5, args.6, args.7, args.8, args.9, args.10, args.11, args.12, args.13, args.14,))
    }

    open spec fn func_ensures(&self, args: (T1, T2, T3, T4, T5, T6, T7, T8, T9, T10, T11, T12, T13, T14, T15), output: R) -> bool {
        call_ensures(*self, (args.0, args.1, args.2, args.3, args.4, args.5, args.6, args.7, args.8, args.9, args.10, args.11, args.12, args.13, args.14,), output)
    }

    fn call(&self, args: (T1, T2, T3, T4, T5, T6, T7, T8, T9, T10, T11, T12, T13, T14, T15)) -> (r: R) {
        let (x1, x2, x3, x4, x5, x6, x7, x8, x9, x10, x11, x12, x13, x14, x15) = args;
        (*self)(x1, x2, x3, x4, x5, x6, x7, x8, x9, x10, x11, x12, x13, x14, x15)
    }
}

impl<T1, T2, T3, T4, T5, T6, T7, T8, T9, T10, T11, T12, T13, T14, T15, T16> HList for Product<T1, Product<T2, Product<T3, Product<T4, Product<T5, Product<T6, Product<T7, Product<T8, Product<T9, Product<T10, Product<T11, Product<T12, Product<T13, Product<T14, Product<T15, Product<T16, ()>>>>>>>>>>>>>>>> {
    type Tuple = (T1, T2, T3, T4, T5, T6, T7, T8, T9, T10, T11, T12, T13, T14, T15, T16);

    open spec fn spec_flatten(self) -> (T1, T2, T3, T4, T5, T6, T7, T8, T9, T10, T11, T12, T13, T14, T15, T16) {
        (self.0, self.1.0, self.1.1.0, self.1.1.1.0, self.1.1.1.1.0, self.1.1.1.1.1.0, self.1.1.1.1.1.1.0, self.1.1.1.1.1.1.1.0, self.1.1.1.1.1.1.1.1.0, self.1.1.1.1.1.1.1.1.1.0, self.1.1.1.1.1.1.1.1.1.1.0, self.1.1.1.1.1.1.1.1.1.1.1.0, self.1.1.1.1.1.1.1.1.1.1.1.1.0, self.1.1.1.1.1.1.1.1.1.1.1.1.1.0, self.1.1.1.1.1.1.1.1.1.1.1.1.1.1.0, self.1.1.1.1.1.1.1.1.1.1.1.1.1.1.1.0)
    }

    fn flatten(self) -> (t: (T1, T2, T3, T4, T5, T6, T7, T8, T9, T10, T11, T12, T13, T14, T15, T16)) {
        let Product(x1, Product(x2, Product(x3, Product(x4, Product(x5, Product(x6, Product(x7, Product(x8, Product(x9, Product(x10, Product(x11, Product(x12, Product(x13, Product(x14, Product(x15, Product(x16, ())))))))))))))))) = self;
        (x1, x2, x3, x4, x5, x6, x7, x8, x9, x10, x11, x12, x13, x14, x15, x16)
    }
}

impl<T1, T2, T3, T4, T5, T6, T7, T8, T9, T10, T11, T12, T13, T14, T15, T16> Tuple for (T1, T2, T3, T4, T5, T6, T7, T8, T9, T10, T11, T12, T13, T14, T15, T16) {
    type HList = Product<T1, Product<T2, Product<T3, Product<T4, Product<T5, Product<T6, Product<T7, Product<T8, Product<T9, Product<T10, Product<T11, Product<T12, Product<T13, Product<T14, Product<T15, Product<T16, ()>>>>>>>>>>>>>>>>;

    open spec fn spec_hlist(self) -> Product<T1, Product<T2, Product<T3, Product<T4, Product<T5, Product<T6, Product<T7, Product<T8, Product<T9, Product<T10, Product<T11, Product<T12, Product<T13, Product<T14, Product<T15, Product<T16, ()>>>>>>>>>>>>>>>> {
        Product(self.0, Product(self.1, Product(self.2, Product(self.3, Product(self.4, Product(self.5, Product(self.6, Product(self.7, Product(self.8, Product(self.9, Product(self.10, Product(self.11, Product(self.12, Product(self.13, Product(self.14, Product(self.15, ()))))))))))))))))
    }

    fn hlist(self) -> (h: Product<T1, Product<T2, Product<T3, Product<T4, Product<T5, Product<T6, Product<T7, Product<T8, Product<T9, Product<T10, Product<T11, Product<T12, Product<T13, Product<T14, Product<T15, Product<T16, ()>>>>>>>>>>>>>>>>) {
        let (x1, x2, x3, x4, x5, x6, x7, x8, x9, x10, x11, x12, x13, x14, x15, x16) = self;
        Product(x1, Product(x2, Product(x3, Product(x4, Product(x5, Product(x6, Product(x7, Product(x8, Product(x9, Product(x10, Product(x11, Product(x12, Product(x13, Product(x14, Product(x15, Product(x16, ()))))))))))))))))
    }

    proof fn lemma_round_trip(self) {
    }
}

impl<F: Fn(T1, T2, T3, T4, T5, T6, T7, T8, T9, T10, T11, T12, T13, T14, T15, T16) -> R, R, T1, T2, T3, T4, T5, T6, T7, T8, T9, T10, T11, T12, T13, T14, T15, T16> Func<Product<T1, Product<T2, Product<T3, Product<T4, Product<T5, Product<T6, Product<T7, Product<T8, Product<T9, Product<T10, Product<T11, Product<T12, Product<T13, Product<T14, Product<T15, Product<T16, ()>>>>>>>>>>>>>>>>> for F {
    type Output = R;

    open spec fn func_requires(&self, args: Product<T1, Product<T2, Product<T3, Product<T4, Product<T5, Product<T6, Product<T7, Product<T8, Product<T9, Product<T10, Product<T11, Product<T12, Product<T13, Product<T14, Product<T15, Product<T16, ()>>>>>>>>>>>>>>>>) -> bool {
        call_requires(*self, (args.0, args.1.0, args.1.1.0, args.1.1.1.0, args.1.1.1.1.0, args.1.1.1.1.1.0, args.1.1.1.1.1.1.0, args.1.1.1.1.1.1.1.0, args.1.1.1.1.1.1.1.1.0, args.1.1.1.1.1.1.1.1.1.0, args.1.1.1.1.1.1.1.1.1.1.0, args.1.1.1.1.1.1.1.1.1.1.1.0, args.1.1.1.1.1.1.1.1.1.1.1.1.0, args.1.1.1.1.1.1.1.1.1.1.1.1.1.0, args.1.1.1.1.1.1.1.1.1.1.1.1.1.1.0, args.1.1.1.1.1.1.1.1.1.1.1.1.1.1.1.0,))
    }

    open spec fn func_ensures(&self, args: Product<T1, Product<T2, Product<T3, Product<T4, Product<T5, Product<T6, Product<T7, Product<T8, Product<T9, Product<T10, Product<T11, Product<T12, Product<T13, Product<T14, Product<T15, Product<T16, ()>>>>>>>>>>>>>>>>, output: R) -> bool {
        call_ensures(*self, (args.0, args.1.0, args.1.1.0, args.1.1.1.0, args.1.1.1.1.0, args.1.1.1.1.1.0, args.1.1.1.1.1.1.0, args.1.1.1.1.1.1.1.0, args.1.1.1.1.1.1.1.1.0, args.1.1.1.1.1.1.1.1.1.0, args.1.1.1.1.1.1.1.1.1.1.0, args.1.1.1.1.1.1.1.1.1.1.1.0, args.1.1.1.1.1.1.1.1.1.1.1.1.0, args.1.1.1.1.1.1.1.1.1.1.1.1.1.0, args.1.1.1.1.1.1.1.1.1.1.1.1.1.1.0, args.1.1.1.1.1.1.1.1.1.1.1.1.1.1.1.0,), output)
    }

    fn call(&self, args: Product<T1, Product<T2, Product<T3, Product<T4, Product<T5, Product<T6, Product<T7, Product<T8, Product<T9, Product<T10, Product<T11, Product<T12, Product<T13, Product<T14, Product<T15, Product<T16, ()>>>>>>>>>>>>>>>>) -> (r: R) {
        let Product(x1, Product(x2, Product(x3, Product(x4, Product(x5, Product(x6, Product(x7, Product(x8, Product(x9, Product(x10, Product(x11, Product(x12, Product(x13, Product(x14, Product(x15, Product(x16, ())))))))))))))))) = args;
        (*self)(x1, x2, x3, x4, x5, x6, x7, x8, x9, x10, x11, x12, x13, x14, x15, x16)
    }
}

impl<F: Fn(T1, T2, T3, T4, T5, T6, T7, T8, T9, T10, T11, T12, T13, T14, T15, T16) -> R, R, T1, T2, T3, T4, T5, T6, T7, T8, T9, T10, T11, T12, T13, T14, T15, T16> Func<(T1, T2, T3, T4, T5, T6, T7, T8, T9, T10, T11, T12, T13, T14, T15, T16)> for F {
    type Output = R;

    open spec fn func_requires(&self, args: (T1, T2, T3, T4, T5, T6, T7, T8, T9, T10, T11, T12, T13, T14, T15, T16)) -> bool {
        call_requires(*self, (args.0, args.1, args.2, args.3, args.4, args.5, args.6, args.7, args.8, args.9, args.10, args.11, args.12, args.13, args.14, args.15,))
    }

    open spec fn func_ensures(&self, args: (T1, T2, T3, T4, T5, T6, T7, T8, T9, T10, T11, T12, T13, T14, T15, T16), output: R) -> bool {
        call_ensures(*self, (args.0, args.1, args.2, args.3, args.4, args.5, args.6, args.7, args.8, args.9, args.10, args.11, args.12, args.13, args.14, args.15,), output)
    }

    fn call(&self, args: (T1, T2, T3, T4, T5, T6, T7, T8, T9, T10, T11, T12, T13, T14, T15, T16)) -> (r: R) {
        let (x1, x2, x3, x4, x5, x6, x7, x8, x9, x10, x11, x12, x13, x14, x15, x16) = args;
        (*self)(x1, x2, x3, x4, x5, x6, x7, x8, x9, x10, x11, x12, x13, x14, x15, x16)
    }
}


} // verus!
