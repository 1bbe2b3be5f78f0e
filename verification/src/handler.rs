//! Handlers: functions that turn what filters extracted into a reply.
use vstd::prelude::*;
use crate::reply::Reply;

verus! {

/// Something that replies to the values `I` that filters extracted.
pub trait Handler<I> {
    type Output: Reply;

    /// Whether the handler may be applied to `input`.
    spec fn handle_requires(&self, input: I) -> bool;

    /// Whether `output` is a possible reply to `input`.
    spec fn handle_ensures(&self, input: I, output: Self::Output) -> bool;

    fn handle(&self, input: I) -> (r: Self::Output)
        requires
            self.handle_requires(input),
        ensures
            self.handle_ensures(input, r),
    ;
}

/// Something that can be turned into a `Handler` of `I`.
pub trait IntoHandler<I> {
    type Output: Reply;

    type Handler: Handler<I>;

    /// The handler that `into_handler` gives.
    spec fn spec_into_handler(self) -> Self::Handler;

    fn into_handler(self) -> (h: Self::Handler)
        ensures
            h == self.spec_into_handler(),
    ;
}

/// A handler made of a function of no arguments.
pub struct Fn0<F>(pub F);

impl<F: Fn() -> O, O: Reply> Handler<()> for Fn0<F> {
    type Output = O;

    open spec fn handle_requires(&self, input: ()) -> bool {
        call_requires(self.0, ())
    }

    open spec fn handle_ensures(&self, input: (), output: O) -> bool {
        call_ensures(self.0, (), output)
    }

    fn handle(&self, input: ()) -> (r: O) {
        (self.0)()
    }
}

impl<F: Fn() -> O, O: Reply> IntoHandler<()> for F {
    type Output = O;

    type Handler = Fn0<F>;

    open spec fn spec_into_handler(self) -> Fn0<F> {
        Fn0(self)
    }

    fn into_handler(self) -> (h: Fn0<F>) {
        Fn0(self)
    }
}

/// A handler made of a function of one argument.
pub struct Fn1<F>(pub F);

impl<F: Fn(I) -> O, I, O: Reply> Handler<(I,)> for Fn1<F> {
    type Output = O;

    open spec fn handle_requires(&self, input: (I,)) -> bool {
        call_requires(self.0, (input.0,))
    }

    open spec fn handle_ensures(&self, input: (I,), output: O) -> bool {
        call_ensures(self.0, (input.0,), output)
    }

    fn handle(&self, input: (I,)) -> (r: O) {
        (self.0)(input.0)
    }
}

impl<F: Fn(I) -> O, I, O: Reply> IntoHandler<(I,)> for F {
    type Output = O;

    type Handler = Fn1<F>;

    open spec fn spec_into_handler(self) -> Fn1<F> {
        Fn1(self)
    }

    fn into_handler(self) -> (h: Fn1<F>) {
        Fn1(self)
    }
}

/// A handler made of a function of two arguments.
pub struct Fn2<F>(pub F);

impl<F: Fn(I1, I2) -> O, I1, I2, O: Reply> Handler<(I1, I2)> for Fn2<F> {
    type Output = O;

    open spec fn handle_requires(&self, input: (I1, I2)) -> bool {
        call_requires(self.0, (input.0, input.1))
    }

    open spec fn handle_ensures(&self, input: (I1, I2), output: O) -> bool {
        call_ensures(self.0, (input.0, input.1), output)
    }

    fn handle(&self, input: (I1, I2)) -> (r: O) {
        let (a, b) = input;
        (self.0)(a, b)
    }
}

impl<F: Fn(I1, I2) -> O, I1, I2, O: Reply> IntoHandler<(I1, I2)> for F {
    type Output = O;

    type Handler = Fn2<F>;

    open spec fn spec_into_handler(self) -> Fn2<F> {
        Fn2(self)
    }

    fn into_handler(self) -> (h: Fn2<F>) {
        Fn2(self)
    }
}

} // verus!
