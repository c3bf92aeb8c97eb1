//! The middleware capability and its combinators.

use crate::endpoint::{EitherEndpoint, Endpoint};
use std::marker::PhantomData;
use vstd::prelude::*;

verus! {

/// Something that wraps an endpoint of type `E` into another endpoint.
///
/// Wrapping is done once, when a pipeline is built. It is structural: it
/// cannot fail, and it handles no request. Whatever a layer does to requests
/// and responses, it does when the endpoint it produced is called.
///
/// The contract of [`transform`](Middleware::transform) is a pair of
/// relations that each implementation defines for itself. They are relations
/// rather than functions because a wrapping may be given by a closure, of
/// which only a precondition and a postcondition are known.
pub trait Middleware<E: Endpoint> {
    /// The endpoint type that wrapping produces.
    type Output: Endpoint;

    /// Whether this middleware can wrap `ep`.
    ///
    /// Unless an implementation says more, every endpoint is accepted. The
    /// only middleware here that narrows it by itself is the one made of a
    /// function, which accepts what the function's precondition admits; the
    /// combinators hand on what their parts ask.
    open spec fn accepts(&self, ep: E) -> bool {
        true
    }

    /// Whether `out` is an endpoint that wrapping `ep` may yield.
    ///
    /// Unless an implementation says more, nothing is known of the result.
    open spec fn wraps(&self, ep: E, out: Self::Output) -> bool {
        true
    }

    /// Wraps `ep`.
    fn transform(&self, ep: E) -> (out: Self::Output)
        requires
            self.accepts(ep),
        ensures
            self.wraps(ep, out),
    ;
}

/// Whether `ep` can be wrapped by `first` and whatever comes out of that by
/// `second`.
pub open spec fn accepts_in_turn<E, A, B>(first: A, second: B, ep: E) -> bool where
    E: Endpoint,
    A: Middleware<E>,
    B: Middleware<A::Output>,
 {
    &&& first.accepts(ep)
    &&& forall|mid: A::Output|
        #![trigger first.wraps(ep, mid)]
        #![trigger second.accepts(mid)]
        first.wraps(ep, mid) ==> second.accepts(mid)
}

/// Whether `out` may come of wrapping `ep` by `first` and the result by
/// `second`: `first` is the inner layer and `second` the outer one.
pub open spec fn wraps_in_turn<E, A, B>(first: A, second: B, ep: E, out: B::Output) -> bool where
    E: Endpoint,
    A: Middleware<E>,
    B: Middleware<A::Output>,
 {
    exists|mid: A::Output|
        #![trigger first.wraps(ep, mid)]
        #![trigger second.wraps(mid, out)]
        first.wraps(ep, mid) && second.wraps(mid, out)
}

/// Whether two middlewares with the same output type are interchangeable:
/// they accept the same endpoints and wrap each into the same endpoints.
pub open spec fn same_wrapping<E, M, N>(m: M, n: N) -> bool where
    E: Endpoint,
    M: Middleware<E>,
    N: Middleware<E, Output = M::Output>,
 {
    &&& forall|ep: E|
        #![trigger m.accepts(ep)]
        #![trigger n.accepts(ep)]
        m.accepts(ep) <==> n.accepts(ep)
    &&& forall|ep: E, out: M::Output|
        #![trigger m.wraps(ep, out)]
        #![trigger n.wraps(ep, out)]
        m.wraps(ep, out) <==> n.wraps(ep, out)
}

/// Whether every endpoint that `m` may produce is matched by `n`: from the
/// same endpoint, `n` may produce one that answers every request alike. The
/// output types of the two may differ.
///
/// The definition is opaque: taken as a fact in both directions it would let
/// the solver go from one side to the other without end. Reveal it where it
/// is needed.
#[verifier::opaque]
pub open spec fn simulated_by<E, M, N>(m: M, n: N) -> bool where
    E: Endpoint,
    M: Middleware<E>,
    N: Middleware<E>,
    N::Output: Endpoint<
        Request = <M::Output as Endpoint>::Request,
        Output = <M::Output as Endpoint>::Output,
        Error = <M::Output as Endpoint>::Error,
    >,
 {
    forall|ep: E, out: M::Output| #[trigger]
        m.wraps(ep, out) ==> exists|other: N::Output| #[trigger]
            n.wraps(ep, other) && crate::endpoint::same_behavior(out, other)
}

/// Whether two middlewares, whose output types may differ, cannot be told
/// apart by any request: they accept the same endpoints, and each endpoint
/// that one may produce is matched by the other.
pub open spec fn behaves_like<E, M, N>(m: M, n: N) -> bool where
    E: Endpoint,
    M: Middleware<E>,
    N: Middleware<E>,
    N::Output: Endpoint<
        Request = <M::Output as Endpoint>::Request,
        Output = <M::Output as Endpoint>::Output,
        Error = <M::Output as Endpoint>::Error,
    >,
 {
    &&& forall|ep: E|
        #![trigger m.accepts(ep)]
        #![trigger n.accepts(ep)]
        m.accepts(ep) <==> n.accepts(ep)
    &&& simulated_by(m, n)
    &&& simulated_by(n, m)
}

/// The combinators, available on every middleware.
pub trait MiddlewareExt<E: Endpoint>: Middleware<E> + Sized {
    /// The middleware that wraps with `self` first and with `other` second.
    ///
    /// `other` becomes the outer layer: a request enters it first, and what
    /// it does after its inner call runs after what `self` does there.
    fn combine<T>(self, other: T) -> (out: CombineMiddleware<Self, T, E>) where
        T: Middleware<Self::Output>,

        ensures
            out@ == (self, other),
    {
        CombineMiddleware { a: self, b: other, _mark: PhantomData }
    }

    /// `self` alone where `enable` is false, and `self` combined with `other`
    /// where it is true; one type either way.
    fn combine_if<T>(self, enable: bool, other: T) -> (out: EitherMiddleware<
        Self,
        CombineMiddleware<Self, T, E>,
        E,
    >) where T: Middleware<Self::Output>
        ensures
            !enable ==> out is A && out->A_0 == self,
            enable ==> out is B && out->B_0@ == (self, other),
    {
        if !enable {
            EitherMiddleware::left(self)
        } else {
            EitherMiddleware::right(self.combine(other))
        }
    }
}

impl<E: Endpoint, M: Middleware<E>> MiddlewareExt<E> for M {

}

/// The identity: wrapping hands the endpoint back.
impl<E: Endpoint> Middleware<E> for () {
    type Output = E;

    open spec fn accepts(&self, ep: E) -> bool {
        true
    }

    open spec fn wraps(&self, ep: E, out: E) -> bool {
        out == ep
    }

    #[inline]
    fn transform(&self, ep: E) -> (out: E) {
        ep
    }
}

/// A borrowed middleware wraps as the middleware it borrows.
impl<E: Endpoint, T: Middleware<E>> Middleware<E> for &T {
    type Output = T::Output;

    open spec fn accepts(&self, ep: E) -> bool {
        (*self).accepts(ep)
    }

    open spec fn wraps(&self, ep: E, out: T::Output) -> bool {
        (*self).wraps(ep, out)
    }

    fn transform(&self, ep: E) -> (out: T::Output) {
        T::transform(self, ep)
    }
}

/// Two middlewares in sequence. Its view is the pair of them, the one that
/// wraps first and the one that wraps second.
pub struct CombineMiddleware<A, B, E> {
    a: A,
    b: B,
    _mark: PhantomData<E>,
}

impl<A, B, E> View for CombineMiddleware<A, B, E> {
    type V = (A, B);

    closed spec fn view(&self) -> (A, B) {
        (self.a, self.b)
    }
}

impl<A, B, E> Middleware<E> for CombineMiddleware<A, B, E> where
    A: Middleware<E>,
    B: Middleware<A::Output>,
    E: Endpoint,
 {
    type Output = B::Output;

    open spec fn accepts(&self, ep: E) -> bool {
        accepts_in_turn(self@.0, self@.1, ep)
    }

    open spec fn wraps(&self, ep: E, out: B::Output) -> bool {
        wraps_in_turn(self@.0, self@.1, ep, out)
    }

    #[inline]
    fn transform(&self, ep: E) -> (out: B::Output) {
        self.b.transform(self.a.transform(ep))
    }
}

/// One of two middlewares, with the choice fixed when it is built.
pub enum EitherMiddleware<A, B, E> {
    /// A middleware of type `A`.
    A(A, PhantomData<E>),
    /// A middleware of type `B`.
    B(B, PhantomData<E>),
}

impl<A, B, E> EitherMiddleware<A, B, E> {
    /// The first branch, holding `a`.
    #[inline]
    pub fn left(a: A) -> (out: Self)
        ensures
            out is A,
            out->A_0 == a,
    {
        EitherMiddleware::A(a, PhantomData)
    }

    /// The second branch, holding `b`.
    #[inline]
    pub fn right(b: B) -> (out: Self)
        ensures
            out is B,
            out->B_0 == b,
    {
        EitherMiddleware::B(b, PhantomData)
    }
}

/// The stored branch wraps, and its result goes into the same branch of an
/// [`EitherEndpoint`].
impl<A, B, E> Middleware<E> for EitherMiddleware<A, B, E> where
    A: Middleware<E>,
    B: Middleware<E>,
    E: Endpoint,
    B::Output: Endpoint<
        Request = <A::Output as Endpoint>::Request,
        Output = <A::Output as Endpoint>::Output,
        Error = <A::Output as Endpoint>::Error,
    >,
 {
    type Output = EitherEndpoint<A::Output, B::Output>;

    open spec fn accepts(&self, ep: E) -> bool {
        match self {
            EitherMiddleware::A(a, _) => a.accepts(ep),
            EitherMiddleware::B(b, _) => b.accepts(ep),
        }
    }

    open spec fn wraps(&self, ep: E, out: EitherEndpoint<A::Output, B::Output>) -> bool {
        match self {
            EitherMiddleware::A(a, _) => out is A && a.wraps(ep, out->A_0),
            EitherMiddleware::B(b, _) => out is B && b.wraps(ep, out->B_0),
        }
    }

    #[inline]
    fn transform(&self, ep: E) -> (out: EitherEndpoint<A::Output, B::Output>) {
        match self {
            EitherMiddleware::A(a, _) => EitherEndpoint::A(a.transform(ep)),
            EitherMiddleware::B(b, _) => EitherEndpoint::B(b.transform(ep)),
        }
    }
}

/// A middleware given by a function from endpoint to endpoint. Its view is
/// that function.
pub struct FnMiddleware<T>(T);

impl<T> View for FnMiddleware<T> {
    type V = T;

    closed spec fn view(&self) -> T {
        self.0
    }
}

/// Wrapping is calling the function: it accepts what the function's
/// precondition admits and yields what its postcondition allows.
///
/// The verifier knows the output type of a function only through a bound on
/// the function's type. Verified code therefore reaches this implementation
/// from a function that is generic in `T` and states `T: Fn(E) -> E2`; there
/// `accepts` and `wraps` unfold to the precondition and the postcondition of
/// the function that was handed in.
impl<T, E, E2> Middleware<E> for FnMiddleware<T> where T: Fn(E) -> E2, E: Endpoint, E2: Endpoint {
    type Output = E2;

    open spec fn accepts(&self, ep: E) -> bool {
        call_requires(self@, (ep,))
    }

    open spec fn wraps(&self, ep: E, out: E2) -> bool {
        call_ensures(self@, (ep,), out)
    }

    fn transform(&self, ep: E) -> (out: E2) {
        (self.0)(ep)
    }
}

/// Makes a middleware of a function.
pub fn make<T>(f: T) -> (out: FnMiddleware<T>)
    ensures
        out@ == f,
{
    FnMiddleware(f)
}

} // verus!
