//! The endpoint capability and the two-branch endpoint.

use crate::middleware::Middleware;
use vstd::prelude::*;

verus! {

/// A request handler: it processes one request and yields one result, a
/// success or a failure.
///
/// What a handler answers is its own business. Its contract is the relation
/// [`responds`](Endpoint::responds), which an implementation may define as
/// tightly as it can prove.
pub trait Endpoint {
    /// What the endpoint is asked.
    type Request;

    /// What it answers on success.
    type Output;

    /// What it answers on failure.
    type Error;

    /// Whether `res` is a result that this endpoint may give to `req`.
    ///
    /// Unless an implementation says more, any result is possible.
    open spec fn responds(
        &self,
        req: Self::Request,
        res: Result<Self::Output, Self::Error>,
    ) -> bool {
        true
    }

    /// Handles one request.
    fn call(&self, req: Self::Request) -> (res: Result<Self::Output, Self::Error>)
        ensures
            self.responds(req, res),
    ;
}

/// Whether two endpoints, possibly of different types, answer every request
/// alike: each result that one may give, the other may give too.
pub open spec fn same_behavior<X, Y>(x: X, y: Y) -> bool where
    X: Endpoint,
    Y: Endpoint<Request = X::Request, Output = X::Output, Error = X::Error>,
 {
    forall|req: X::Request, res: Result<X::Output, X::Error>|
        #![trigger x.responds(req, res)]
        #![trigger y.responds(req, res)]
        x.responds(req, res) <==> y.responds(req, res)
}

/// Attaching middleware to an endpoint, written from the endpoint's side.
pub trait EndpointExt: Endpoint + Sized {
    /// Wraps this endpoint with `middleware`.
    fn with<M>(self, middleware: M) -> (out: M::Output) where M: Middleware<Self>
        requires
            middleware.accepts(self),
        ensures
            middleware.wraps(self, out),
    {
        middleware.transform(self)
    }
}

impl<E: Endpoint> EndpointExt for E {

}

/// An endpoint that is one of two endpoints, with the choice fixed when it is
/// built. Both branches share request, output and error types, so handling a
/// request is forwarding it: the stored endpoint's result, success or
/// failure, is returned as it is.
pub enum EitherEndpoint<A, B> {
    /// The first branch.
    A(A),
    /// The second branch.
    B(B),
}

impl<A, B> Endpoint for EitherEndpoint<A, B> where
    A: Endpoint,
    B: Endpoint<Request = A::Request, Output = A::Output, Error = A::Error>,
 {
    type Request = A::Request;

    type Output = A::Output;

    type Error = A::Error;

    /// The stored branch decides, and nothing is added to what it answers.
    open spec fn responds(
        &self,
        req: Self::Request,
        res: Result<Self::Output, Self::Error>,
    ) -> bool {
        match self {
            EitherEndpoint::A(a) => a.responds(req, res),
            EitherEndpoint::B(b) => b.responds(req, res),
        }
    }

    fn call(&self, req: Self::Request) -> (res: Result<Self::Output, Self::Error>) {
        match self {
            EitherEndpoint::A(a) => a.call(req),
            EitherEndpoint::B(b) => b.call(req),
        }
    }
}

} // verus!
