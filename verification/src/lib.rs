//! Middleware composition for request-processing pipelines.
//!
//! An [`Endpoint`] handles requests. A [`Middleware`] wraps an endpoint into
//! another endpoint, and middlewares compose: one after the other
//! ([`MiddlewareExt::combine`]), on a condition ([`MiddlewareExt::combine_if`]),
//! or as a tuple applied from left to right. Composition is structural: it
//! happens once, when the pipeline is built, and every layer it adds is known
//! statically.
//!
//! Handling a request is a plain call. An endpoint that answers later hands
//! back a future as its output; the layers built here forward what they get
//! and never wait.
//!
//! Contracts are stated over three relations, each defined by the implementing
//! type: [`Endpoint::responds`] (the results an endpoint may give to a
//! request), [`Middleware::accepts`] (the endpoints a middleware can wrap) and
//! [`Middleware::wraps`] (the endpoints a wrapping may yield). The module
//! [`laws`] proves the algebra of composition over them.

pub mod endpoint;
pub mod laws;
pub mod middleware;
pub mod tuples;

pub use endpoint::{EitherEndpoint, Endpoint, EndpointExt};
pub use middleware::{
    make, CombineMiddleware, EitherMiddleware, FnMiddleware, Middleware, MiddlewareExt,
};
