//! The algebra of composition, proved over the relations that the contracts
//! use.
//!
//! The laws come in two strengths. Where two middlewares have the same output
//! type, they are shown to be interchangeable
//! ([`same_wrapping`](crate::middleware::same_wrapping)): they accept the same
//! endpoints and wrap each into the same endpoints. Where one of them puts its
//! result into a branch of an [`EitherEndpoint`], the types differ, and they
//! are shown to be indistinguishable by requests
//! ([`behaves_like`](crate::middleware::behaves_like)). The first implies the
//! second.

use crate::endpoint::{EitherEndpoint, Endpoint};
use crate::middleware::{CombineMiddleware, EitherMiddleware, FnMiddleware, Middleware};
use vstd::prelude::*;

verus! {

/// Every endpoint behaves as itself.
pub proof fn lemma_same_behavior_reflexive<X: Endpoint>(x: X)
    ensures
        crate::endpoint::same_behavior(x, x),
{
}

/// Interchangeable middlewares cannot be told apart by any request.
pub proof fn lemma_same_wrapping_behaves_like<E, M, N>(m: M, n: N) where
    E: Endpoint,
    M: Middleware<E>,
    N: Middleware<E, Output = M::Output>,

    requires
        crate::middleware::same_wrapping(m, n),
    ensures
        crate::middleware::behaves_like(m, n),
{
    reveal(crate::middleware::simulated_by);
    assert forall|x: M::Output| #[trigger] crate::endpoint::same_behavior(x, x) by {
        lemma_same_behavior_reflexive(x);
    }
}

/// What being matched gives for one wrapping: where every endpoint that `m`
/// may produce is matched by `n`, and `m` may wrap `ep` into `out`, then `n`
/// may wrap `ep` into an endpoint that answers every request as `out` does.
pub proof fn lemma_matched_wrapping<E, M, N>(m: M, n: N, ep: E, out: M::Output) where
    E: Endpoint,
    M: Middleware<E>,
    N: Middleware<E>,
    N::Output: Endpoint<
        Request = <M::Output as Endpoint>::Request,
        Output = <M::Output as Endpoint>::Output,
        Error = <M::Output as Endpoint>::Error,
    >,

    requires
        crate::middleware::simulated_by(m, n),
        m.wraps(ep, out),
    ensures
        exists|other: N::Output| #[trigger]
            n.wraps(ep, other) && crate::endpoint::same_behavior(out, other),
{
    reveal(crate::middleware::simulated_by);
}

/// A two-branch endpoint answers every request as the endpoint it holds:
/// forwarding adds nothing and takes nothing away.
pub proof fn lemma_either_endpoint_forwards<A, B>(either: EitherEndpoint<A, B>) where
    A: Endpoint,
    B: Endpoint<Request = A::Request, Output = A::Output, Error = A::Error>,

    ensures
        either matches EitherEndpoint::A(a) ==> crate::endpoint::same_behavior(either, a),
        either matches EitherEndpoint::B(b) ==> crate::endpoint::same_behavior(either, b),
{
}

/// The first branch of a two-branch middleware behaves as the middleware it
/// holds: `EitherMiddleware::left(m)` cannot be told from `m` by any request.
pub proof fn lemma_either_left<E, A, B>(either: EitherMiddleware<A, B, E>, m: A) where
    E: Endpoint,
    A: Middleware<E>,
    B: Middleware<E>,
    B::Output: Endpoint<
        Request = <A::Output as Endpoint>::Request,
        Output = <A::Output as Endpoint>::Output,
        Error = <A::Output as Endpoint>::Error,
    >,

    requires
        either is A,
        either->A_0 == m,
    ensures
        crate::middleware::behaves_like(either, m),
{
    assert(crate::middleware::simulated_by(either, m)) by {
        reveal(crate::middleware::simulated_by);
        assert forall|ep: E, out: EitherEndpoint<A::Output, B::Output>|
            #[trigger] either.wraps(ep, out) implies m.wraps(ep, out->A_0)
            && crate::endpoint::same_behavior(out, out->A_0) by {
            lemma_either_endpoint_forwards(out);
        }
    }
    assert(crate::middleware::simulated_by(m, either)) by {
        reveal(crate::middleware::simulated_by);
        assert forall|ep: E, inner: A::Output| #[trigger] m.wraps(ep, inner) implies {
            let out = EitherEndpoint::<A::Output, B::Output>::A(inner);
            either.wraps(ep, out) && crate::endpoint::same_behavior(inner, out)
        } by {
            lemma_either_endpoint_forwards(EitherEndpoint::<A::Output, B::Output>::A(inner));
        }
    }
}

/// The second branch of a two-branch middleware behaves as the middleware it
/// holds: `EitherMiddleware::right(m)` cannot be told from `m` by any request.
pub proof fn lemma_either_right<E, A, B>(either: EitherMiddleware<A, B, E>, m: B) where
    E: Endpoint,
    A: Middleware<E>,
    B: Middleware<E>,
    B::Output: Endpoint<
        Request = <A::Output as Endpoint>::Request,
        Output = <A::Output as Endpoint>::Output,
        Error = <A::Output as Endpoint>::Error,
    >,

    requires
        either is B,
        either->B_0 == m,
    ensures
        crate::middleware::behaves_like(either, m),
{
    assert(crate::middleware::simulated_by(either, m)) by {
        reveal(crate::middleware::simulated_by);
        assert forall|ep: E, out: EitherEndpoint<A::Output, B::Output>|
            #[trigger] either.wraps(ep, out) implies m.wraps(ep, out->B_0)
            && crate::endpoint::same_behavior(out, out->B_0) by {
            lemma_either_endpoint_forwards(out);
        }
    }
    assert(crate::middleware::simulated_by(m, either)) by {
        reveal(crate::middleware::simulated_by);
        assert forall|ep: E, inner: B::Output| #[trigger] m.wraps(ep, inner) implies {
            let out = EitherEndpoint::<A::Output, B::Output>::B(inner);
            either.wraps(ep, out) && crate::endpoint::same_behavior(inner, out)
        } by {
            lemma_either_endpoint_forwards(EitherEndpoint::<A::Output, B::Output>::B(inner));
        }
    }
}

/// What `first.combine(second)` returns wraps with `first` and then with
/// `second`: `first` makes the inner layer and `second` the outer one.
pub proof fn lemma_combined_wraps_in_turn<E, A, B>(
    first: A,
    second: B,
    combined: CombineMiddleware<A, B, E>,
    ep: E,
    out: B::Output,
) where E: Endpoint, A: Middleware<E>, B: Middleware<A::Output>
    requires
        combined@ == (first, second),
    ensures
        combined.accepts(ep) <==> first.accepts(ep) && forall|mid: A::Output|
            first.wraps(ep, mid) ==> #[trigger] second.accepts(mid),
        combined.wraps(ep, out) <==> exists|mid: A::Output|
            first.wraps(ep, mid) && #[trigger] second.wraps(mid, out),
{
}

/// A sequence of two middlewares is determined, as a middleware, by its
/// view: two of them with the same view are interchangeable.
pub proof fn lemma_combine_by_view<E, A, B>(
    x: CombineMiddleware<A, B, E>,
    y: CombineMiddleware<A, B, E>,
) where E: Endpoint, A: Middleware<E>, B: Middleware<A::Output>
    requires
        x@ == y@,
    ensures
        crate::middleware::same_wrapping(x, y),
{
}

/// Combining on a false condition changes nothing: what
/// `a.combine_if(false, b)` returns cannot be told from `a` by any request.
pub proof fn lemma_combine_if_disabled<E, A, B>(
    a: A,
    conditional: EitherMiddleware<A, CombineMiddleware<A, B, E>, E>,
) where
    E: Endpoint,
    A: Middleware<E>,
    B: Middleware<A::Output>,
    B::Output: Endpoint<
        Request = <A::Output as Endpoint>::Request,
        Output = <A::Output as Endpoint>::Output,
        Error = <A::Output as Endpoint>::Error,
    >,

    requires
        conditional is A,
        conditional->A_0 == a,
    ensures
        crate::middleware::behaves_like(conditional, a),
{
    lemma_either_left(conditional, a);
}

/// Combining on a true condition is combining: what `a.combine_if(true, b)`
/// returns cannot be told from `a.combine(b)` by any request.
pub proof fn lemma_combine_if_enabled<E, A, B>(
    a: A,
    b: B,
    conditional: EitherMiddleware<A, CombineMiddleware<A, B, E>, E>,
    combined: CombineMiddleware<A, B, E>,
) where
    E: Endpoint,
    A: Middleware<E>,
    B: Middleware<A::Output>,
    B::Output: Endpoint<
        Request = <A::Output as Endpoint>::Request,
        Output = <A::Output as Endpoint>::Output,
        Error = <A::Output as Endpoint>::Error,
    >,

    requires
        conditional is B,
        conditional->B_0@ == (a, b),
        combined@ == (a, b),
    ensures
        crate::middleware::behaves_like(conditional, combined),
{
    assert(crate::middleware::simulated_by(conditional, combined)) by {
        reveal(crate::middleware::simulated_by);
        assert forall|ep: E, out: EitherEndpoint<A::Output, B::Output>|
            #[trigger] conditional.wraps(ep, out) implies combined.wraps(ep, out->B_0)
            && crate::endpoint::same_behavior(out, out->B_0) by {
            lemma_either_endpoint_forwards(out);
        }
    }
    assert(crate::middleware::simulated_by(combined, conditional)) by {
        reveal(crate::middleware::simulated_by);
        assert forall|ep: E, inner: B::Output| #[trigger] combined.wraps(ep, inner) implies {
            let out = EitherEndpoint::<A::Output, B::Output>::B(inner);
            conditional.wraps(ep, out) && crate::endpoint::same_behavior(inner, out)
        } by {
            lemma_either_endpoint_forwards(EitherEndpoint::<A::Output, B::Output>::B(inner));
        }
    }
}

/// Combining is associative: `a.combine(b).combine(c)` and
/// `a.combine(b.combine(c))` are interchangeable, and so cannot be told apart
/// by any request.
pub proof fn lemma_combine_associative<E, A, B, C>(
    a: A,
    b: B,
    c: C,
    left: CombineMiddleware<CombineMiddleware<A, B, E>, C, E>,
    right: CombineMiddleware<A, CombineMiddleware<B, C, A::Output>, E>,
) where E: Endpoint, A: Middleware<E>, B: Middleware<A::Output>, C: Middleware<B::Output>
    requires
        left@.0@ == (a, b),
        left@.1 == c,
        right@.0 == a,
        right@.1@ == (b, c),
    ensures
        crate::middleware::same_wrapping(left, right),
        crate::middleware::behaves_like(left, right),
{
    let ab = left@.0;
    let bc = right@.1;
    assert forall|ep: E| left.accepts(ep) <==> right.accepts(ep) by {
        if left.accepts(ep) {
            assert forall|m1: A::Output, m2: B::Output|
                a.wraps(ep, m1) && b.wraps(m1, m2) implies c.accepts(m2) by {
                assert(ab.wraps(ep, m2));
            }
        }
    }
    assert forall|ep: E, out: C::Output| left.wraps(ep, out) <==> right.wraps(ep, out) by {
        if left.wraps(ep, out) {
            let m2 = choose|m2: B::Output| ab.wraps(ep, m2) && c.wraps(m2, out);
            let m1 = choose|m1: A::Output| a.wraps(ep, m1) && b.wraps(m1, m2);
            assert(bc.wraps(m1, out));
        }
        if right.wraps(ep, out) {
            let m1 = choose|m1: A::Output| a.wraps(ep, m1) && bc.wraps(m1, out);
            let m2 = choose|m2: B::Output| b.wraps(m1, m2) && c.wraps(m2, out);
            assert(ab.wraps(ep, m2));
        }
    }
    lemma_same_wrapping_behaves_like(left, right);
}

/// The identity is neutral on the left: `().combine(m)` is interchangeable
/// with `m`.
pub proof fn lemma_identity_left<E, M>(m: M, combined: CombineMiddleware<(), M, E>) where
    E: Endpoint,
    M: Middleware<E>,

    requires
        combined@ == ((), m),
    ensures
        crate::middleware::same_wrapping(combined, m),
        crate::middleware::behaves_like(combined, m),
{
    assert forall|ep: E| combined.accepts(ep) <==> m.accepts(ep) by {
        assert(().wraps(ep, ep));
    }
    assert forall|ep: E, out: M::Output| combined.wraps(ep, out) <==> m.wraps(ep, out) by {
        assert(().wraps(ep, ep));
    }
    lemma_same_wrapping_behaves_like(combined, m);
}

/// The identity is neutral on the right: `m.combine(())` is interchangeable
/// with `m`.
pub proof fn lemma_identity_right<E, M>(m: M, combined: CombineMiddleware<M, (), E>) where
    E: Endpoint,
    M: Middleware<E>,

    requires
        combined@ == (m, ()),
    ensures
        crate::middleware::same_wrapping(combined, m),
        crate::middleware::behaves_like(combined, m),
{
    assert forall|ep: E, out: M::Output| combined.wraps(ep, out) <==> m.wraps(ep, out) by {
        assert(().wraps(out, out));
    }
    lemma_same_wrapping_behaves_like(combined, m);
}

/// A borrowed middleware is interchangeable with the middleware it borrows.
pub proof fn lemma_borrowed<E, M>(m: M) where E: Endpoint, M: Middleware<E>
    ensures
        crate::middleware::same_wrapping(&m, m),
        crate::middleware::behaves_like(&m, m),
{
    lemma_same_wrapping_behaves_like(&m, m);
}

/// A middleware made of a function wraps exactly as calling the function
/// does: it can wrap `ep` where the function may be called on `ep`, and `out`
/// may come of it where the function may return `out` for `ep`.
pub proof fn lemma_made_of_function<T, E, E2>(f: T, made: FnMiddleware<T>, ep: E, out: E2) where
    T: Fn(E) -> E2,
    E: Endpoint,
    E2: Endpoint,

    requires
        made@ == f,
    ensures
        made.accepts(ep) <==> call_requires(f, (ep,)),
        made.wraps(ep, out) <==> call_ensures(f, (ep,), out),
{
}

/// A pair of middlewares is interchangeable with its elements combined:
/// `(p, q)` with `p.combine(q)`.
pub proof fn lemma_pair_is_combined<E, P, Q>(p: P, q: Q, combined: CombineMiddleware<P, Q, E>) where
    E: Endpoint,
    P: Middleware<E>,
    Q: Middleware<P::Output>,

    requires
        combined@ == (p, q),
    ensures
        crate::middleware::same_wrapping((p, q), combined),
        crate::middleware::behaves_like((p, q), combined),
{
    lemma_same_wrapping_behaves_like((p, q), combined);
}

/// A triple of middlewares is interchangeable with its elements combined in
/// order: `(p, q, r)` with `p.combine(q).combine(r)`.
pub proof fn lemma_triple_is_combined<E, P, Q, R>(
    p: P,
    q: Q,
    r: R,
    combined: CombineMiddleware<CombineMiddleware<P, Q, E>, R, E>,
) where E: Endpoint, P: Middleware<E>, Q: Middleware<P::Output>, R: Middleware<Q::Output>
    requires
        combined@.0@ == (p, q),
        combined@.1 == r,
    ensures
        crate::middleware::same_wrapping((p, q, r), combined),
        crate::middleware::behaves_like((p, q, r), combined),
{
    let pq = combined@.0;
    lemma_pair_is_combined(p, q, pq);
    assert forall|ep: E| (p, q, r).accepts(ep) <==> combined.accepts(ep) by {
        if (p, q, r).accepts(ep) {
            assert forall|mid: Q::Output| pq.wraps(ep, mid) implies r.accepts(mid) by {
                assert((p, q).wraps(ep, mid));
            }
        }
        if combined.accepts(ep) {
            assert forall|mid: Q::Output| (p, q).wraps(ep, mid) implies r.accepts(mid) by {
                assert(pq.wraps(ep, mid));
            }
        }
    }
    assert forall|ep: E, out: R::Output|
        (p, q, r).wraps(ep, out) <==> combined.wraps(ep, out) by {
        if (p, q, r).wraps(ep, out) {
            let mid = choose|mid: Q::Output| (p, q).wraps(ep, mid) && r.wraps(mid, out);
            assert(pq.wraps(ep, mid));
        }
        if combined.wraps(ep, out) {
            let mid = choose|mid: Q::Output| pq.wraps(ep, mid) && r.wraps(mid, out);
            assert((p, q).wraps(ep, mid));
        }
    }
    lemma_same_wrapping_behaves_like((p, q, r), combined);
}

} // verus!
