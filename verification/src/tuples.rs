//! Tuples of middlewares.
//!
//! A tuple of middlewares is a middleware that wraps with its elements from
//! left to right: the first element is the innermost layer and the last the
//! outermost. A tuple of one wraps as its element does. A longer tuple wraps
//! as the tuple of all its elements but the last, followed by the last: the
//! same as combining its elements in order. Tuples of up to sixteen elements
//! are covered.

use crate::endpoint::Endpoint;
use crate::middleware::Middleware;
use vstd::prelude::*;

verus! {

impl<E, T1> Middleware<E> for (T1,) where
    E: Endpoint,
    T1: Middleware<E>,
 {
    type Output = T1::Output;

    open spec fn accepts(&self, ep: E) -> bool {
        self.0.accepts(ep)
    }

    open spec fn wraps(&self, ep: E, out: T1::Output) -> bool {
        self.0.wraps(ep, out)
    }

    fn transform(&self, ep: E) -> (out: T1::Output) {
        self.0.transform(ep)
    }
}

impl<E, T1, T2> Middleware<E> for (T1, T2) where
    E: Endpoint,
    T1: Middleware<E>,
    T2: Middleware<T1::Output>,
 {
    type Output = T2::Output;

    open spec fn accepts(&self, ep: E) -> bool {
        crate::middleware::accepts_in_turn(self.0, self.1, ep)
    }

    open spec fn wraps(&self, ep: E, out: T2::Output) -> bool {
        crate::middleware::wraps_in_turn(self.0, self.1, ep, out)
    }

    fn transform(&self, ep: E) -> (out: T2::Output) {
        let wrapped1 = self.0.transform(ep);
        self.1.transform(wrapped1)
    }
}

impl<E, T1, T2, T3> Middleware<E> for (T1, T2, T3) where
    E: Endpoint,
    T1: Middleware<E>,
    T2: Middleware<T1::Output>,
    T3: Middleware<T2::Output>,
 {
    type Output = T3::Output;

    open spec fn accepts(&self, ep: E) -> bool {
        crate::middleware::accepts_in_turn((self.0, self.1), self.2, ep)
    }

    open spec fn wraps(&self, ep: E, out: T3::Output) -> bool {
        crate::middleware::wraps_in_turn((self.0, self.1), self.2, ep, out)
    }

    fn transform(&self, ep: E) -> (out: T3::Output) {
        let wrapped1 = self.0.transform(ep);
        let wrapped2 = self.1.transform(wrapped1);
        assert((self.0, self.1).wraps(ep, wrapped2));
        self.2.transform(wrapped2)
    }
}

impl<E, T1, T2, T3, T4> Middleware<E> for (T1, T2, T3, T4) where
    E: Endpoint,
    T1: Middleware<E>,
    T2: Middleware<T1::Output>,
    T3: Middleware<T2::Output>,
    T4: Middleware<T3::Output>,
 {
    type Output = T4::Output;

    open spec fn accepts(&self, ep: E) -> bool {
        crate::middleware::accepts_in_turn((self.0, self.1, self.2), self.3, ep)
    }

    open spec fn wraps(&self, ep: E, out: T4::Output) -> bool {
        crate::middleware::wraps_in_turn((self.0, self.1, self.2), self.3, ep, out)
    }

    fn transform(&self, ep: E) -> (out: T4::Output) {
        let wrapped1 = self.0.transform(ep);
        let wrapped2 = self.1.transform(wrapped1);
        assert((self.0, self.1).wraps(ep, wrapped2));
        let wrapped3 = self.2.transform(wrapped2);
        assert((self.0, self.1, self.2).wraps(ep, wrapped3));
        self.3.transform(wrapped3)
    }
}

impl<E, T1, T2, T3, T4, T5> Middleware<E> for (T1, T2, T3, T4, T5) where
    E: Endpoint,
    T1: Middleware<E>,
    T2: Middleware<T1::Output>,
    T3: Middleware<T2::Output>,
    T4: Middleware<T3::Output>,
    T5: Middleware<T4::Output>,
 {
    type Output = T5::Output;

    open spec fn accepts(&self, ep: E) -> bool {
        crate::middleware::accepts_in_turn((self.0, self.1, self.2, self.3), self.4, ep)
    }

    open spec fn wraps(&self, ep: E, out: T5::Output) -> bool {
        crate::middleware::wraps_in_turn((self.0, self.1, self.2, self.3), self.4, ep, out)
    }

    fn transform(&self, ep: E) -> (out: T5::Output) {
        let wrapped1 = self.0.transform(ep);
        let wrapped2 = self.1.transform(wrapped1);
        assert((self.0, self.1).wraps(ep, wrapped2));
        let wrapped3 = self.2.transform(wrapped2);
        assert((self.0, self.1, self.2).wraps(ep, wrapped3));
        let wrapped4 = self.3.transform(wrapped3);
        assert((self.0, self.1, self.2, self.3).wraps(ep, wrapped4));
        self.4.transform(wrapped4)
    }
}

impl<E, T1, T2, T3, T4, T5, T6> Middleware<E> for (T1, T2, T3, T4, T5, T6) where
    E: Endpoint,
    T1: Middleware<E>,
    T2: Middleware<T1::Output>,
    T3: Middleware<T2::Output>,
    T4: Middleware<T3::Output>,
    T5: Middleware<T4::Output>,
    T6: Middleware<T5::Output>,
 {
    type Output = T6::Output;

    open spec fn accepts(&self, ep: E) -> bool {
        crate::middleware::accepts_in_turn((self.0, self.1, self.2, self.3, self.4), self.5, ep)
    }

    open spec fn wraps(&self, ep: E, out: T6::Output) -> bool {
        crate::middleware::wraps_in_turn((self.0, self.1, self.2, self.3, self.4), self.5, ep, out)
    }

    fn transform(&self, ep: E) -> (out: T6::Output) {
        let wrapped1 = self.0.transform(ep);
        let wrapped2 = self.1.transform(wrapped1);
        assert((self.0, self.1).wraps(ep, wrapped2));
        let wrapped3 = self.2.transform(wrapped2);
        assert((self.0, self.1, self.2).wraps(ep, wrapped3));
        let wrapped4 = self.3.transform(wrapped3);
        assert((self.0, self.1, self.2, self.3).wraps(ep, wrapped4));
        let wrapped5 = self.4.transform(wrapped4);
        assert((self.0, self.1, self.2, self.3, self.4).wraps(ep, wrapped5));
        self.5.transform(wrapped5)
    }
}

impl<E, T1, T2, T3, T4, T5, T6, T7> Middleware<E> for (T1, T2, T3, T4, T5, T6, T7) where
    E: Endpoint,
    T1: Middleware<E>,
    T2: Middleware<T1::Output>,
    T3: Middleware<T2::Output>,
    T4: Middleware<T3::Output>,
    T5: Middleware<T4::Output>,
    T6: Middleware<T5::Output>,
    T7: Middleware<T6::Output>,
 {
    type Output = T7::Output;

    open spec fn accepts(&self, ep: E) -> bool {
        crate::middleware::accepts_in_turn((self.0, self.1, self.2, self.3, self.4, self.5), self.6, ep)
    }

    open spec fn wraps(&self, ep: E, out: T7::Output) -> bool {
        crate::middleware::wraps_in_turn((self.0, self.1, self.2, self.3, self.4, self.5), self.6, ep, out)
    }

    fn transform(&self, ep: E) -> (out: T7::Output) {
        let wrapped1 = self.0.transform(ep);
        let wrapped2 = self.1.transform(wrapped1);
        assert((self.0, self.1).wraps(ep, wrapped2));
        let wrapped3 = self.2.transform(wrapped2);
        assert((self.0, self.1, self.2).wraps(ep, wrapped3));
        let wrapped4 = self.3.transform(wrapped3);
        assert((self.0, self.1, self.2, self.3).wraps(ep, wrapped4));
        let wrapped5 = self.4.transform(wrapped4);
        assert((self.0, self.1, self.2, self.3, self.4).wraps(ep, wrapped5));
        let wrapped6 = self.5.transform(wrapped5);
        assert((self.0, self.1, self.2, self.3, self.4, self.5).wraps(ep, wrapped6));
        self.6.transform(wrapped6)
    }
}

impl<E, T1, T2, T3, T4, T5, T6, T7, T8> Middleware<E> for (T1, T2, T3, T4, T5, T6, T7, T8) where
    E: Endpoint,
    T1: Middleware<E>,
    T2: Middleware<T1::Output>,
    T3: Middleware<T2::Output>,
    T4: Middleware<T3::Output>,
    T5: Middleware<T4::Output>,
    T6: Middleware<T5::Output>,
    T7: Middleware<T6::Output>,
    T8: Middleware<T7::Output>,
 {
    type Output = T8::Output;

    open spec fn accepts(&self, ep: E) -> bool {
        crate::middleware::accepts_in_turn((self.0, self.1, self.2, self.3, self.4, self.5, self.6), self.7, ep)
    }

    open spec fn wraps(&self, ep: E, out: T8::Output) -> bool {
        crate::middleware::wraps_in_turn((self.0, self.1, self.2, self.3, self.4, self.5, self.6), self.7, ep, out)
    }

    fn transform(&self, ep: E) -> (out: T8::Output) {
        let wrapped1 = self.0.transform(ep);
        let wrapped2 = self.1.transform(wrapped1);
        assert((self.0, self.1).wraps(ep, wrapped2));
        let wrapped3 = self.2.transform(wrapped2);
        assert((self.0, self.1, self.2).wraps(ep, wrapped3));
        let wrapped4 = self.3.transform(wrapped3);
        assert((self.0, self.1, self.2, self.3).wraps(ep, wrapped4));
        let wrapped5 = self.4.transform(wrapped4);
        assert((self.0, self.1, self.2, self.3, self.4).wraps(ep, wrapped5));
        let wrapped6 = self.5.transform(wrapped5);
        assert((self.0, self.1, self.2, self.3, self.4, self.5).wraps(ep, wrapped6));
        let wrapped7 = self.6.transform(wrapped6);
        assert((self.0, self.1, self.2, self.3, self.4, self.5, self.6).wraps(ep, wrapped7));
        self.7.transform(wrapped7)
    }
}

impl<E, T1, T2, T3, T4, T5, T6, T7, T8, T9> Middleware<E> for (T1, T2, T3, T4, T5, T6, T7, T8, T9) where
    E: Endpoint,
    T1: Middleware<E>,
    T2: Middleware<T1::Output>,
    T3: Middleware<T2::Output>,
    T4: Middleware<T3::Output>,
    T5: Middleware<T4::Output>,
    T6: Middleware<T5::Output>,
    T7: Middleware<T6::Output>,
    T8: Middleware<T7::Output>,
    T9: Middleware<T8::Output>,
 {
    type Output = T9::Output;

    open spec fn accepts(&self, ep: E) -> bool {
        crate::middleware::accepts_in_turn((self.0, self.1, self.2, self.3, self.4, self.5, self.6, self.7), self.8, ep)
    }

    open spec fn wraps(&self, ep: E, out: T9::Output) -> bool {
        crate::middleware::wraps_in_turn((self.0, self.1, self.2, self.3, self.4, self.5, self.6, self.7), self.8, ep, out)
    }

    fn transform(&self, ep: E) -> (out: T9::Output) {
        let wrapped1 = self.0.transform(ep);
        let wrapped2 = self.1.transform(wrapped1);
        assert((self.0, self.1).wraps(ep, wrapped2));
        let wrapped3 = self.2.transform(wrapped2);
        assert((self.0, self.1, self.2).wraps(ep, wrapped3));
        let wrapped4 = self.3.transform(wrapped3);
        assert((self.0, self.1, self.2, self.3).wraps(ep, wrapped4));
        let wrapped5 = self.4.transform(wrapped4);
        assert((self.0, self.1, self.2, self.3, self.4).wraps(ep, wrapped5));
        let wrapped6 = self.5.transform(wrapped5);
        assert((self.0, self.1, self.2, self.3, self.4, self.5).wraps(ep, wrapped6));
        let wrapped7 = self.6.transform(wrapped6);
        assert((self.0, self.1, self.2, self.3, self.4, self.5, self.6).wraps(ep, wrapped7));
        let wrapped8 = self.7.transform(wrapped7);
        assert((self.0, self.1, self.2, self.3, self.4, self.5, self.6, self.7).wraps(ep, wrapped8));
        self.8.transform(wrapped8)
    }
}

impl<E, T1, T2, T3, T4, T5, T6, T7, T8, T9, T10> Middleware<E> for (T1, T2, T3, T4, T5, T6, T7, T8, T9, T10) where
    E: Endpoint,
    T1: Middleware<E>,
    T2: Middleware<T1::Output>,
    T3: Middleware<T2::Output>,
    T4: Middleware<T3::Output>,
    T5: Middleware<T4::Output>,
    T6: Middleware<T5::Output>,
    T7: Middleware<T6::Output>,
    T8: Middleware<T7::Output>,
    T9: Middleware<T8::Output>,
    T10: Middleware<T9::Output>,
 {
    type Output = T10::Output;

    open spec fn accepts(&self, ep: E) -> bool {
        crate::middleware::accepts_in_turn((self.0, self.1, self.2, self.3, self.4, self.5, self.6, self.7, self.8), self.9, ep)
    }

    open spec fn wraps(&self, ep: E, out: T10::Output) -> bool {
        crate::middleware::wraps_in_turn((self.0, self.1, self.2, self.3, self.4, self.5, self.6, self.7, self.8), self.9, ep, out)
    }

    fn transform(&self, ep: E) -> (out: T10::Output) {
        let wrapped1 = self.0.transform(ep);
        let wrapped2 = self.1.transform(wrapped1);
        assert((self.0, self.1).wraps(ep, wrapped2));
        let wrapped3 = self.2.transform(wrapped2);
        assert((self.0, self.1, self.2).wraps(ep, wrapped3));
        let wrapped4 = self.3.transform(wrapped3);
        assert((self.0, self.1, self.2, self.3).wraps(ep, wrapped4));
        let wrapped5 = self.4.transform(wrapped4);
        assert((self.0, self.1, self.2, self.3, self.4).wraps(ep, wrapped5));
        let wrapped6 = self.5.transform(wrapped5);
        assert((self.0, self.1, self.2, self.3, self.4, self.5).wraps(ep, wrapped6));
        let wrapped7 = self.6.transform(wrapped6);
        assert((self.0, self.1, self.2, self.3, self.4, self.5, self.6).wraps(ep, wrapped7));
        let wrapped8 = self.7.transform(wrapped7);
        assert((self.0, self.1, self.2, self.3, self.4, self.5, self.6, self.7).wraps(ep, wrapped8));
        let wrapped9 = self.8.transform(wrapped8);
        assert((self.0, self.1, self.2, self.3, self.4, self.5, self.6, self.7, self.8).wraps(ep, wrapped9));
        self.9.transform(wrapped9)
    }
}

impl<E, T1, T2, T3, T4, T5, T6, T7, T8, T9, T10, T11> Middleware<E> for (T1, T2, T3, T4, T5, T6, T7, T8, T9, T10, T11) where
    E: Endpoint,
    T1: Middleware<E>,
    T2: Middleware<T1::Output>,
    T3: Middleware<T2::Output>,
    T4: Middleware<T3::Output>,
    T5: Middleware<T4::Output>,
    T6: Middleware<T5::Output>,
    T7: Middleware<T6::Output>,
    T8: Middleware<T7::Output>,
    T9: Middleware<T8::Output>,
    T10: Middleware<T9::Output>,
    T11: Middleware<T10::Output>,
 {
    type Output = T11::Output;

    open spec fn accepts(&self, ep: E) -> bool {
        crate::middleware::accepts_in_turn((self.0, self.1, self.2, self.3, self.4, self.5, self.6, self.7, self.8, self.9), self.10, ep)
    }

    open spec fn wraps(&self, ep: E, out: T11::Output) -> bool {
        crate::middleware::wraps_in_turn((self.0, self.1, self.2, self.3, self.4, self.5, self.6, self.7, self.8, self.9), self.10, ep, out)
    }

    fn transform(&self, ep: E) -> (out: T11::Output) {
        let wrapped1 = self.0.transform(ep);
        let wrapped2 = self.1.transform(wrapped1);
        assert((self.0, self.1).wraps(ep, wrapped2));
        let wrapped3 = self.2.transform(wrapped2);
        assert((self.0, self.1, self.2).wraps(ep, wrapped3));
        let wrapped4 = self.3.transform(wrapped3);
        assert((self.0, self.1, self.2, self.3).wraps(ep, wrapped4));
        let wrapped5 = self.4.transform(wrapped4);
        assert((self.0, self.1, self.2, self.3, self.4).wraps(ep, wrapped5));
        let wrapped6 = self.5.transform(wrapped5);
        assert((self.0, self.1, self.2, self.3, self.4, self.5).wraps(ep, wrapped6));
        let wrapped7 = self.6.transform(wrapped6);
        assert((self.0, self.1, self.2, self.3, self.4, self.5, self.6).wraps(ep, wrapped7));
        let wrapped8 = self.7.transform(wrapped7);
        assert((self.0, self.1, self.2, self.3, self.4, self.5, self.6, self.7).wraps(ep, wrapped8));
        let wrapped9 = self.8.transform(wrapped8);
        assert((self.0, self.1, self.2, self.3, self.4, self.5, self.6, self.7, self.8).wraps(ep, wrapped9));
        let wrapped10 = self.9.transform(wrapped9);
        assert((self.0, self.1, self.2, self.3, self.4, self.5, self.6, self.7, self.8, self.9).wraps(ep, wrapped10));
        self.10.transform(wrapped10)
    }
}

impl<E, T1, T2, T3, T4, T5, T6, T7, T8, T9, T10, T11, T12> Middleware<E> for (T1, T2, T3, T4, T5, T6, T7, T8, T9, T10, T11, T12) where
    E: Endpoint,
    T1: Middleware<E>,
    T2: Middleware<T1::Output>,
    T3: Middleware<T2::Output>,
    T4: Middleware<T3::Output>,
    T5: Middleware<T4::Output>,
    T6: Middleware<T5::Output>,
    T7: Middleware<T6::Output>,
    T8: Middleware<T7::Output>,
    T9: Middleware<T8::Output>,
    T10: Middleware<T9::Output>,
    T11: Middleware<T10::Output>,
    T12: Middleware<T11::Output>,
 {
    type Output = T12::Output;

    open spec fn accepts(&self, ep: E) -> bool {
        crate::middleware::accepts_in_turn((self.0, self.1, self.2, self.3, self.4, self.5, self.6, self.7, self.8, self.9, self.10), self.11, ep)
    }

    open spec fn wraps(&self, ep: E, out: T12::Output) -> bool {
        crate::middleware::wraps_in_turn((self.0, self.1, self.2, self.3, self.4, self.5, self.6, self.7, self.8, self.9, self.10), self.11, ep, out)
    }

    fn transform(&self, ep: E) -> (out: T12::Output) {
        let wrapped1 = self.0.transform(ep);
        let wrapped2 = self.1.transform(wrapped1);
        assert((self.0, self.1).wraps(ep, wrapped2));
        let wrapped3 = self.2.transform(wrapped2);
        assert((self.0, self.1, self.2).wraps(ep, wrapped3));
        let wrapped4 = self.3.transform(wrapped3);
        assert((self.0, self.1, self.2, self.3).wraps(ep, wrapped4));
        let wrapped5 = self.4.transform(wrapped4);
        assert((self.0, self.1, self.2, self.3, self.4).wraps(ep, wrapped5));
        let wrapped6 = self.5.transform(wrapped5);
        assert((self.0, self.1, self.2, self.3, self.4, self.5).wraps(ep, wrapped6));
        let wrapped7 = self.6.transform(wrapped6);
        assert((self.0, self.1, self.2, self.3, self.4, self.5, self.6).wraps(ep, wrapped7));
        let wrapped8 = self.7.transform(wrapped7);
        assert((self.0, self.1, self.2, self.3, self.4, self.5, self.6, self.7).wraps(ep, wrapped8));
        let wrapped9 = self.8.transform(wrapped8);
        assert((self.0, self.1, self.2, self.3, self.4, self.5, self.6, self.7, self.8).wraps(ep, wrapped9));
        let wrapped10 = self.9.transform(wrapped9);
        assert((self.0, self.1, self.2, self.3, self.4, self.5, self.6, self.7, self.8, self.9).wraps(ep, wrapped10));
        let wrapped11 = self.10.transform(wrapped10);
        assert((self.0, self.1, self.2, self.3, self.4, self.5, self.6, self.7, self.8, self.9, self.10).wraps(ep, wrapped11));
        self.11.transform(wrapped11)
    }
}

impl<E, T1, T2, T3, T4, T5, T6, T7, T8, T9, T10, T11, T12, T13> Middleware<E> for (T1, T2, T3, T4, T5, T6, T7, T8, T9, T10, T11, T12, T13) where
    E: Endpoint,
    T1: Middleware<E>,
    T2: Middleware<T1::Output>,
    T3: Middleware<T2::Output>,
    T4: Middleware<T3::Output>,
    T5: Middleware<T4::Output>,
    T6: Middleware<T5::Output>,
    T7: Middleware<T6::Output>,
    T8: Middleware<T7::Output>,
    T9: Middleware<T8::Output>,
    T10: Middleware<T9::Output>,
    T11: Middleware<T10::Output>,
    T12: Middleware<T11::Output>,
    T13: Middleware<T12::Output>,
 {
    type Output = T13::Output;

    open spec fn accepts(&self, ep: E) -> bool {
        crate::middleware::accepts_in_turn((self.0, self.1, self.2, self.3, self.4, self.5, self.6, self.7, self.8, self.9, self.10, self.11), self.12, ep)
    }

    open spec fn wraps(&self, ep: E, out: T13::Output) -> bool {
        crate::middleware::wraps_in_turn((self.0, self.1, self.2, self.3, self.4, self.5, self.6, self.7, self.8, self.9, self.10, self.11), self.12, ep, out)
    }

    fn transform(&self, ep: E) -> (out: T13::Output) {
        let wrapped1 = self.0.transform(ep);
        let wrapped2 = self.1.transform(wrapped1);
        assert((self.0, self.1).wraps(ep, wrapped2));
        let wrapped3 = self.2.transform(wrapped2);
        assert((self.0, self.1, self.2).wraps(ep, wrapped3));
        let wrapped4 = self.3.transform(wrapped3);
        assert((self.0, self.1, self.2, self.3).wraps(ep, wrapped4));
        let wrapped5 = self.4.transform(wrapped4);
        assert((self.0, self.1, self.2, self.3, self.4).wraps(ep, wrapped5));
        let wrapped6 = self.5.transform(wrapped5);
        assert((self.0, self.1, self.2, self.3, self.4, self.5).wraps(ep, wrapped6));
        let wrapped7 = self.6.transform(wrapped6);
        assert((self.0, self.1, self.2, self.3, self.4, self.5, self.6).wraps(ep, wrapped7));
        let wrapped8 = self.7.transform(wrapped7);
        assert((self.0, self.1, self.2, self.3, self.4, self.5, self.6, self.7).wraps(ep, wrapped8));
        let wrapped9 = self.8.transform(wrapped8);
        assert((self.0, self.1, self.2, self.3, self.4, self.5, self.6, self.7, self.8).wraps(ep, wrapped9));
        let wrapped10 = self.9.transform(wrapped9);
        assert((self.0, self.1, self.2, self.3, self.4, self.5, self.6, self.7, self.8, self.9).wraps(ep, wrapped10));
        let wrapped11 = self.10.transform(wrapped10);
        assert((self.0, self.1, self.2, self.3, self.4, self.5, self.6, self.7, self.8, self.9, self.10).wraps(ep, wrapped11));
        let wrapped12 = self.11.transform(wrapped11);
        assert((self.0, self.1, self.2, self.3, self.4, self.5, self.6, self.7, self.8, self.9, self.10, self.11).wraps(ep, wrapped12));
        self.12.transform(wrapped12)
    }
}

impl<E, T1, T2, T3, T4, T5, T6, T7, T8, T9, T10, T11, T12, T13, T14> Middleware<E> for (T1, T2, T3, T4, T5, T6, T7, T8, T9, T10, T11, T12, T13, T14) where
    E: Endpoint,
    T1: Middleware<E>,
    T2: Middleware<T1::Output>,
    T3: Middleware<T2::Output>,
    T4: Middleware<T3::Output>,
    T5: Middleware<T4::Output>,
    T6: Middleware<T5::Output>,
    T7: Middleware<T6::Output>,
    T8: Middleware<T7::Output>,
    T9: Middleware<T8::Output>,
    T10: Middleware<T9::Output>,
    T11: Middleware<T10::Output>,
    T12: Middleware<T11::Output>,
    T13: Middleware<T12::Output>,
    T14: Middleware<T13::Output>,
 {
    type Output = T14::Output;

    open spec fn accepts(&self, ep: E) -> bool {
        crate::middleware::accepts_in_turn((self.0, self.1, self.2, self.3, self.4, self.5, self.6, self.7, self.8, self.9, self.10, self.11, self.12), self.13, ep)
    }

    open spec fn wraps(&self, ep: E, out: T14::Output) -> bool {
        crate::middleware::wraps_in_turn((self.0, self.1, self.2, self.3, self.4, self.5, self.6, self.7, self.8, self.9, self.10, self.11, self.12), self.13, ep, out)
    }

    fn transform(&self, ep: E) -> (out: T14::Output) {
        let wrapped1 = self.0.transform(ep);
        let wrapped2 = self.1.transform(wrapped1);
        assert((self.0, self.1).wraps(ep, wrapped2));
        let wrapped3 = self.2.transform(wrapped2);
        assert((self.0, self.1, self.2).wraps(ep, wrapped3));
        let wrapped4 = self.3.transform(wrapped3);
        assert((self.0, self.1, self.2, self.3).wraps(ep, wrapped4));
        let wrapped5 = self.4.transform(wrapped4);
        assert((self.0, self.1, self.2, self.3, self.4).wraps(ep, wrapped5));
        let wrapped6 = self.5.transform(wrapped5);
        assert((self.0, self.1, self.2, self.3, self.4, self.5).wraps(ep, wrapped6));
        let wrapped7 = self.6.transform(wrapped6);
        assert((self.0, self.1, self.2, self.3, self.4, self.5, self.6).wraps(ep, wrapped7));
        let wrapped8 = self.7.transform(wrapped7);
        assert((self.0, self.1, self.2, self.3, self.4, self.5, self.6, self.7).wraps(ep, wrapped8));
        let wrapped9 = self.8.transform(wrapped8);
        assert((self.0, self.1, self.2, self.3, self.4, self.5, self.6, self.7, self.8).wraps(ep, wrapped9));
        let wrapped10 = self.9.transform(wrapped9);
        assert((self.0, self.1, self.2, self.3, self.4, self.5, self.6, self.7, self.8, self.9).wraps(ep, wrapped10));
        let wrapped11 = self.10.transform(wrapped10);
        assert((self.0, self.1, self.2, self.3, self.4, self.5, self.6, self.7, self.8, self.9, self.10).wraps(ep, wrapped11));
        let wrapped12 = self.11.transform(wrapped11);
        assert((self.0, self.1, self.2, self.3, self.4, self.5, self.6, self.7, self.8, self.9, self.10, self.11).wraps(ep, wrapped12));
        let wrapped13 = self.12.transform(wrapped12);
        assert((self.0, self.1, self.2, self.3, self.4, self.5, self.6, self.7, self.8, self.9, self.10, self.11, self.12).wraps(ep, wrapped13));
        self.13.transform(wrapped13)
    }
}

impl<E, T1, T2, T3, T4, T5, T6, T7, T8, T9, T10, T11, T12, T13, T14, T15> Middleware<E> for (T1, T2, T3, T4, T5, T6, T7, T8, T9, T10, T11, T12, T13, T14, T15) where
    E: Endpoint,
    T1: Middleware<E>,
    T2: Middleware<T1::Output>,
    T3: Middleware<T2::Output>,
    T4: Middleware<T3::Output>,
    T5: Middleware<T4::Output>,
    T6: Middleware<T5::Output>,
    T7: Middleware<T6::Output>,
    T8: Middleware<T7::Output>,
    T9: Middleware<T8::Output>,
    T10: Middleware<T9::Output>,
    T11: Middleware<T10::Output>,
    T12: Middleware<T11::Output>,
    T13: Middleware<T12::Output>,
    T14: Middleware<T13::Output>,
    T15: Middleware<T14::Output>,
 {
    type Output = T15::Output;

    open spec fn accepts(&self, ep: E) -> bool {
        crate::middleware::accepts_in_turn((self.0, self.1, self.2, self.3, self.4, self.5, self.6, self.7, self.8, self.9, self.10, self.11, self.12, self.13), self.14, ep)
    }

    open spec fn wraps(&self, ep: E, out: T15::Output) -> bool {
        crate::middleware::wraps_in_turn((self.0, self.1, self.2, self.3, self.4, self.5, self.6, self.7, self.8, self.9, self.10, self.11, self.12, self.13), self.14, ep, out)
    }

    fn transform(&self, ep: E) -> (out: T15::Output) {
        let wrapped1 = self.0.transform(ep);
        let wrapped2 = self.1.transform(wrapped1);
        assert((self.0, self.1).wraps(ep, wrapped2));
        let wrapped3 = self.2.transform(wrapped2);
        assert((self.0, self.1, self.2).wraps(ep, wrapped3));
        let wrapped4 = self.3.transform(wrapped3);
        assert((self.0, self.1, self.2, self.3).wraps(ep, wrapped4));
        let wrapped5 = self.4.transform(wrapped4);
        assert((self.0, self.1, self.2, self.3, self.4).wraps(ep, wrapped5));
        let wrapped6 = self.5.transform(wrapped5);
        assert((self.0, self.1, self.2, self.3, self.4, self.5).wraps(ep, wrapped6));
        let wrapped7 = self.6.transform(wrapped6);
        assert((self.0, self.1, self.2, self.3, self.4, self.5, self.6).wraps(ep, wrapped7));
        let wrapped8 = self.7.transform(wrapped7);
        assert((self.0, self.1, self.2, self.3, self.4, self.5, self.6, self.7).wraps(ep, wrapped8));
        let wrapped9 = self.8.transform(wrapped8);
        assert((self.0, self.1, self.2, self.3, self.4, self.5, self.6, self.7, self.8).wraps(ep, wrapped9));
        let wrapped10 = self.9.transform(wrapped9);
        assert((self.0, self.1, self.2, self.3, self.4, self.5, self.6, self.7, self.8, self.9).wraps(ep, wrapped10));
        let wrapped11 = self.10.transform(wrapped10);
        assert((self.0, self.1, self.2, self.3, self.4, self.5, self.6, self.7, self.8, self.9, self.10).wraps(ep, wrapped11));
        let wrapped12 = self.11.transform(wrapped11);
        assert((self.0, self.1, self.2, self.3, self.4, self.5, self.6, self.7, self.8, self.9, self.10, self.11).wraps(ep, wrapped12));
        let wrapped13 = self.12.transform(wrapped12);
        assert((self.0, self.1, self.2, self.3, self.4, self.5, self.6, self.7, self.8, self.9, self.10, self.11, self.12).wraps(ep, wrapped13));
        let wrapped14 = self.13.transform(wrapped13);
        assert((self.0, self.1, self.2, self.3, self.4, self.5, self.6, self.7, self.8, self.9, self.10, self.11, self.12, self.13).wraps(ep, wrapped14));
        self.14.transform(wrapped14)
    }
}

impl<E, T1, T2, T3, T4, T5, T6, T7, T8, T9, T10, T11, T12, T13, T14, T15, T16> Middleware<E> for (T1, T2, T3, T4, T5, T6, T7, T8, T9, T10, T11, T12, T13, T14, T15, T16) where
    E: Endpoint,
    T1: Middleware<E>,
    T2: Middleware<T1::Output>,
    T3: Middleware<T2::Output>,
    T4: Middleware<T3::Output>,
    T5: Middleware<T4::Output>,
    T6: Middleware<T5::Output>,
    T7: Middleware<T6::Output>,
    T8: Middleware<T7::Output>,
    T9: Middleware<T8::Output>,
    T10: Middleware<T9::Output>,
    T11: Middleware<T10::Output>,
    T12: Middleware<T11::Output>,
    T13: Middleware<T12::Output>,
    T14: Middleware<T13::Output>,
    T15: Middleware<T14::Output>,
    T16: Middleware<T15::Output>,
 {
    type Output = T16::Output;

    open spec fn accepts(&self, ep: E) -> bool {
        crate::middleware::accepts_in_turn((self.0, self.1, self.2, self.3, self.4, self.5, self.6, self.7, self.8, self.9, self.10, self.11, self.12, self.13, self.14), self.15, ep)
    }

    open spec fn wraps(&self, ep: E, out: T16::Output) -> bool {
        crate::middleware::wraps_in_turn((self.0, self.1, self.2, self.3, self.4, self.5, self.6, self.7, self.8, self.9, self.10, self.11, self.12, self.13, self.14), self.15, ep, out)
    }

    fn transform(&self, ep: E) -> (out: T16::Output) {
        let wrapped1 = self.0.transform(ep);
        let wrapped2 = self.1.transform(wrapped1);
        assert((self.0, self.1).wraps(ep, wrapped2));
        let wrapped3 = self.2.transform(wrapped2);
        assert((self.0, self.1, self.2).wraps(ep, wrapped3));
        let wrapped4 = self.3.transform(wrapped3);
        assert((self.0, self.1, self.2, self.3).wraps(ep, wrapped4));
        let wrapped5 = self.4.transform(wrapped4);
        assert((self.0, self.1, self.2, self.3, self.4).wraps(ep, wrapped5));
        let wrapped6 = self.5.transform(wrapped5);
        assert((self.0, self.1, self.2, self.3, self.4, self.5).wraps(ep, wrapped6));
        let wrapped7 = self.6.transform(wrapped6);
        assert((self.0, self.1, self.2, self.3, self.4, self.5, self.6).wraps(ep, wrapped7));
        let wrapped8 = self.7.transform(wrapped7);
        assert((self.0, self.1, self.2, self.3, self.4, self.5, self.6, self.7).wraps(ep, wrapped8));
        let wrapped9 = self.8.transform(wrapped8);
        assert((self.0, self.1, self.2, self.3, self.4, self.5, self.6, self.7, self.8).wraps(ep, wrapped9));
        let wrapped10 = self.9.transform(wrapped9);
        assert((self.0, self.1, self.2, self.3, self.4, self.5, self.6, self.7, self.8, self.9).wraps(ep, wrapped10));
        let wrapped11 = self.10.transform(wrapped10);
        assert((self.0, self.1, self.2, self.3, self.4, self.5, self.6, self.7, self.8, self.9, self.10).wraps(ep, wrapped11));
        let wrapped12 = self.11.transform(wrapped11);
        assert((self.0, self.1, self.2, self.3, self.4, self.5, self.6, self.7, self.8, self.9, self.10, self.11).wraps(ep, wrapped12));
        let wrapped13 = self.12.transform(wrapped12);
        assert((self.0, self.1, self.2, self.3, self.4, self.5, self.6, self.7, self.8, self.9, self.10, self.11, self.12).wraps(ep, wrapped13));
        let wrapped14 = self.13.transform(wrapped13);
        assert((self.0, self.1, self.2, self.3, self.4, self.5, self.6, self.7, self.8, self.9, self.10, self.11, self.12, self.13).wraps(ep, wrapped14));
        let wrapped15 = self.14.transform(wrapped14);
        assert((self.0, self.1, self.2, self.3, self.4, self.5, self.6, self.7, self.8, self.9, self.10, self.11, self.12, self.13, self.14).wraps(ep, wrapped15));
        self.15.transform(wrapped15)
    }
}

} // verus!
