//! Fixed-arity composition: extend an ordered heterogeneous bundle (a
//! tuple) by exactly one trailing element, for arities up to 16.
//!
//! Each arity is a closed case of its own, so growing a bundle past the
//! largest arity fails when the code is built, never at run time.

use vstd::prelude::*;

verus! {

/// Extends an ordered bundle by one trailing element.
///
/// `append_spec` says exactly which tuple comes out: every existing
/// position is kept, and the new element stands last. `append` is proved
/// to return that tuple.
pub trait Append<E>: Sized {
    /// The bundle type one element longer.
    type Output;

    /// The exact result of appending `e` to `self`.
    spec fn append_spec(self, e: E) -> Self::Output;

    /// Appends `e` after the existing elements.
    fn append(self, e: E) -> (r: Self::Output)
        ensures
            r == self.append_spec(e),
    ;
}


impl<E> Append<E> for () {
    type Output = (E,);

    open spec fn append_spec(self, e: E) -> (E,) {
        (e,)
    }

    fn append(self, e: E) -> (E,) {
        (e,)
    }
}

impl<A, E> Append<E> for (A,) {
    type Output = (A, E);

    open spec fn append_spec(self, e: E) -> (A, E) {
        (self.0, e)
    }

    fn append(self, e: E) -> (A, E) {
        (self.0, e)
    }
}

impl<A, B, E> Append<E> for (A, B) {
    type Output = (A, B, E);

    open spec fn append_spec(self, e: E) -> (A, B, E) {
        (self.0, self.1, e)
    }

    fn append(self, e: E) -> (A, B, E) {
        (self.0, self.1, e)
    }
}

impl<A, B, C, E> Append<E> for (A, B, C) {
    type Output = (A, B, C, E);

    open spec fn append_spec(self, e: E) -> (A, B, C, E) {
        (self.0, self.1, self.2, e)
    }

    fn append(self, e: E) -> (A, B, C, E) {
        (self.0, self.1, self.2, e)
    }
}

impl<A, B, C, D, E> Append<E> for (A, B, C, D) {
    type Output = (A, B, C, D, E);

    open spec fn append_spec(self, e: E) -> (A, B, C, D, E) {
        (self.0, self.1, self.2, self.3, e)
    }

    fn append(self, e: E) -> (A, B, C, D, E) {
        (self.0, self.1, self.2, self.3, e)
    }
}

impl<A, B, C, D, F, E> Append<E> for (A, B, C, D, F) {
    type Output = (A, B, C, D, F, E);

    open spec fn append_spec(self, e: E) -> (A, B, C, D, F, E) {
        (self.0, self.1, self.2, self.3, self.4, e)
    }

    fn append(self, e: E) -> (A, B, C, D, F, E) {
        (self.0, self.1, self.2, self.3, self.4, e)
    }
}

impl<A, B, C, D, F, G, E> Append<E> for (A, B, C, D, F, G) {
    type Output = (A, B, C, D, F, G, E);

    open spec fn append_spec(self, e: E) -> (A, B, C, D, F, G, E) {
        (self.0, self.1, self.2, self.3, self.4, self.5, e)
    }

    fn append(self, e: E) -> (A, B, C, D, F, G, E) {
        (self.0, self.1, self.2, self.3, self.4, self.5, e)
    }
}

impl<A, B, C, D, F, G, H, E> Append<E> for (A, B, C, D, F, G, H) {
    type Output = (A, B, C, D, F, G, H, E);

    open spec fn append_spec(self, e: E) -> (A, B, C, D, F, G, H, E) {
        (self.0, self.1, self.2, self.3, self.4, self.5, self.6, e)
    }

    fn append(self, e: E) -> (A, B, C, D, F, G, H, E) {
        (self.0, self.1, self.2, self.3, self.4, self.5, self.6, e)
    }
}

impl<A, B, C, D, F, G, H, I, E> Append<E> for (A, B, C, D, F, G, H, I) {
    type Output = (A, B, C, D, F, G, H, I, E);

    open spec fn append_spec(self, e: E) -> (A, B, C, D, F, G, H, I, E) {
        (self.0, self.1, self.2, self.3, self.4, self.5, self.6, self.7, e)
    }

    fn append(self, e: E) -> (A, B, C, D, F, G, H, I, E) {
        (self.0, self.1, self.2, self.3, self.4, self.5, self.6, self.7, e)
    }
}

impl<A, B, C, D, F, G, H, I, J, E> Append<E> for (A, B, C, D, F, G, H, I, J) {
    type Output = (A, B, C, D, F, G, H, I, J, E);

    open spec fn append_spec(self, e: E) -> (A, B, C, D, F, G, H, I, J, E) {
        (self.0, self.1, self.2, self.3, self.4, self.5, self.6, self.7, self.8, e)
    }

    fn append(self, e: E) -> (A, B, C, D, F, G, H, I, J, E) {
        (self.0, self.1, self.2, self.3, self.4, self.5, self.6, self.7, self.8, e)
    }
}

impl<A, B, C, D, F, G, H, I, J, K, E> Append<E> for (A, B, C, D, F, G, H, I, J, K) {
    type Output = (A, B, C, D, F, G, H, I, J, K, E);

    open spec fn append_spec(self, e: E) -> (A, B, C, D, F, G, H, I, J, K, E) {
        (self.0, self.1, self.2, self.3, self.4, self.5, self.6, self.7, self.8, self.9, e)
    }

    fn append(self, e: E) -> (A, B, C, D, F, G, H, I, J, K, E) {
        (self.0, self.1, self.2, self.3, self.4, self.5, self.6, self.7, self.8, self.9, e)
    }
}

impl<A, B, C, D, F, G, H, I, J, K, L, E> Append<E> for (A, B, C, D, F, G, H, I, J, K, L) {
    type Output = (A, B, C, D, F, G, H, I, J, K, L, E);

    open spec fn append_spec(self, e: E) -> (A, B, C, D, F, G, H, I, J, K, L, E) {
        (self.0, self.1, self.2, self.3, self.4, self.5, self.6, self.7, self.8, self.9, self.10, e)
    }

    fn append(self, e: E) -> (A, B, C, D, F, G, H, I, J, K, L, E) {
        (self.0, self.1, self.2, self.3, self.4, self.5, self.6, self.7, self.8, self.9, self.10, e)
    }
}

impl<A, B, C, D, F, G, H, I, J, K, L, M, E> Append<E> for (A, B, C, D, F, G, H, I, J, K, L, M) {
    type Output = (A, B, C, D, F, G, H, I, J, K, L, M, E);

    open spec fn append_spec(self, e: E) -> (A, B, C, D, F, G, H, I, J, K, L, M, E) {
        (self.0, self.1, self.2, self.3, self.4, self.5, self.6, self.7, self.8, self.9, self.10, self.11, e)
    }

    fn append(self, e: E) -> (A, B, C, D, F, G, H, I, J, K, L, M, E) {
        (self.0, self.1, self.2, self.3, self.4, self.5, self.6, self.7, self.8, self.9, self.10, self.11, e)
    }
}

impl<A, B, C, D, F, G, H, I, J, K, L, M, N, E> Append<E> for (A, B, C, D, F, G, H, I, J, K, L, M, N) {
    type Output = (A, B, C, D, F, G, H, I, J, K, L, M, N, E);

    open spec fn append_spec(self, e: E) -> (A, B, C, D, F, G, H, I, J, K, L, M, N, E) {
        (self.0, self.1, self.2, self.3, self.4, self.5, self.6, self.7, self.8, self.9, self.10, self.11, self.12, e)
    }

    fn append(self, e: E) -> (A, B, C, D, F, G, H, I, J, K, L, M, N, E) {
        (self.0, self.1, self.2, self.3, self.4, self.5, self.6, self.7, self.8, self.9, self.10, self.11, self.12, e)
    }
}

impl<A, B, C, D, F, G, H, I, J, K, L, M, N, O, E> Append<E> for (A, B, C, D, F, G, H, I, J, K, L, M, N, O) {
    type Output = (A, B, C, D, F, G, H, I, J, K, L, M, N, O, E);

    open spec fn append_spec(self, e: E) -> (A, B, C, D, F, G, H, I, J, K, L, M, N, O, E) {
        (self.0, self.1, self.2, self.3, self.4, self.5, self.6, self.7, self.8, self.9, self.10, self.11, self.12, self.13, e)
    }

    fn append(self, e: E) -> (A, B, C, D, F, G, H, I, J, K, L, M, N, O, E) {
        (self.0, self.1, self.2, self.3, self.4, self.5, self.6, self.7, self.8, self.9, self.10, self.11, self.12, self.13, e)
    }
}

impl<A, B, C, D, F, G, H, I, J, K, L, M, N, O, P, E> Append<E> for (A, B, C, D, F, G, H, I, J, K, L, M, N, O, P) {
    type Output = (A, B, C, D, F, G, H, I, J, K, L, M, N, O, P, E);

    open spec fn append_spec(self, e: E) -> (A, B, C, D, F, G, H, I, J, K, L, M, N, O, P, E) {
        (self.0, self.1, self.2, self.3, self.4, self.5, self.6, self.7, self.8, self.9, self.10, self.11, self.12, self.13, self.14, e)
    }

    fn append(self, e: E) -> (A, B, C, D, F, G, H, I, J, K, L, M, N, O, P, E) {
        (self.0, self.1, self.2, self.3, self.4, self.5, self.6, self.7, self.8, self.9, self.10, self.11, self.12, self.13, self.14, e)
    }
}

} // verus!
