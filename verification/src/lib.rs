//! Partial-borrow bundles: wrap disjoint parts of an owning structure into
//! read-only and mutable handles, chain them into an ordered fixed-arity
//! bundle, and carry the whole bundle under a single validity span that can
//! only ever shrink.

use vstd::prelude::*;

mod compose;
mod handles;
pub mod laws;

pub use compose::Append;
pub use handles::Ref;
pub use handles::Mut;

verus! {

use core::marker::PhantomData;

/// Container for a value which remains valid over the span `'a`.
///
/// The wrapped value is usually an ordered bundle (tuple) of [`Ref`] and
/// [`Mut`] handles, grown one element at a time by the chain methods.
#[derive(Debug)]
pub struct LifeRef<'a, T> {
    /// The wrapped bundle or transformed value.
    pub inner: T,
    /// Ties the container to the span `'a`; carries no data.
    pub phantom: PhantomData<&'a T>,
}

impl<'a, T> LifeRef<'a, (Ref<'a, T>,)> {
    /// Wraps an immutable borrow as a one-element bundle, ready for chaining.
    pub fn wrap_ref(r: &'a T) -> (out: Self)
        ensures
            out.inner.0 == (Ref(r)),
    {
        LifeRef { inner: (Ref(r),), phantom: PhantomData }
    }
}

impl<'a, T> LifeRef<'a, (Mut<T>,)> {
    /// Takes a value into an exclusive mutable handle, as a one-element
    /// bundle ready for chaining. The owner hands the value over here and
    /// receives it back through the handle when the span ends.
    pub fn wrap_mut(v: T) -> (out: Self)
        ensures
            out.inner.0.value == v,
    {
        LifeRef { inner: (Mut::new(v),), phantom: PhantomData }
    }
}

impl<'a, T> LifeRef<'a, T> {
    /// Nests the wrapped value as a one-element bundle, so a later merge
    /// composes at depth one instead of flattening.
    pub fn wrap_life(self) -> (out: LifeRef<'a, (T,)>)
        ensures
            out.inner == (self.inner,),
    {
        LifeRef { inner: (self.inner,), phantom: PhantomData }
    }

    /// Appends one more immutable handle to the bundle. The result stays
    /// bound to `'a`, so it cannot outlive either the bundle so far or the
    /// new borrow.
    pub fn add_ref<U>(self, r: &'a U) -> (out: LifeRef<'a, T::Output>) where T: Append<Ref<'a, U>>
        ensures
            out.inner == self.inner.append_spec((Ref(r))),
    {
        LifeRef { inner: self.inner.append(Ref(r)), phantom: PhantomData }
    }

    /// Appends one more mutable handle, holding `v` exclusively, to the
    /// bundle.
    pub fn add_mut<U>(self, v: U) -> (out: LifeRef<'a, T::Output>) where T: Append<Mut<U>>
        ensures
            out.inner == self.inner.append_spec((Mut { value: v })),
    {
        LifeRef { inner: self.inner.append(Mut::new(v)), phantom: PhantomData }
    }

    /// Merges another container's bundle onto the end of this one.
    ///
    /// `other`'s span `'b` must cover `'a`, and the merged container is
    /// bound to `'a`: the result can never be kept longer than the shorter
    /// of the two input spans.
    pub fn add_life<'b, U>(self, other: LifeRef<'b, U>) -> (out: LifeRef<'a, T::Output>) where
        T: Append<U>,
        'b: 'a,
        ensures
            out.inner == self.inner.append_spec(other.inner),
    {
        LifeRef { inner: self.inner.append(other.inner), phantom: PhantomData }
    }

    /// Transforms the wrapped value — typically destructuring an anonymous
    /// bundle into a named view structure — while keeping the span `'a`
    /// unchanged.
    pub fn map_life<U, F: Fn(T) -> U>(self, f: F) -> (out: LifeRef<'a, U>)
        requires
            call_requires(f, (self.inner,)),
        ensures
            call_ensures(f, (self.inner,), out.inner),
    {
        LifeRef { inner: f(self.inner), phantom: PhantomData }
    }
}

impl<'a, T> From<T> for LifeRef<'a, T> {
    /// Wraps an owned value directly, with a free choice of span.
    fn from(t: T) -> (out: Self)
    {
        LifeRef { inner: t, phantom: PhantomData }
    }
}

impl<'a, T: Default> Default for LifeRef<'a, T> {
    /// Wraps the default value of the wrapped type.
    fn default() -> (out: Self)
        ensures
            call_ensures(T::default, (), out.inner),
    {
        LifeRef { inner: T::default(), phantom: PhantomData }
    }
}

impl<'a, T> vstd::std_specs::convert::FromSpecImpl<T> for LifeRef<'a, T> {
    open spec fn obeys_from_spec() -> bool {
        true
    }

    open spec fn from_spec(t: T) -> Self {
        LifeRef { inner: t, phantom: PhantomData }
    }
}

} // verus!
