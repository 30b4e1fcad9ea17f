//! The two reference-handle kinds: read-only [`Ref`] and exclusively
//! mutable [`Mut`].

use vstd::prelude::*;

verus! {

use vstd::std_specs::cmp::PartialEqSpec;
use vstd::std_specs::cmp::PartialOrdSpec;

/// Read-only handle: an immutable borrow of the referent.
///
/// All reads go through the borrow, so a handle compares and hashes
/// exactly as its referent does, and no operation mutates through it.
#[derive(Debug, Clone, Copy, Hash)]
pub struct Ref<'a, T>(pub &'a T);

impl<'a, T> Ref<'a, T> {
    /// Yields the underlying borrow.
    pub fn get(&self) -> (r: &'a T)
        ensures
            *r == *self.0,
    {
        self.0
    }

    /// Equality delegated to the referent: the handle compares as the
    /// value it points at.
    pub fn eq_referent(&self, other: &T) -> (r: bool) where T: PartialEq
        ensures
            T::obeys_eq_spec() ==> r == (*self.0).eq_spec(other),
    {
        self.0.eq(other)
    }
}

impl<'a, T: PartialEq> PartialEq for Ref<'a, T> {
    /// Two handles are equal exactly when their referents are.
    fn eq(&self, other: &Self) -> (r: bool) {
        self.0.eq(other.0)
    }
}

impl<'a, T: PartialEq> vstd::std_specs::cmp::PartialEqSpecImpl for Ref<'a, T> {
    open spec fn obeys_eq_spec() -> bool {
        T::obeys_eq_spec()
    }

    open spec fn eq_spec(&self, other: &Self) -> bool {
        (*self.0).eq_spec(other.0)
    }
}

impl<'a, T: PartialOrd> PartialOrd for Ref<'a, T> {
    /// Ordering delegated to the referents.
    fn partial_cmp(&self, other: &Self) -> (r: Option<core::cmp::Ordering>) {
        self.0.partial_cmp(other.0)
    }
}

impl<'a, T: PartialOrd> vstd::std_specs::cmp::PartialOrdSpecImpl for Ref<'a, T> {
    open spec fn obeys_partial_cmp_spec() -> bool {
        T::obeys_partial_cmp_spec()
    }

    open spec fn partial_cmp_spec(&self, other: &Self) -> Option<core::cmp::Ordering> {
        (*self.0).partial_cmp_spec(other.0)
    }
}

/// Mutable handle: holds the value it guards, as the single live access
/// path to it, in place of the exclusive borrow it was built from.
///
/// While the handle exists nothing else may read or write the value; the
/// owner sees the final state again when the value is handed back through
/// [`Mut::replace`] or [`Mut::take`].
#[derive(Debug, Hash)]
pub struct Mut<T> {
    /// The guarded value.
    pub value: T,
}

impl<T> Mut<T> {
    /// Wraps a value for exclusive mutation.
    pub fn new(value: T) -> (out: Self)
        ensures
            out.value == value,
    {
        Mut { value }
    }

    /// Returns a copy of the current value.
    pub fn get(&self) -> (r: T) where T: Copy
        ensures
            r == self.value,
    {
        self.value
    }

    /// Overwrites the value.
    pub fn set(&mut self, v: T)
        ensures
            final(self).value == v,
    {
        self.value = v;
    }

    /// Stores `v` and returns the previous value; the swap form of `set`
    /// for values that cannot be copied.
    pub fn replace(&mut self, v: T) -> (r: T)
        ensures
            r == old(self).value,
            final(self).value == v,
    {
        let mut v = v;
        core::mem::swap(&mut self.value, &mut v);
        v
    }

    /// Removes the current value, leaving the type's default in its place.
    pub fn take(&mut self) -> (r: T) where T: Default
        ensures
            r == old(self).value,
            call_ensures(T::default, (), final(self).value),
    {
        let d = T::default();
        self.replace(d)
    }

    /// Equality delegated to the held value: the handle compares as the
    /// value it currently guards.
    pub fn eq_value(&self, other: &T) -> (r: bool) where T: PartialEq
        ensures
            T::obeys_eq_spec() ==> r == self.value.eq_spec(other),
    {
        self.value.eq(other)
    }
}

impl<T: PartialEq> PartialEq for Mut<T> {
    /// Two handles are equal exactly when the values they guard are.
    fn eq(&self, other: &Self) -> (r: bool) {
        self.value.eq(&other.value)
    }
}

impl<T: PartialEq> vstd::std_specs::cmp::PartialEqSpecImpl for Mut<T> {
    open spec fn obeys_eq_spec() -> bool {
        T::obeys_eq_spec()
    }

    open spec fn eq_spec(&self, other: &Self) -> bool {
        self.value.eq_spec(&other.value)
    }
}

impl<T: PartialOrd> PartialOrd for Mut<T> {
    /// Ordering delegated to the held values.
    fn partial_cmp(&self, other: &Self) -> (r: Option<core::cmp::Ordering>) {
        self.value.partial_cmp(&other.value)
    }
}

impl<T: PartialOrd> vstd::std_specs::cmp::PartialOrdSpecImpl for Mut<T> {
    open spec fn obeys_partial_cmp_spec() -> bool {
        T::obeys_partial_cmp_spec()
    }

    open spec fn partial_cmp_spec(&self, other: &Self) -> Option<core::cmp::Ordering> {
        self.value.partial_cmp_spec(&other.value)
    }
}

impl<T> Mut<Vec<T>> {
    /// Splits a handle over a sequence into one handle per element, in
    /// order, so disjoint elements can be mutated independently.
    pub fn as_slice_of_cells(self) -> (cells: Vec<Mut<T>>)
        ensures
            cells@.len() == self.value@.len(),
            forall|i: int| 0 <= i < cells@.len() ==> cells@[i].value == self.value@[i],
    {
        let mut v = self.value;
        let ghost orig = v@;
        let mut cells: Vec<Mut<T>> = Vec::new();
        while v.len() > 0
            invariant
                cells@.len() + v@.len() == orig.len(),
                forall|i: int| 0 <= i < cells@.len() ==> cells@[i].value == orig[i],
                forall|i: int| 0 <= i < v@.len() ==> v@[i] == orig[cells@.len() + i],
            decreases v@.len(),
        {
            let x = v.remove(0);
            cells.push(Mut::new(x));
        }
        cells
    }

    /// Gathers per-element handles back into one handle over the whole
    /// sequence, keeping the element order.
    pub fn from_cells(cells: Vec<Mut<T>>) -> (out: Self)
        ensures
            out.value@.len() == cells@.len(),
            forall|i: int| 0 <= i < cells@.len() ==> out.value@[i] == cells@[i].value,
    {
        let mut cells = cells;
        let ghost orig = cells@;
        let mut v: Vec<T> = Vec::new();
        while cells.len() > 0
            invariant
                v@.len() + cells@.len() == orig.len(),
                forall|i: int| 0 <= i < v@.len() ==> v@[i] == orig[i].value,
                forall|i: int| 0 <= i < cells@.len() ==> cells@[i] == orig[v@.len() + i],
            decreases cells@.len(),
        {
            let c = cells.remove(0);
            v.push(c.value);
        }
        Mut::new(v)
    }
}

} // verus!
