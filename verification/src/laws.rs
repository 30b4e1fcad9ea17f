//! The properties the library stands for, written out and proved, so that
//! a reader sees them stated rather than having to derive them from the
//! individual contracts.

use vstd::prelude::*;

use crate::compose::Append;
use crate::handles::Mut;
use crate::handles::Ref;

verus! {

/// The values held by a sequence of per-element handles, in order.
pub open spec fn cells_values<T>(cells: Seq<Mut<T>>) -> Seq<T> {
    cells.map_values(|c: Mut<T>| c.value)
}

/// A read-only handle is equal to its referent under the referent's own
/// equality: `wrap_ref(x)` yields a handle whose every read is `x`.
///
/// The first premise is what `wrap_ref` ensures of the handle it wraps;
/// the second is what `Ref::get` ensures of a read through it.
pub proof fn lemma_wrap_ref_reads_referent<'a, T>(x: T, handle: Ref<'a, T>, read: T)
    requires
        *handle.0 == x,
        read == *handle.0,
    ensures
        read == x,
{
}

/// Bundle element order equals call order: the element wrapped first
/// stays at position 0, and each append places its element at the next
/// position. Stated here for the first growth steps of a chain; every
/// larger arity appends in the same way.
pub proof fn lemma_order_is_call_order<A, B, C>(a: A, b: B, c: C)
    ensures
        (a,).append_spec(b) == (a, b),
        (a, b).append_spec(c) == (a, b, c),
{
}

/// Appending never disturbs the elements already in place: every existing
/// position keeps its value and the new element stands last.
pub proof fn lemma_append_keeps_positions<A, B, C, E>(t: (A, B, C), e: E)
    ensures
        t.append_spec(e).0 == t.0,
        t.append_spec(e).1 == t.1,
        t.append_spec(e).2 == t.2,
        t.append_spec(e).3 == e,
{
}

/// Mapping with a function that returns its argument unchanged leaves the
/// wrapped value unchanged. The premises are what `map_life` ensures of
/// its result and what an identity function ensures of its output.
pub proof fn lemma_map_identity_unchanged<T, F: Fn(T) -> T>(f: F, before: T, after: T)
    requires
        forall|x: T, y: T| call_ensures(f, (x,), y) ==> y == x,
        call_ensures(f, (before,), after),
    ensures
        after == before,
{
}

/// Round trip: `set(v)` followed by `get()` yields a value equal to `v`.
///
/// The first premise is what `Mut::set` ensures of the handle it leaves
/// behind; the second is what `Mut::get` then ensures of the read.
pub proof fn lemma_set_get_roundtrip<T>(handle: Mut<T>, v: T, read: T)
    requires
        handle.value == v,
        read == handle.value,
    ensures
        read == v,
{
}

/// Splitting a sequence handle into per-element cells and gathering them
/// back yields the original sequence. The premises are what
/// `Mut::as_slice_of_cells` ensures of the cells and what
/// `Mut::from_cells` ensures of the gathered sequence.
pub proof fn lemma_split_gather_roundtrip<T>(before: Seq<T>, cells: Seq<Mut<T>>, after: Seq<T>)
    requires
        cells.len() == before.len(),
        forall|i: int| 0 <= i < cells.len() ==> cells[i].value == before[i],
        after.len() == cells.len(),
        forall|i: int| 0 <= i < cells.len() ==> after[i] == cells[i].value,
    ensures
        after == before,
{
    assert(after =~= before);
}

/// Writing through one per-element handle changes exactly that position
/// of the gathered sequence and leaves every other position unchanged.
pub proof fn lemma_cell_write_is_elementwise<T>(cells: Seq<Mut<T>>, i: int, v: T)
    requires
        0 <= i < cells.len(),
    ensures
        cells_values(cells.update(i, (Mut { value: v }))) == cells_values(cells).update(i, v),
{
    assert(cells_values(cells.update(i, (Mut { value: v }))) =~= cells_values(cells).update(
        i,
        v,
    ));
}

} // verus!
