//! What each kind of handle can be asked, shown on one handle of each
//! kind. A function here takes the least able reference that serves it,
//! and a handle can be passed to it only if it gives that reference out.

use vstd::prelude::*;
use crate::arena::{exclusive, lemma_written_same, written, Address, Arena};
use crate::arrayref::structs::{ArrayRef, RawArrayRef};
use crate::arrays::structs::{Array, ArrayView, ArrayViewMut, RawArrayView, RawArrayViewMut};
use crate::layout::layout::Layout;

verus! {

/// What a raw reference can be asked: where it points.
pub fn ergonomic_raw<A, L: Layout>(arr: &RawArrayRef<A, L>) -> (addr: Address)
    ensures
        addr == arr.address(),
{
    arr.as_ptr()
}

/// What a safe reference can be asked: its first element.
pub fn ergonomic<'a, A, L: Layout>(arr: &ArrayRef<A, L>, arena: &'a Arena<A>) -> (first: Option<
    &'a A,
>)
    requires
        arr.wf(arena@),
    ensures
        first is Some <==> arr.0.spec_len() > 0,
        first matches Some(e) ==> *e == arr.elements(arena@)[0],
{
    arr.first(arena)
}

/// What a raw reference that may be changed can be asked: where to write.
pub fn ergonomic_raw_mut<A, L: Layout>(arr: &mut RawArrayRef<A, L>) -> (addr: Address)
    ensures
        addr == old(arr).address(),
        *final(arr) == *old(arr),
{
    arr.as_mut_ptr()
}

/// What a safe reference that may be changed can be asked: its first
/// element, to write through.
pub fn ergonomic_mut<'a, A, L: Layout>(arr: &mut ArrayRef<A, L>, arena: &'a mut Arena<A>) -> (first:
    Option<&'a mut A>)
    requires
        old(arr).wf(old(arena)@),
        exclusive(old(arena)@, old(arr).0.address().block),
    ensures
        *final(arr) == *old(arr),
        first is Some <==> old(arr).0.spec_len() > 0,
        first matches Some(e) ==> *e == old(arr).elements(old(arena)@)[0] && final(arena)@
            == written(old(arena)@, old(arr).0.address(), *final(e)),
        first is None ==> final(arena)@ == old(arena)@,
{
    arr.first_mut(arena)
}

/// The first element of a sequence, if it has one.
pub open spec fn first_of<A>(elements: Seq<A>) -> Option<A> {
    if elements.len() > 0 {
        Some(elements[0])
    } else {
        None
    }
}

/// What the handles answered: the places that the raw references named,
/// and the first elements that the safe references gave.
pub struct Sightings<A> {
    pub places: Vec<Address>,
    pub firsts: Vec<Option<A>>,
}

fn copied<A: Copy>(first: Option<&A>) -> (copy: Option<A>)
    ensures
        copy == (match first {
            Some(e) => Some(*e),
            None => None,
        }),
{
    match first {
        Some(e) => Some(*e),
        None => None,
    }
}

fn copied_mut<A: Copy>(first: Option<&mut A>) -> (copy: Option<A>)
    ensures
        copy == (match first {
            Some(e) => Some(*e),
            None => None,
        }),
        first matches Some(e) ==> *final(e) == *e,
{
    match first {
        Some(e) => Some(*e),
        None => None,
    }
}

/// Asks one handle of each kind everything that it can be asked, and
/// returns the answers in the order of the questions. The owned array and
/// the view to write are asked as raw and as safe references, to read and
/// to write; the view to read as a raw and as a safe reference, to read;
/// the raw view where it points; the raw view to write where it points
/// and where to write. Nothing is written: the memory stays as it was.
pub fn caller<A: Copy, L: Layout>(
    arr: Array<A, L>,
    arr_view: ArrayView<A, L>,
    arr_view_mut: ArrayViewMut<A, L>,
    raw_view: RawArrayView<A, L>,
    raw_view_mut: RawArrayViewMut<A, L>,
    arena: &mut Arena<A>,
) -> (seen: Sightings<A>)
    requires
        arr.wf(old(arena)@),
        arr_view.aref.wf(old(arena)@),
        arr_view_mut.aref.wf(old(arena)@),
        exclusive(old(arena)@, arr_view_mut.aref.0.address().block),
    ensures
        final(arena)@ == old(arena)@,
        seen.places@ == seq![
            arr.address(),
            arr.address(),
            arr_view.aref.0.address(),
            arr_view_mut.aref.0.address(),
            arr_view_mut.aref.0.address(),
            raw_view.aref.address(),
            raw_view_mut.aref.address(),
            raw_view_mut.aref.address(),
        ],
        seen.firsts@ == seq![
            first_of(arr.elements(old(arena)@)),
            first_of(arr.elements(old(arena)@)),
            first_of(arr_view.aref.elements(old(arena)@)),
            first_of(arr_view_mut.aref.elements(old(arena)@)),
            first_of(arr_view_mut.aref.elements(old(arena)@)),
        ],
{
    let mut arr = arr;
    let mut arr_view_mut = arr_view_mut;
    let mut raw_view_mut = raw_view_mut;
    let mut places: Vec<Address> = Vec::new();
    let mut firsts: Vec<Option<A>> = Vec::new();

    places.push(ergonomic_raw(&arr));
    firsts.push(copied(ergonomic(&arr, arena)));
    places.push(ergonomic_raw_mut(arr.deref_mut().deref_mut()));
    firsts.push(copied_mut(ergonomic_mut(arr.deref_mut(), arena)));
    proof {
        if arr.spec_len() > 0 {
            lemma_written_same(old(arena)@, arr.address());
        }
    }

    places.push(ergonomic_raw(&arr_view));
    firsts.push(copied(ergonomic(&arr_view, arena)));

    places.push(ergonomic_raw(&arr_view_mut));
    firsts.push(copied(ergonomic(&arr_view_mut, arena)));
    places.push(ergonomic_raw_mut(arr_view_mut.deref_mut().deref_mut()));
    firsts.push(copied_mut(ergonomic_mut(arr_view_mut.deref_mut(), arena)));
    proof {
        if arr_view_mut.aref.0.spec_len() > 0 {
            lemma_written_same(old(arena)@, arr_view_mut.aref.0.address());
        }
    }

    places.push(ergonomic_raw(&raw_view));

    places.push(ergonomic_raw(&raw_view_mut));
    places.push(ergonomic_raw_mut(raw_view_mut.deref_mut()));

    let seen = Sightings { places, firsts };
    assert(seen.places@ =~= seq![
        arr.address(),
        arr.address(),
        arr_view.aref.0.address(),
        arr_view_mut.aref.0.address(),
        arr_view_mut.aref.0.address(),
        raw_view.aref.address(),
        raw_view_mut.aref.address(),
        raw_view_mut.aref.address(),
    ]);
    assert(seen.firsts@ =~= seq![
        first_of(arr.elements(old(arena)@)),
        first_of(arr.elements(old(arena)@)),
        first_of(arr_view.aref.elements(old(arena)@)),
        first_of(arr_view_mut.aref.elements(old(arena)@)),
        first_of(arr_view_mut.aref.elements(old(arena)@)),
    ]);
    seen
}

} // verus!
