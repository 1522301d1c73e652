use vstd::prelude::*;
use super::layout::Layout;

verus! {

/// The extents left when one axis is dropped and the others keep their
/// order. An axis past the end names the last axis; a shape without axes
/// has none to drop.
pub open spec fn removed_axis(extents: Seq<usize>, axis: int) -> Seq<usize> {
    if extents.len() == 0 {
        extents
    } else if axis < extents.len() {
        extents.remove(axis)
    } else {
        extents.drop_last()
    }
}

/// The extents after a new axis of the given length is put in at `axis`.
/// A position past the end appends the new axis.
pub open spec fn added_axis(extents: Seq<usize>, axis: int, length: usize) -> Seq<usize> {
    if axis < extents.len() {
        extents.insert(axis, length)
    } else {
        extents.push(length)
    }
}

/// The axis that `removed_axis` drops: the one asked for, or the last one
/// where the position asked for is past the end.
pub open spec fn dropped_axis(extents: Seq<usize>, axis: int) -> int {
    if axis < extents.len() {
        axis
    } else {
        extents.len() - 1
    }
}

/// Removing an axis and putting it back at the same position, with the
/// extent that it had, gives the shape that one started from.
pub proof fn lemma_add_after_remove(extents: Seq<usize>, axis: int)
    requires
        extents.len() >= 1,
        0 <= axis,
    ensures
        added_axis(removed_axis(extents, axis), axis, extents[dropped_axis(extents, axis)])
            == extents,
{
    let k = dropped_axis(extents, axis);
    let smaller = removed_axis(extents, axis);
    assert(smaller.len() == extents.len() - 1);
    assert(added_axis(smaller, axis, extents[k]) =~= extents);
}

/// Removing the axis that was just added, at the same position, gives the
/// shape that one started from.
pub proof fn lemma_remove_after_add(extents: Seq<usize>, axis: int, length: usize)
    requires
        0 <= axis,
    ensures
        removed_axis(added_axis(extents, axis, length), axis) == extents,
        added_axis(extents, axis, length)[dropped_axis(added_axis(extents, axis, length), axis)]
            == length,
{
    let larger = added_axis(extents, axis, length);
    assert(larger.len() == extents.len() + 1);
    assert(removed_axis(larger, axis) =~= extents);
}

/// A shape from which one axis can be taken away.
pub trait RemoveAxis: Layout {
    /// The shape with one axis less.
    type Smaller: Layout;

    /// The shape left when `axis` is dropped; the other extents keep their
    /// order. A position past the end drops the last axis.
    fn remove_axis(&self, axis: usize) -> (smaller: Self::Smaller)
        ensures
            smaller.extents() == removed_axis(self.extents(), axis as int),
    ;
}

/// A shape to which one axis can be added.
pub trait AddAxis: Layout {
    /// The shape with one axis more.
    type Larger: Layout;

    /// The shape with a new axis of extent `length` put in at `axis`.
    /// A position past the end appends the new axis.
    fn add_axis(&self, axis: usize, length: usize) -> (larger: Self::Larger)
        ensures
            larger.extents() == added_axis(self.extents(), axis as int, length),
    ;
}

} // verus!
