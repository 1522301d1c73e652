//! The copy-on-write protocol, stated over the model of the memory.
//!
//! A handle that is about to write makes sure first that it is the only
//! owner of what it sees. One that shares its allocation with others
//! leaves it to them, untouched, and goes on with a private copy of the
//! elements that it sees.

use vstd::prelude::*;
use crate::arena::{advanced, exclusive, in_bounds, released, visible, written, Address, BlockModel};

verus! {

/// A reference of `len` elements at `addr` is backed by a live allocation,
/// and `owner` is the allocation that its owner holds.
pub open spec fn handle_wf<A>(mem: Seq<BlockModel<A>>, addr: Address, owner: usize, len: nat) -> bool {
    &&& in_bounds(mem, addr, len)
    &&& owner == addr.block
}

/// Where a handle points once it is the only owner of what it sees: where
/// it pointed before if it was the only owner already, else at the start
/// of a new allocation.
pub open spec fn cow_address<A>(mem: Seq<BlockModel<A>>, addr: Address) -> Address {
    if exclusive(mem, addr.block) {
        addr
    } else {
        Address { block: mem.len() as usize, offset: 0 }
    }
}

/// The memory once a handle of `len` elements at `addr` is the only owner
/// of what it sees. A handle that was the only owner already leaves the
/// memory as it is. Otherwise the handle gives up its reference to the
/// shared allocation, whose elements stay as they are, and a new
/// allocation holds a copy of the `len` elements, with one owner.
pub open spec fn cow_memory<A>(mem: Seq<BlockModel<A>>, addr: Address, len: nat) -> Seq<
    BlockModel<A>,
> {
    if exclusive(mem, addr.block) {
        mem
    } else {
        released(mem, addr.block).push(BlockModel { data: visible(mem, addr, len), strong: 1 })
    }
}

/// After copy-on-write the handle sees the elements that it saw before,
/// in an allocation of which it is the only owner. A handle that had to
/// copy points at the start of an allocation that holds just those
/// elements.
pub proof fn lemma_cow_keeps_elements<A>(mem: Seq<BlockModel<A>>, addr: Address, len: nat)
    requires
        in_bounds(mem, addr, len),
        mem.len() <= usize::MAX,
    ensures
        in_bounds(cow_memory(mem, addr, len), cow_address(mem, addr), len),
        exclusive(cow_memory(mem, addr, len), cow_address(mem, addr).block),
        visible(cow_memory(mem, addr, len), cow_address(mem, addr), len) == visible(mem, addr, len),
        !exclusive(mem, addr.block) ==> cow_memory(mem, addr, len)[cow_address(
            mem,
            addr,
        ).block as int].data == visible(mem, addr, len),
{
    if !exclusive(mem, addr.block) {
        let copy = visible(mem, addr, len);
        assert(copy.subrange(0, len as int) =~= copy);
    }
}

/// Copy-on-write done twice in a row does nothing the second time: the
/// memory stays as the first call left it, so nothing is allocated, and
/// the handle points where the first call left it.
pub proof fn lemma_cow_idempotent<A>(mem: Seq<BlockModel<A>>, addr: Address, len: nat)
    requires
        in_bounds(mem, addr, len),
        mem.len() <= usize::MAX,
    ensures
        cow_memory(cow_memory(mem, addr, len), cow_address(mem, addr), len) == cow_memory(
            mem,
            addr,
            len,
        ),
        cow_address(cow_memory(mem, addr, len), cow_address(mem, addr)) == cow_address(mem, addr),
{
    lemma_cow_keeps_elements(mem, addr, len);
}

/// A handle that is the only owner of its allocation copies nothing: the
/// memory and the place it points at stay as they are.
pub proof fn lemma_cow_exclusive<A>(mem: Seq<BlockModel<A>>, addr: Address, len: nat)
    requires
        exclusive(mem, addr.block),
    ensures
        cow_memory(mem, addr, len) == mem,
        cow_address(mem, addr) == addr,
{
}

/// Copy-on-write by one handle leaves every other handle as it was: what
/// another handle sees is still in bounds and holds the same elements,
/// and no allocation that existed before has other elements than before.
pub proof fn lemma_cow_frame<A>(
    mem: Seq<BlockModel<A>>,
    addr: Address,
    len: nat,
    other: Address,
    other_len: nat,
)
    requires
        in_bounds(mem, addr, len),
        in_bounds(mem, other, other_len),
        other.block != addr.block || !exclusive(mem, addr.block),
    ensures
        in_bounds(cow_memory(mem, addr, len), other, other_len),
        visible(cow_memory(mem, addr, len), other, other_len) == visible(mem, other, other_len),
{
}

/// A second handle is cut off from what the first one writes after its
/// copy-on-write. Let `other` be a handle that is counted among the
/// owners, be it of the same allocation as `addr` or of another. Once the
/// handle at `addr` has made sure that it is the only owner of what it
/// sees and has then stored `value` in its element number `index`, the
/// handle `other` still sees the elements that it saw before.
pub proof fn lemma_cow_isolates<A>(
    mem: Seq<BlockModel<A>>,
    addr: Address,
    len: nat,
    index: usize,
    value: A,
    other: Address,
    other_len: nat,
)
    requires
        in_bounds(mem, addr, len),
        in_bounds(mem, other, other_len),
        other.block != addr.block || !exclusive(mem, addr.block),
        index < len,
        mem.len() <= usize::MAX,
    ensures
        ({
            let after = written(
                cow_memory(mem, addr, len),
                advanced(cow_address(mem, addr), index),
                value,
            );
            &&& in_bounds(after, other, other_len)
            &&& visible(after, other, other_len) == visible(mem, other, other_len)
            &&& visible(after, cow_address(mem, addr), len) == visible(mem, addr, len).update(
                index as int,
                value,
            )
        }),
{
    lemma_cow_keeps_elements(mem, addr, len);
    lemma_cow_frame(mem, addr, len, other, other_len);
    let m1 = cow_memory(mem, addr, len);
    let a1 = cow_address(mem, addr);
    let after = written(m1, advanced(a1, index), value);
    assert(a1.offset + len <= m1[a1.block as int].data.len());
    assert(visible(after, a1, len) =~= visible(mem, addr, len).update(index as int, value));
}

} // verus!
