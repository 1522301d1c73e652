//! The memory that array handles point into: an arena of allocations,
//! each with its elements and a count of the strong references to it.
//!
//! An allocation is named by its index in the arena and keeps that index
//! for good, so an address is a plain pair of integers and stays
//! meaningful while other allocations come and go.

use vstd::prelude::*;

verus! {

/// What one allocation holds: its elements, and how many owners refer to it.
/// A count of zero marks an allocation that has been freed.
pub struct BlockModel<A> {
    pub data: Seq<A>,
    pub strong: nat,
}

/// The place of an element: an allocation and a position inside it.
#[derive(Clone, Copy, PartialEq, Eq, Structural, Debug)]
pub struct Address {
    pub block: usize,
    pub offset: usize,
}

/// The allocation exists and has at least one owner.
pub open spec fn live<A>(mem: Seq<BlockModel<A>>, block: usize) -> bool {
    block < mem.len() && mem[block as int].strong >= 1
}

/// The allocation is live and has exactly one owner.
pub open spec fn exclusive<A>(mem: Seq<BlockModel<A>>, block: usize) -> bool {
    block < mem.len() && mem[block as int].strong == 1
}

/// The count of strong references to an allocation; zero for an
/// allocation that was never made.
pub open spec fn strong_of<A>(mem: Seq<BlockModel<A>>, block: usize) -> nat {
    if block < mem.len() {
        mem[block as int].strong
    } else {
        0
    }
}

/// The `len` elements that start at `addr` lie inside a live allocation,
/// which is itself no larger than a machine can index.
pub open spec fn in_bounds<A>(mem: Seq<BlockModel<A>>, addr: Address, len: nat) -> bool {
    live(mem, addr.block) && addr.offset + len <= mem[addr.block as int].data.len() <= usize::MAX
}

/// The `len` elements that start at `addr`.
pub open spec fn visible<A>(mem: Seq<BlockModel<A>>, addr: Address, len: nat) -> Seq<A> {
    mem[addr.block as int].data.subrange(addr.offset as int, addr.offset + len)
}

/// The memory after one more owner has taken a reference to `block`.
pub open spec fn retained<A>(mem: Seq<BlockModel<A>>, block: usize) -> Seq<BlockModel<A>> {
    mem.update(
        block as int,
        BlockModel { data: mem[block as int].data, strong: mem[block as int].strong + 1 },
    )
}

/// The memory after one owner has given up its reference to `block`.
/// The last owner to leave frees the elements.
pub open spec fn released<A>(mem: Seq<BlockModel<A>>, block: usize) -> Seq<BlockModel<A>> {
    let count = (mem[block as int].strong - 1) as nat;
    mem.update(
        block as int,
        BlockModel {
            data: if count == 0 {
                Seq::empty()
            } else {
                mem[block as int].data
            },
            strong: count,
        },
    )
}

/// The memory after `value` has been stored at `addr`.
pub open spec fn written<A>(mem: Seq<BlockModel<A>>, addr: Address, value: A) -> Seq<BlockModel<A>> {
    mem.update(
        addr.block as int,
        BlockModel {
            data: mem[addr.block as int].data.update(addr.offset as int, value),
            strong: mem[addr.block as int].strong,
        },
    )
}

/// The address `offset` elements further into the same allocation.
pub open spec fn advanced(addr: Address, offset: usize) -> Address {
    Address { block: addr.block, offset: (addr.offset + offset) as usize }
}

/// Storing at a place the element that is there already changes nothing.
pub proof fn lemma_written_same<A>(mem: Seq<BlockModel<A>>, addr: Address)
    requires
        in_bounds(mem, addr, 1),
    ensures
        written(mem, addr, mem[addr.block as int].data[addr.offset as int]) == mem,
{
    let data = mem[addr.block as int].data;
    assert(data.update(addr.offset as int, data[addr.offset as int]) =~= data);
    assert(written(mem, addr, data[addr.offset as int]) =~= mem);
}

struct Allocation<A> {
    data: Vec<A>,
    strong: usize,
}

/// An arena of reference-counted allocations.
pub struct Arena<A> {
    blocks: Vec<Allocation<A>>,
}

impl<A> View for Arena<A> {
    type V = Seq<BlockModel<A>>;

    closed spec fn view(&self) -> Seq<BlockModel<A>> {
        Seq::new(
            self.blocks.len() as nat,
            |i: int| BlockModel { data: self.blocks[i].data@, strong: self.blocks[i].strong as nat },
        )
    }
}

impl<A> Arena<A> {
    /// What a machine can hold bounds the arena: the number of allocations,
    /// the number of elements of each and each count fit an index.
    pub proof fn lemma_bounded(&self)
        ensures
            self@.len() <= usize::MAX,
            forall|b: int|
                0 <= b < self@.len() ==> (#[trigger] self@[b]).data.len() <= usize::MAX
                    && self@[b].strong <= usize::MAX,
    {
        assert forall|b: int| 0 <= b < self@.len() implies (#[trigger] self@[b]).data.len()
            <= usize::MAX && self@[b].strong <= usize::MAX by {
            assert(self.blocks[b].data.len() == self.blocks[b].data@.len());
        }
    }

    /// An arena without allocations.
    pub fn new() -> (arena: Self)
        ensures
            arena@ == Seq::<BlockModel<A>>::empty(),
    {
        let arena = Arena { blocks: Vec::new() };
        assert(arena@ =~= Seq::<BlockModel<A>>::empty());
        arena
    }

    /// How many allocations have been made so far, freed ones included.
    pub fn allocations(&self) -> (n: usize)
        ensures
            n == self@.len(),
    {
        self.blocks.len()
    }

    /// The count of strong references to `block`; zero where no such
    /// allocation was made.
    pub fn strong_count(&self, block: usize) -> (n: usize)
        ensures
            n == strong_of(self@, block),
    {
        if block < self.blocks.len() {
            self.blocks[block].strong
        } else {
            0
        }
    }

    /// The number of elements of `block`; zero where no such allocation
    /// was made, and after it has been freed.
    pub fn block_len(&self, block: usize) -> (n: usize)
        ensures
            n == (if block < self@.len() {
                self@[block as int].data.len()
            } else {
                0
            }),
    {
        if block < self.blocks.len() {
            self.blocks[block].data.len()
        } else {
            0
        }
    }

    /// Makes a new allocation out of `data`, with one owner, and returns
    /// its index. No earlier allocation changes.
    pub fn allocate(&mut self, data: Vec<A>) -> (block: usize)
        ensures
            block == old(self)@.len(),
            final(self)@ == old(self)@.push(BlockModel { data: data@, strong: 1 }),
    {
        let block = self.blocks.len();
        self.blocks.push(Allocation { data, strong: 1 });
        assert(self@ =~= old(self)@.push(BlockModel { data: data@, strong: 1 }));
        block
    }

    /// Counts one more owner of `block`.
    pub fn retain(&mut self, block: usize)
        requires
            live(old(self)@, block),
            old(self)@[block as int].strong < usize::MAX,
        ensures
            final(self)@ == retained(old(self)@, block),
    {
        let count = self.blocks[block].strong;
        self.blocks[block].strong = count + 1;
        assert(self@ =~= retained(old(self)@, block));
    }

    /// Counts one owner of `block` less, and frees its elements when that
    /// was the last one.
    pub fn release(&mut self, block: usize)
        requires
            live(old(self)@, block),
        ensures
            final(self)@ == released(old(self)@, block),
    {
        let count = self.blocks[block].strong - 1;
        self.blocks[block].strong = count;
        if count == 0 {
            self.blocks[block].data = Vec::new();
        }
        assert(self@ =~= released(old(self)@, block));
    }

    /// The element at `addr`.
    pub fn get(&self, addr: Address) -> (element: &A)
        requires
            in_bounds(self@, addr, 1),
        ensures
            *element == self@[addr.block as int].data[addr.offset as int],
    {
        &self.blocks[addr.block].data[addr.offset]
    }

    /// The element at `addr`, to be written through. The allocation must
    /// have a single owner: what is shared is never written.
    pub fn get_mut(&mut self, addr: Address) -> (element: &mut A)
        requires
            in_bounds(old(self)@, addr, 1),
            exclusive(old(self)@, addr.block),
        ensures
            *element == old(self)@[addr.block as int].data[addr.offset as int],
            final(self)@ == written(old(self)@, addr, *final(element)),
    {
        &mut self.blocks[addr.block].data[addr.offset]
    }
}

impl<A: Copy> Arena<A> {
    /// A copy of the `len` elements that start at `addr`.
    pub fn copy_range(&self, addr: Address, len: usize) -> (copy: Vec<A>)
        requires
            in_bounds(self@, addr, len as nat),
        ensures
            copy@ == visible(self@, addr, len as nat),
    {
        let source = &self.blocks[addr.block].data;
        let mut copy: Vec<A> = Vec::new();
        let mut i: usize = 0;
        while i < len
            invariant
                i <= len,
                addr.offset + len <= source.len(),
                copy@ == source@.subrange(addr.offset as int, addr.offset + i),
            decreases len - i,
        {
            copy.push(source[addr.offset + i]);
            i += 1;
            assert(copy@ =~= source@.subrange(addr.offset as int, addr.offset + i));
        }
        copy
    }
}

} // verus!
