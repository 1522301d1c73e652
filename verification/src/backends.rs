//! Ownership backends: how an owned array manages its allocation.
//!
//! The exclusive backend keeps one allocation for one array. The shared
//! backend lets several arrays refer to one allocation and gives each a
//! private copy of what it sees before it writes.

use vstd::prelude::*;
use core::marker::PhantomData;
use crate::arena::{exclusive, live, released, Address, Arena, BlockModel};
use crate::cow::{cow_address, cow_memory, handle_wf};
use crate::arrays::structs::ArrayBase;
use crate::layout::layout::{extent_product, Layout};
use crate::ownership::{ArcOwner, VecOwner};
use crate::storage::{NonNullStorage, PointerStorage};

verus! {

/// A strategy for managing the allocation behind an owned array.
pub trait Backend: Sized {
    /// The type of the elements.
    type Elem;

    /// What a reference holds in order to find its elements.
    type Ref: PointerStorage<Elem = Self::Elem> + Copy;

    /// What an owned array holds in order to keep its allocation.
    type Owned;

    /// The allocation that an owner holds.
    spec fn owner_block(owner: &Self::Owned) -> usize;

    /// The counts of strong references that an owner of this backend may
    /// find on its allocation.
    spec fn count_allowed(strong: nat) -> bool;

    /// The index of the allocation that an owner holds.
    fn owner_id(owner: &Self::Owned) -> (block: usize)
        ensures
            block == Self::owner_block(owner),
    ;

    /// Whether an owner of this backend may find `strong` references
    /// counted on its allocation.
    fn admits(strong: usize) -> (allowed: bool)
        ensures
            allowed == Self::count_allowed(strong as nat),
    ;

    /// Makes `arr` the only owner of the elements that it sees, copying
    /// them to a new allocation if it shares the one it points into.
    fn ensure_unique<L: Layout>(arr: &mut ArrayBase<L, Self>, arena: &mut Arena<Self::Elem>)
        requires
            handle_wf(
                old(arena)@,
                old(arr).aref.0.storage.address(),
                Self::owner_block(&old(arr).own),
                extent_product(old(arr).aref.0.layout.extents()),
            ),
            Self::count_allowed(
                old(arena)@[old(arr).aref.0.storage.address().block as int].strong,
            ),
        ensures
            final(arr).aref.0.layout == old(arr).aref.0.layout,
            final(arr).aref.0.storage.address() == cow_address(
                old(arena)@,
                old(arr).aref.0.storage.address(),
            ),
            Self::owner_block(&final(arr).own) == final(arr).aref.0.storage.address().block,
            final(arena)@ == cow_memory(
                old(arena)@,
                old(arr).aref.0.storage.address(),
                extent_product(old(arr).aref.0.layout.extents()),
            ),
            exclusive(old(arena)@, old(arr).aref.0.storage.address().block) ==> *final(arr) == *old(
                arr,
            ),
            Self::count_allowed(1),
    ;

    /// Whether `arr` is the only owner of its allocation.
    fn is_unique<L: Layout>(arr: &ArrayBase<L, Self>, arena: &Arena<Self::Elem>) -> (unique: bool)
        ensures
            live(arena@, Self::owner_block(&arr.own)) && Self::count_allowed(
                arena@[Self::owner_block(&arr.own) as int].strong,
            ) ==> unique == exclusive(arena@, Self::owner_block(&arr.own)),
    ;

    /// The reference to the place `offset` elements into the allocation
    /// that `owner` holds.
    fn ref_from_owner_offset(owner: &Self::Owned, offset: usize) -> (storage: Self::Ref)
        ensures
            storage.address() == (Address { block: Self::owner_block(owner), offset }),
    ;

    /// Makes a new allocation out of `data` and returns its owner.
    fn allocate(arena: &mut Arena<Self::Elem>, data: Vec<Self::Elem>) -> (owner: Self::Owned)
        ensures
            Self::owner_block(&owner) == old(arena)@.len(),
            final(arena)@ == old(arena)@.push(BlockModel { data: data@, strong: 1 }),
            Self::count_allowed(1),
    ;

    /// Gives up what `owner` holds. The allocation is freed when no other
    /// owner is left.
    fn deallocate(owner: Self::Owned, arena: &mut Arena<Self::Elem>)
        requires
            live(old(arena)@, Self::owner_block(&owner)),
        ensures
            final(arena)@ == released(old(arena)@, Self::owner_block(&owner)),
    ;
}

/// The exclusive backend: one allocation, one owner.
pub struct VecBackend<T> {
    phantom: PhantomData<T>,
}

impl<T> Backend for VecBackend<T> {
    type Elem = T;

    type Ref = NonNullStorage<T>;

    type Owned = VecOwner<T>;

    open spec fn owner_block(owner: &VecOwner<T>) -> usize {
        owner.block()
    }

    open spec fn count_allowed(strong: nat) -> bool {
        strong == 1
    }

    fn owner_id(owner: &VecOwner<T>) -> (block: usize) {
        owner.id()
    }

    fn admits(strong: usize) -> (allowed: bool) {
        strong == 1
    }

    fn ensure_unique<L: Layout>(arr: &mut ArrayBase<L, Self>, arena: &mut Arena<T>)
        ensures
            *final(arr) == *old(arr),
            *final(arena) == *old(arena),
    {
    }

    fn is_unique<L: Layout>(arr: &ArrayBase<L, Self>, arena: &Arena<T>) -> (unique: bool)
        ensures
            unique,
    {
        true
    }

    fn ref_from_owner_offset(owner: &VecOwner<T>, offset: usize) -> (storage: NonNullStorage<T>) {
        NonNullStorage::new(Address { block: owner.id(), offset })
    }

    fn allocate(arena: &mut Arena<T>, data: Vec<T>) -> (owner: VecOwner<T>) {
        VecOwner::new(arena.allocate(data))
    }

    fn deallocate(owner: VecOwner<T>, arena: &mut Arena<T>) {
        arena.release(owner.id());
    }
}

/// The shared backend: a counted allocation, copied before it is written
/// by one of several owners.
pub struct ArcBackend<T> {
    phantom: PhantomData<T>,
}

impl<T: Copy> Backend for ArcBackend<T> {
    type Elem = T;

    type Ref = NonNullStorage<T>;

    type Owned = ArcOwner<T>;

    open spec fn owner_block(owner: &ArcOwner<T>) -> usize {
        owner.block()
    }

    open spec fn count_allowed(strong: nat) -> bool {
        strong >= 1
    }

    fn owner_id(owner: &ArcOwner<T>) -> (block: usize) {
        owner.id()
    }

    fn admits(strong: usize) -> (allowed: bool) {
        strong >= 1
    }

    fn ensure_unique<L: Layout>(arr: &mut ArrayBase<L, Self>, arena: &mut Arena<T>) {
        let block = arr.own.id();
        if arena.strong_count(block) == 1 {
            return ;
        }
        let start = arr.aref.0.storage.as_ptr();
        let len = arr.aref.0.layout.size();
        let copy = arena.copy_range(start, len);
        arena.release(block);
        arr.own = ArcOwner::new(arena.allocate(copy));
        arr.aref.0.storage = Self::ref_from_owner_offset(&arr.own, 0);
    }

    fn is_unique<L: Layout>(arr: &ArrayBase<L, Self>, arena: &Arena<T>) -> (unique: bool)
        ensures
            unique == exclusive(arena@, arr.own.block()),
    {
        arena.strong_count(arr.own.id()) == 1
    }

    fn ref_from_owner_offset(owner: &ArcOwner<T>, offset: usize) -> (storage: NonNullStorage<T>) {
        NonNullStorage::new(Address { block: owner.id(), offset })
    }

    fn allocate(arena: &mut Arena<T>, data: Vec<T>) -> (owner: ArcOwner<T>) {
        ArcOwner::new(arena.allocate(data))
    }

    fn deallocate(owner: ArcOwner<T>, arena: &mut Arena<T>) {
        arena.release(owner.id());
    }
}

} // verus!
