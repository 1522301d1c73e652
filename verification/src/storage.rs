//! Storage: what a reference holds in order to find its elements.

use vstd::prelude::*;
use core::marker::PhantomData;
use crate::arena::{advanced, exclusive, in_bounds, written, Address, Arena};

verus! {

/// Something that locates elements of one type.
pub trait Storage {
    type Elem;
}

/// Storage that is a position in an arena: it can say where it points and,
/// given the arena, hand out the elements found there.
pub trait PointerStorage: Storage + Sized {
    /// The place that the storage points at.
    spec fn address(&self) -> Address;

    /// The place that the storage points at.
    fn as_ptr(&self) -> (addr: Address)
        ensures
            addr == self.address(),
    ;

    /// The element `offset` places after the one pointed at.
    fn ref_from_offset<'a>(&self, arena: &'a Arena<Self::Elem>, offset: usize) -> (element:
        &'a Self::Elem)
        requires
            in_bounds(arena@, self.address(), offset as nat + 1),
        ensures
            *element == arena@[self.address().block as int].data[self.address().offset + offset],
    ;

    /// The element `offset` places after the one pointed at, to be written
    /// through. The storage itself stays where it was.
    fn ref_mut_from_offset<'a>(&mut self, arena: &'a mut Arena<Self::Elem>, offset: usize) -> (element:
        &'a mut Self::Elem)
        requires
            in_bounds(old(arena)@, old(self).address(), offset as nat + 1),
            exclusive(old(arena)@, old(self).address().block),
        ensures
            *final(self) == *old(self),
            *element == old(arena)@[old(self).address().block as int].data[old(self).address().offset
                + offset],
            final(arena)@ == written(
                old(arena)@,
                advanced(old(self).address(), offset),
                *final(element),
            ),
    ;
}

/// A pointer to an element of type `T` in an arena. It always names a
/// position; whether an element lives there is for the holder to know.
pub struct NonNullStorage<T> {
    block: usize,
    offset: usize,
    elem: PhantomData<T>,
}

impl<T> Clone for NonNullStorage<T> {
    fn clone(&self) -> (copy: Self)
        ensures
            copy == *self,
    {
        NonNullStorage { block: self.block, offset: self.offset, elem: PhantomData }
    }
}

impl<T> Copy for NonNullStorage<T> {

}

impl<T> NonNullStorage<T> {
    /// The pointer to the place `addr`.
    pub fn new(addr: Address) -> (storage: Self)
        ensures
            storage.address() == addr,
    {
        NonNullStorage { block: addr.block, offset: addr.offset, elem: PhantomData }
    }
}

impl<T> Storage for NonNullStorage<T> {
    type Elem = T;
}

impl<T> PointerStorage for NonNullStorage<T> {
    closed spec fn address(&self) -> Address {
        Address { block: self.block, offset: self.offset }
    }

    fn as_ptr(&self) -> (addr: Address) {
        Address { block: self.block, offset: self.offset }
    }

    fn ref_from_offset<'a>(&self, arena: &'a Arena<T>, offset: usize) -> (element: &'a T) {
        proof {
            arena.lemma_bounded();
        }
        arena.get(Address { block: self.block, offset: self.offset + offset })
    }

    fn ref_mut_from_offset<'a>(&mut self, arena: &'a mut Arena<T>, offset: usize) -> (element:
        &'a mut T) {
        proof {
            arena.lemma_bounded();
        }
        arena.get_mut(Address { block: self.block, offset: self.offset + offset })
    }
}

} // verus!
