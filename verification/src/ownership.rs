//! Ownership: the tokens by which an array holds on to its allocation.
//!
//! A token cannot be copied. An exclusive token is the only one for its
//! allocation; shared tokens are handed out one per counted reference.

use vstd::prelude::*;
use core::marker::PhantomData;

verus! {

/// Sole ownership of one allocation of an arena.
#[derive(Debug)]
pub struct VecOwner<A> {
    block: usize,
    elem: PhantomData<A>,
}

/// One counted reference to an allocation that several arrays may share.
#[derive(Debug)]
pub struct ArcOwner<A>(VecOwner<A>);

impl<A> VecOwner<A> {
    /// The allocation that is owned.
    pub closed spec fn block(&self) -> usize {
        self.block
    }

    pub(crate) fn new(block: usize) -> (owner: Self)
        ensures
            owner.block() == block,
    {
        VecOwner { block, elem: PhantomData }
    }

    /// The index of the allocation that is owned.
    pub fn id(&self) -> (block: usize)
        ensures
            block == self.block(),
    {
        self.block
    }
}

impl<A> ArcOwner<A> {
    /// The allocation that is referred to.
    pub closed spec fn block(&self) -> usize {
        self.0.block
    }

    pub(crate) fn new(block: usize) -> (owner: Self)
        ensures
            owner.block() == block,
    {
        ArcOwner(VecOwner { block, elem: PhantomData })
    }

    /// Turns sole ownership into the first counted reference.
    pub fn from_exclusive(owner: VecOwner<A>) -> (shared: Self)
        ensures
            shared.block() == owner.block(),
    {
        ArcOwner(owner)
    }

    /// The index of the allocation that is referred to.
    pub fn id(&self) -> (block: usize)
        ensures
            block == self.block(),
    {
        self.0.block
    }
}

} // verus!
