use vstd::prelude::*;
use super::structs::{ArrayRefBase, RawArrayRefBase};
use crate::arena::{exclusive, in_bounds, visible, written, Address, Arena, BlockModel};
use crate::backends::Backend;
use crate::layout::layout::{
    extent_product, lemma_prefixes_fit_nonzero, lemma_product_positive, lemma_product_zero,
    Layout,
};
use crate::storage::PointerStorage;

verus! {

impl<L: Layout, B: Backend> RawArrayRefBase<L, B> {
    /// The number of elements that the shape describes.
    pub open spec fn spec_len(&self) -> nat {
        extent_product(self.layout.extents())
    }

    /// The place of the first element.
    pub open spec fn address(&self) -> Address {
        self.storage.address()
    }

    /// The number of elements: the size of the shape.
    pub fn len(&self) -> (n: usize)
        requires
            self.spec_len() <= usize::MAX,
        ensures
            n == self.spec_len(),
    {
        self.layout.size()
    }

    /// Whether the array holds no element, which is the case exactly when
    /// one of its axes has extent zero.
    pub fn is_empty(&self) -> (empty: bool)
        ensures
            empty == (self.spec_len() == 0),
    {
        let s = self.layout.slice();
        let mut i: usize = 0;
        while i < s.len()
            invariant
                i <= s.len(),
                s@ == self.layout.extents(),
                forall|j: int| 0 <= j < i ==> s@[j] >= 1,
            decreases s.len() - i,
        {
            if s[i] == 0 {
                proof {
                    lemma_product_zero(s@, i as int);
                }
                return true;
            }
            i += 1;
        }
        proof {
            lemma_product_positive(s@);
        }
        false
    }

    /// The number of elements, or `None` where it leaves the addressing
    /// width.
    pub fn len_checked(&self) -> (n: Option<usize>)
        ensures
            n is Some <==> self.spec_len() <= usize::MAX,
            n matches Some(count) ==> count == self.spec_len(),
    {
        if self.is_empty() {
            return Some(0);
        }
        proof {
            let extents = self.layout.extents();
            assert forall|j: int| 0 <= j < extents.len() implies extents[j] >= 1 by {
                if extents[j] == 0 {
                    lemma_product_zero(extents, j);
                }
            }
            lemma_prefixes_fit_nonzero(extents);
        }
        self.layout.size_checked()
    }

    /// What the reference holds in order to find its elements.
    pub fn ptr(&self) -> (storage: &B::Ref)
        ensures
            *storage == self.storage,
    {
        &self.storage
    }

    /// What the reference holds in order to find its elements, to be
    /// pointed elsewhere. The shape stays as it is.
    pub fn ptr_mut(&mut self) -> (storage: &mut B::Ref)
        ensures
            *storage == old(self).storage,
            final(self).storage == *final(storage),
            final(self).layout == old(self).layout,
    {
        &mut self.storage
    }

    /// The place of the first element.
    pub fn as_ptr(&self) -> (addr: Address)
        ensures
            addr == self.address(),
    {
        self.storage.as_ptr()
    }

    /// The place of the first element, asked for in order to write there.
    /// A raw reference has no owner to consult: whether the place may be
    /// written is for the arena to say when the write is made.
    pub fn as_mut_ptr(&mut self) -> (addr: Address)
        ensures
            addr == old(self).address(),
            *final(self) == *old(self),
    {
        self.storage.as_ptr()
    }
}

impl<L: Layout, B: Backend> ArrayRefBase<L, B> {
    /// Every element that the shape describes lies in a live allocation.
    pub open spec fn wf(&self, mem: Seq<BlockModel<B::Elem>>) -> bool {
        in_bounds(mem, self.0.address(), self.0.spec_len())
    }

    /// The elements that the reference sees, in the order of their places.
    pub open spec fn elements(&self, mem: Seq<BlockModel<B::Elem>>) -> Seq<B::Elem> {
        visible(mem, self.0.address(), self.0.spec_len())
    }

    /// Whether every element that the shape describes lies in a live
    /// allocation of `arena`, so that the reference is safe to read there.
    pub fn valid_in(&self, arena: &Arena<B::Elem>) -> (valid: bool)
        ensures
            valid == self.wf(arena@),
    {
        proof {
            arena.lemma_bounded();
        }
        let addr = self.0.as_ptr();
        if arena.strong_count(addr.block) == 0 {
            return false;
        }
        match self.0.len_checked() {
            Some(len) => {
                let room = arena.block_len(addr.block);
                addr.offset <= room && len <= room - addr.offset
            },
            None => false,
        }
    }

    /// The element at the lowest address, or `None` for an empty array.
    pub fn first<'a>(&self, arena: &'a Arena<B::Elem>) -> (element: Option<&'a B::Elem>)
        requires
            self.wf(arena@),
        ensures
            element is Some <==> self.0.spec_len() > 0,
            element matches Some(e) ==> *e == self.elements(arena@)[0],
    {
        if self.0.is_empty() {
            None
        } else {
            Some(self.0.storage.ref_from_offset(arena, 0))
        }
    }

    /// The element at the lowest address, to be written through, or `None`
    /// for an empty array. The reference must point into an allocation
    /// with a single owner; the owned array sees to that before it hands
    /// out a reference to write through.
    pub fn first_mut<'a>(&mut self, arena: &'a mut Arena<B::Elem>) -> (element: Option<
        &'a mut B::Elem,
    >)
        requires
            old(self).wf(old(arena)@),
            exclusive(old(arena)@, old(self).0.address().block),
        ensures
            *final(self) == *old(self),
            element is Some <==> old(self).0.spec_len() > 0,
            element matches Some(e) ==> *e == old(self).elements(old(arena)@)[0] && final(arena)@
                == written(old(arena)@, old(self).0.address(), *final(e)),
            element is None ==> final(arena)@ == old(arena)@,
    {
        if self.0.is_empty() {
            None
        } else {
            Some(self.0.storage.ref_mut_from_offset(arena, 0))
        }
    }
}

} // verus!
