use vstd::prelude::*;
use core::marker::PhantomData;
use super::structs::{
    ArrayBase, ArrayViewBase, ArrayViewBaseMut, RawArrayViewBase, RawArrayViewBaseMut,
};
use crate::arena::{exclusive, released, retained, written, Address, Arena, BlockModel};
use crate::arrayref::structs::{ArrayRefBase, RawArrayRefBase};
use crate::backends::{ArcBackend, Backend, VecBackend};
use crate::cow::{cow_address, cow_memory, handle_wf, lemma_cow_keeps_elements};
use crate::layout::layout::{extent_product, prefixes_fit, Layout};
use crate::ownership::ArcOwner;
use crate::storage::PointerStorage;

verus! {

impl<L: Layout, B: Backend> ArrayBase<L, B> {
    /// The place of the first element.
    pub open spec fn address(&self) -> Address {
        self.aref.0.address()
    }

    /// The number of elements that the shape describes.
    pub open spec fn spec_len(&self) -> nat {
        self.aref.0.spec_len()
    }

    /// The elements of the array, in the order of their places.
    pub open spec fn elements(&self, mem: Seq<BlockModel<B::Elem>>) -> Seq<B::Elem> {
        self.aref.elements(mem)
    }

    /// The array points into the allocation that its owner holds, every
    /// element that its shape describes lies in that allocation, and the
    /// allocation has as many owners as the backend allows.
    pub open spec fn wf(&self, mem: Seq<BlockModel<B::Elem>>) -> bool {
        &&& handle_wf(mem, self.address(), B::owner_block(&self.own), self.spec_len())
        &&& B::count_allowed(mem[self.address().block as int].strong)
    }

    /// Whether the array is well formed in `arena`: whether it points into
    /// the allocation that its owner holds, all of its elements lie there,
    /// and the allocation has as many owners as the backend allows.
    pub fn valid_in(&self, arena: &Arena<B::Elem>) -> (valid: bool)
        ensures
            valid == self.wf(arena@),
    {
        let block = self.aref.0.as_ptr().block;
        self.aref.valid_in(arena) && B::owner_id(&self.own) == block && B::admits(
            arena.strong_count(block),
        )
    }

    /// An owned array of the given shape over the elements of `data`, in a
    /// new allocation of its own. There is none where the shape does not
    /// describe exactly as many elements as `data` holds, or where its
    /// size leaves the addressing width.
    pub fn from_vec(layout: L, data: Vec<B::Elem>, arena: &mut Arena<B::Elem>) -> (made: Option<
        Self,
    >)
        ensures
            made is Some <==> prefixes_fit(layout.extents()) && extent_product(layout.extents())
                == data@.len(),
            made is None ==> final(arena)@ == old(arena)@,
            made matches Some(arr) ==> {
                &&& arr.aref.0.layout == layout
                &&& arr.address() == Address { block: old(arena)@.len() as usize, offset: 0 }
                &&& final(arena)@ == old(arena)@.push(BlockModel { data: data@, strong: 1 })
                &&& arr.wf(final(arena)@)
                &&& arr.elements(final(arena)@) == data@
                &&& arr.spec_len() == data@.len()
            },
    {
        let fits = match layout.size_checked() {
            Some(count) => count == data.len(),
            None => false,
        };
        if !fits {
            return None;
        }
        proof {
            arena.lemma_bounded();
        }
        let ghost elements = data@;
        let own = B::allocate(arena, data);
        let storage = B::ref_from_owner_offset(&own, 0);
        let arr = ArrayBase { aref: ArrayRefBase(RawArrayRefBase { layout, storage }), own };
        assert(arr.elements(arena@) =~= elements);
        Some(arr)
    }

    /// Makes the array the only owner of the elements that it sees. An
    /// array that shares its allocation moves to a new one that holds a
    /// copy of just those elements; the shared allocation keeps its
    /// elements and loses one owner. An array that is the only owner
    /// already is left as it is, and so is the arena.
    pub fn ensure_unique(&mut self, arena: &mut Arena<B::Elem>)
        requires
            old(self).wf(old(arena)@),
        ensures
            final(self).aref.0.layout == old(self).aref.0.layout,
            final(self).address() == cow_address(old(arena)@, old(self).address()),
            final(arena)@ == cow_memory(old(arena)@, old(self).address(), old(self).spec_len()),
            final(self).wf(final(arena)@),
            exclusive(final(arena)@, final(self).address().block),
            final(self).elements(final(arena)@) == old(self).elements(old(arena)@),
            exclusive(old(arena)@, old(self).address().block) ==> *final(self) == *old(self),
    {
        proof {
            arena.lemma_bounded();
            lemma_cow_keeps_elements(arena@, self.address(), self.spec_len());
        }
        B::ensure_unique(self, arena)
    }

    /// Whether the array is the only owner of its allocation.
    pub fn is_unique(&self, arena: &Arena<B::Elem>) -> (unique: bool)
        requires
            self.wf(arena@),
        ensures
            unique == exclusive(arena@, self.address().block),
    {
        B::is_unique(self, arena)
    }

    /// The place of the first element, to write there. The array is made
    /// the only owner of its elements first, so the place returned is one
    /// that no other handle sees.
    pub fn as_mut_ptr(&mut self, arena: &mut Arena<B::Elem>) -> (addr: Address)
        requires
            old(self).wf(old(arena)@),
        ensures
            addr == final(self).address(),
            final(self).aref.0.layout == old(self).aref.0.layout,
            final(self).address() == cow_address(old(arena)@, old(self).address()),
            final(arena)@ == cow_memory(old(arena)@, old(self).address(), old(self).spec_len()),
            final(self).wf(final(arena)@),
            exclusive(final(arena)@, addr.block),
            final(self).elements(final(arena)@) == old(self).elements(old(arena)@),
            exclusive(old(arena)@, old(self).address().block) ==> *final(self) == *old(self),
    {
        self.ensure_unique(arena);
        self.aref.0.storage.as_ptr()
    }

    /// The element at the lowest address, to be written through, or `None`
    /// for an empty array. The array is made the only owner of its
    /// elements first, so what is written is seen by no other handle.
    pub fn first_mut<'a>(&mut self, arena: &'a mut Arena<B::Elem>) -> (element: Option<
        &'a mut B::Elem,
    >)
        requires
            old(self).wf(old(arena)@),
        ensures
            final(self).aref.0.layout == old(self).aref.0.layout,
            final(self).address() == cow_address(old(arena)@, old(self).address()),
            exclusive(old(arena)@, old(self).address().block) ==> *final(self) == *old(self),
            final(self).wf(final(arena)@),
            element is Some <==> old(self).spec_len() > 0,
            element is None ==> final(arena)@ == cow_memory(
                old(arena)@,
                old(self).address(),
                old(self).spec_len(),
            ),
            element matches Some(e) ==> *e == old(self).elements(old(arena)@)[0] && final(arena)@
                == written(
                cow_memory(old(arena)@, old(self).address(), old(self).spec_len()),
                final(self).address(),
                *final(e),
            ),
    {
        self.ensure_unique(arena);
        self.aref.first_mut(arena)
    }

    /// Gives the array up. Its allocation loses one owner and is freed
    /// when that was the last one.
    pub fn release(self, arena: &mut Arena<B::Elem>)
        requires
            self.wf(old(arena)@),
        ensures
            final(arena)@ == released(old(arena)@, self.address().block),
    {
        B::deallocate(self.own, arena)
    }
}

impl<L: Layout + Copy, B: Backend> ArrayBase<L, B> {
    /// A view of the array, to read. It sees what the array sees.
    pub fn view<'a>(&'a self) -> (view: ArrayViewBase<'a, L, B>)
        ensures
            view.aref == self.aref,
    {
        ArrayViewBase {
            aref: ArrayRefBase(
                RawArrayRefBase { layout: self.aref.0.layout, storage: self.aref.0.storage },
            ),
            life: PhantomData,
        }
    }

    /// A view of the array, to read and to write. The array is made the
    /// only owner of its elements first, so that what is written through
    /// the view is seen by no other handle.
    pub fn view_mut<'a>(&'a mut self, arena: &mut Arena<B::Elem>) -> (view: ArrayViewBaseMut<
        'a,
        L,
        B,
    >)
        requires
            old(self).wf(old(arena)@),
        ensures
            view.aref == final(self).aref,
            final(self).aref.0.layout == old(self).aref.0.layout,
            final(self).address() == cow_address(old(arena)@, old(self).address()),
            final(arena)@ == cow_memory(old(arena)@, old(self).address(), old(self).spec_len()),
            final(self).wf(final(arena)@),
            exclusive(final(arena)@, final(self).address().block),
            final(self).elements(final(arena)@) == old(self).elements(old(arena)@),
            exclusive(old(arena)@, old(self).address().block) ==> *final(self) == *old(self),
    {
        self.ensure_unique(arena);
        ArrayViewBaseMut {
            aref: ArrayRefBase(
                RawArrayRefBase { layout: self.aref.0.layout, storage: self.aref.0.storage },
            ),
            life: PhantomData,
        }
    }

    /// A raw view of the array: its shape and the place it points at.
    pub fn raw_view(&self) -> (view: RawArrayViewBase<L, B>)
        ensures
            view.aref == self.aref.0,
    {
        RawArrayViewBase {
            aref: RawArrayRefBase { layout: self.aref.0.layout, storage: self.aref.0.storage },
            life: PhantomData,
        }
    }

    /// A raw view of the array whose reference may be changed. The array
    /// is made the only owner of its elements first.
    pub fn raw_view_mut(&mut self, arena: &mut Arena<B::Elem>) -> (view: RawArrayViewBaseMut<L, B>)
        requires
            old(self).wf(old(arena)@),
        ensures
            view.aref == final(self).aref.0,
            final(self).aref.0.layout == old(self).aref.0.layout,
            final(self).address() == cow_address(old(arena)@, old(self).address()),
            final(arena)@ == cow_memory(old(arena)@, old(self).address(), old(self).spec_len()),
            final(self).wf(final(arena)@),
            exclusive(final(arena)@, final(self).address().block),
            final(self).elements(final(arena)@) == old(self).elements(old(arena)@),
            exclusive(old(arena)@, old(self).address().block) ==> *final(self) == *old(self),
    {
        self.ensure_unique(arena);
        RawArrayViewBaseMut {
            aref: RawArrayRefBase { layout: self.aref.0.layout, storage: self.aref.0.storage },
            life: PhantomData,
        }
    }
}

impl<L: Layout, T: Copy> ArrayBase<L, VecBackend<T>> {
    /// The same array in shared form: the sole owner becomes the first
    /// counted one. No element moves and the arena is not touched.
    pub fn into_shared(self) -> (shared: ArrayBase<L, ArcBackend<T>>)
        ensures
            shared.aref.0.layout == self.aref.0.layout,
            shared.address() == self.address(),
            shared.own.block() == self.own.block(),
            forall|mem: Seq<BlockModel<T>>| self.wf(mem) ==> #[trigger] shared.wf(mem),
            forall|mem: Seq<BlockModel<T>>| #[trigger] shared.elements(mem) == self.elements(mem),
    {
        let ArrayBase { aref, own } = self;
        let ArrayRefBase(RawArrayRefBase { layout, storage }) = aref;
        ArrayBase {
            aref: ArrayRefBase(RawArrayRefBase { layout, storage }),
            own: ArcOwner::from_exclusive(own),
        }
    }
}

impl<L: Layout + Copy, T: Copy> ArrayBase<L, ArcBackend<T>> {
    /// A second handle on the same elements. The allocation gains one
    /// owner and no element is copied.
    pub fn share(&self, arena: &mut Arena<T>) -> (other: Self)
        requires
            self.wf(old(arena)@),
            old(arena)@[self.address().block as int].strong < usize::MAX,
        ensures
            other.aref == self.aref,
            other.own.block() == self.own.block(),
            final(arena)@ == retained(old(arena)@, self.address().block),
            self.wf(final(arena)@),
            other.wf(final(arena)@),
            other.elements(final(arena)@) == self.elements(old(arena)@),
    {
        arena.retain(self.own.id());
        ArrayBase {
            aref: ArrayRefBase(
                RawArrayRefBase { layout: self.aref.0.layout, storage: self.aref.0.storage },
            ),
            own: ArcOwner::new(self.own.id()),
        }
    }
}

impl<'a, L: Layout + Copy, B: Backend> ArrayViewBase<'a, L, B> {
    /// Another view of the same elements, to read.
    pub fn reborrow<'b>(&'b self) -> (view: ArrayViewBase<'b, L, B>)
        ensures
            view.aref == self.aref,
    {
        ArrayViewBase {
            aref: ArrayRefBase(
                RawArrayRefBase { layout: self.aref.0.layout, storage: self.aref.0.storage },
            ),
            life: PhantomData,
        }
    }

    /// A raw view of the same elements.
    pub fn raw_view(&self) -> (view: RawArrayViewBase<L, B>)
        ensures
            view.aref == self.aref.0,
    {
        RawArrayViewBase {
            aref: RawArrayRefBase { layout: self.aref.0.layout, storage: self.aref.0.storage },
            life: PhantomData,
        }
    }
}

impl<'a, L: Layout + Copy, B: Backend> ArrayViewBaseMut<'a, L, B> {
    /// A view of the same elements, to read only.
    pub fn view<'b>(&'b self) -> (view: ArrayViewBase<'b, L, B>)
        ensures
            view.aref == self.aref,
    {
        ArrayViewBase {
            aref: ArrayRefBase(
                RawArrayRefBase { layout: self.aref.0.layout, storage: self.aref.0.storage },
            ),
            life: PhantomData,
        }
    }

    /// Another view of the same elements, to read and to write, for as
    /// long as this one is not used.
    pub fn reborrow<'b>(&'b mut self) -> (view: ArrayViewBaseMut<'b, L, B>)
        ensures
            view.aref == old(self).aref,
            *final(self) == *old(self),
    {
        ArrayViewBaseMut {
            aref: ArrayRefBase(
                RawArrayRefBase { layout: self.aref.0.layout, storage: self.aref.0.storage },
            ),
            life: PhantomData,
        }
    }

    /// A raw view of the same elements.
    pub fn raw_view(&self) -> (view: RawArrayViewBase<L, B>)
        ensures
            view.aref == self.aref.0,
    {
        RawArrayViewBase {
            aref: RawArrayRefBase { layout: self.aref.0.layout, storage: self.aref.0.storage },
            life: PhantomData,
        }
    }

    /// A raw view of the same elements whose reference may be changed.
    pub fn raw_view_mut(&mut self) -> (view: RawArrayViewBaseMut<L, B>)
        ensures
            view.aref == old(self).aref.0,
            *final(self) == *old(self),
    {
        RawArrayViewBaseMut {
            aref: RawArrayRefBase { layout: self.aref.0.layout, storage: self.aref.0.storage },
            life: PhantomData,
        }
    }
}

impl<L: Layout + Copy, B: Backend> RawArrayViewBase<L, B> {
    /// Another raw view of the same elements.
    pub fn raw_view(&self) -> (view: RawArrayViewBase<L, B>)
        ensures
            view.aref == self.aref,
    {
        RawArrayViewBase {
            aref: RawArrayRefBase { layout: self.aref.layout, storage: self.aref.storage },
            life: PhantomData,
        }
    }
}

impl<L: Layout + Copy, B: Backend> RawArrayViewBaseMut<L, B> {
    /// A raw view of the same elements whose reference is fixed.
    pub fn raw_view(&self) -> (view: RawArrayViewBase<L, B>)
        ensures
            view.aref == self.aref,
    {
        RawArrayViewBase {
            aref: RawArrayRefBase { layout: self.aref.layout, storage: self.aref.storage },
            life: PhantomData,
        }
    }

    /// Another raw view of the same elements whose reference may be
    /// changed.
    pub fn raw_view_mut(&mut self) -> (view: RawArrayViewBaseMut<L, B>)
        ensures
            view.aref == old(self).aref,
            *final(self) == *old(self),
    {
        RawArrayViewBaseMut {
            aref: RawArrayRefBase { layout: self.aref.layout, storage: self.aref.storage },
            life: PhantomData,
        }
    }
}

} // verus!
