use vstd::prelude::*;
use core::marker::PhantomData;
use crate::arrayref::structs::{ArrayRefBase, RawArrayRefBase};
use crate::backends::{ArcBackend, Backend, VecBackend};

verus! {

/// An owned array: a safe reference together with the owner of the
/// allocation that it points into.
pub struct ArrayBase<L, B: Backend> {
    pub aref: ArrayRefBase<L, B>,
    pub own: B::Owned,
}

pub type Array<A, L> = ArrayBase<L, VecBackend<A>>;

pub type ArcArray<A, L> = ArrayBase<L, ArcBackend<A>>;

/// A view of an existing array, to read.
pub struct ArrayViewBase<'a, L, B: Backend> {
    pub aref: ArrayRefBase<L, B>,
    pub life: PhantomData<&'a B::Elem>,
}

/// A view of an existing array, to read and to write.
pub struct ArrayViewBaseMut<'a, L, B: Backend> {
    pub aref: ArrayRefBase<L, B>,
    pub life: PhantomData<&'a mut B::Elem>,
}

/// A view of an array that is bound to no borrow and whose elements may
/// not be safe to read.
pub struct RawArrayViewBase<L, B: Backend> {
    pub aref: RawArrayRefBase<L, B>,
    pub life: PhantomData<B::Elem>,
}

/// A view of an array that is bound to no borrow, whose elements may not
/// be safe to read, and whose reference may be changed.
pub struct RawArrayViewBaseMut<L, B: Backend> {
    pub aref: RawArrayRefBase<L, B>,
    pub life: PhantomData<B::Elem>,
}

pub type ArrayView<'a, A, L> = ArrayViewBase<'a, L, VecBackend<A>>;

pub type ArrayViewMut<'a, A, L> = ArrayViewBaseMut<'a, L, VecBackend<A>>;

pub type RawArrayView<A, L> = RawArrayViewBase<L, VecBackend<A>>;

pub type RawArrayViewMut<A, L> = RawArrayViewBaseMut<L, VecBackend<A>>;

} // verus!
