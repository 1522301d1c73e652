use vstd::prelude::*;
use core::ops::Deref;
use crate::backends::{Backend, VecBackend};

verus! {

/// A reference to an array whose elements may not be safe to read.
pub struct RawArrayRefBase<L, B: Backend> {
    pub layout: L,
    pub storage: B::Ref,
}

/// A reference to an array whose elements are safe to read.
pub struct ArrayRefBase<L, B: Backend>(pub RawArrayRefBase<L, B>);

pub type RawArrayRef<A, L> = RawArrayRefBase<L, VecBackend<A>>;

pub type ArrayRef<A, L> = ArrayRefBase<L, VecBackend<A>>;

impl<L, B: Backend> Deref for ArrayRefBase<L, B> {
    type Target = RawArrayRefBase<L, B>;

    /// The raw reference inside: what a safe reference can do includes
    /// what a raw one can.
    fn deref(&self) -> (raw: &RawArrayRefBase<L, B>)
        ensures
            *raw == self.0,
    {
        &self.0
    }
}

impl<L, B: Backend> ArrayRefBase<L, B> {
    /// The raw reference inside, to be changed in place.
    pub fn deref_mut(&mut self) -> (raw: &mut RawArrayRefBase<L, B>)
        ensures
            *raw == old(self).0,
            final(self).0 == *final(raw),
    {
        &mut self.0
    }
}

} // verus!
