//! What each handle gives out. A handle is as able as the reference that
//! it hands over: a raw view gives a raw reference, a safe one a safe
//! reference, and only the handles that may write give theirs out to be
//! changed. A read view has no way to a reference that can be changed.

use vstd::prelude::*;
use core::ops::Deref;
use super::structs::{
    ArrayBase, ArrayViewBase, ArrayViewBaseMut, RawArrayViewBase, RawArrayViewBaseMut,
};
use crate::arrayref::structs::{ArrayRefBase, RawArrayRefBase};
use crate::backends::Backend;

verus! {

impl<L, B: Backend> Deref for ArrayBase<L, B> {
    type Target = ArrayRefBase<L, B>;

    fn deref(&self) -> (aref: &ArrayRefBase<L, B>)
        ensures
            *aref == self.aref,
    {
        &self.aref
    }
}

impl<L, B: Backend> ArrayBase<L, B> {
    /// The safe reference of the array, to be changed in place. The owner
    /// stays as it is.
    pub fn deref_mut(&mut self) -> (aref: &mut ArrayRefBase<L, B>)
        ensures
            *aref == old(self).aref,
            final(self).aref == *final(aref),
            final(self).own == old(self).own,
    {
        &mut self.aref
    }
}

impl<'a, L, B: Backend> Deref for ArrayViewBase<'a, L, B> {
    type Target = ArrayRefBase<L, B>;

    fn deref(&self) -> (aref: &ArrayRefBase<L, B>)
        ensures
            *aref == self.aref,
    {
        &self.aref
    }
}

impl<'a, L, B: Backend> Deref for ArrayViewBaseMut<'a, L, B> {
    type Target = ArrayRefBase<L, B>;

    fn deref(&self) -> (aref: &ArrayRefBase<L, B>)
        ensures
            *aref == self.aref,
    {
        &self.aref
    }
}

impl<'a, L, B: Backend> ArrayViewBaseMut<'a, L, B> {
    /// The safe reference of the view, to be changed in place.
    pub fn deref_mut(&mut self) -> (aref: &mut ArrayRefBase<L, B>)
        ensures
            *aref == old(self).aref,
            final(self).aref == *final(aref),
    {
        &mut self.aref
    }
}

impl<L, B: Backend> Deref for RawArrayViewBase<L, B> {
    type Target = RawArrayRefBase<L, B>;

    fn deref(&self) -> (aref: &RawArrayRefBase<L, B>)
        ensures
            *aref == self.aref,
    {
        &self.aref
    }
}

impl<L, B: Backend> Deref for RawArrayViewBaseMut<L, B> {
    type Target = RawArrayRefBase<L, B>;

    fn deref(&self) -> (aref: &RawArrayRefBase<L, B>)
        ensures
            *aref == self.aref,
    {
        &self.aref
    }
}

impl<L, B: Backend> RawArrayViewBaseMut<L, B> {
    /// The raw reference of the view, to be changed in place.
    pub fn deref_mut(&mut self) -> (aref: &mut RawArrayRefBase<L, B>)
        ensures
            *aref == old(self).aref,
            final(self).aref == *final(aref),
    {
        &mut self.aref
    }
}

} // verus!
