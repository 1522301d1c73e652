//! The reference-and-ownership layer beneath a multidimensional array:
//! shapes, an arena of reference-counted allocations, raw and safe
//! references into it, and the five array handles built from them.
//!
//! Memory is explicit. An [`Arena`] holds the allocations, and a handle
//! finds its elements by an [`Address`]: the index of an allocation and an
//! offset into it. Contracts speak of the arena's view, a sequence of
//! allocations with their elements and counts of owners, so that what a
//! call does to every handle, not only to the one it is made on, can be
//! stated and proved. The rules of copy-on-write are in [`cow`].

pub mod arena;
pub mod arrayref;
pub mod arrays;
pub mod backends;
pub mod cow;
pub mod layout;
pub mod ownership;
pub mod showcase;
pub mod storage;

pub use arena::{Address, Arena};
pub use arrayref::{ArrayRef, ArrayRefBase, RawArrayRef, RawArrayRefBase};
pub use arrays::{
    ArcArray, Array, ArrayBase, ArrayView, ArrayViewBase, ArrayViewBaseMut, ArrayViewMut,
    RawArrayView, RawArrayViewBase, RawArrayViewBaseMut, RawArrayViewMut,
};
pub use backends::{ArcBackend, Backend, VecBackend};
pub use layout::{AddAxis, Dense, Layout, Patterned, RemoveAxis};
pub use ownership::{ArcOwner, VecOwner};
pub use storage::{NonNullStorage, PointerStorage, Storage};
