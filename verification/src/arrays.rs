//! The array handles: the owned array and the four views of it.
//!
//! The handles differ only in whether they own their allocation and in
//! which reference they give out: raw or safe, to read or to write.

pub mod derefs;
pub mod impls;
pub mod structs;

pub use structs::{
    ArcArray, Array, ArrayBase, ArrayView, ArrayViewBase, ArrayViewBaseMut, ArrayViewMut,
    RawArrayView, RawArrayViewBase, RawArrayViewBaseMut, RawArrayViewMut,
};
