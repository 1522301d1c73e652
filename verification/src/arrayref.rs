//! References to arrays: a shape bound to a place in memory.
//!
//! Most of what an array can do is defined on its reference. A raw
//! reference knows its shape and where it points; a safe reference is a
//! raw one whose elements may also be read.

pub mod impls;
pub mod structs;

pub use structs::{ArrayRef, ArrayRefBase, RawArrayRef, RawArrayRefBase};
