//! Shapes: how many axes an array has and how far it extends along each.

pub mod changeaxis;
pub mod dense;
pub mod layout;
pub mod patterned;

pub use changeaxis::{added_axis, dropped_axis, removed_axis, AddAxis, RemoveAxis};
pub use dense::Dense;
pub use layout::{extent_product, prefixes_fit, Layout};
pub use patterned::Patterned;
