use vstd::prelude::*;
use super::layout::Layout;

verus! {

/// A shape that can be written as a value to match on: nothing for rank
/// zero, one extent for rank one, a pair of extents for rank two.
pub trait Patterned: Layout + Sized {
    /// The matchable form of the shape.
    type Pattern: Into<Self>;

    /// The extents that a pattern names, in axis order.
    spec fn pattern_extents(pattern: Self::Pattern) -> Seq<usize>;

    /// The shape in its matchable form.
    fn as_pattern(&self) -> (pattern: Self::Pattern)
        ensures
            Self::pattern_extents(pattern) == self.extents(),
    ;
}

} // verus!
