use vstd::prelude::*;
use super::changeaxis::{added_axis, removed_axis, AddAxis, RemoveAxis};
use super::layout::Layout;
use super::patterned::Patterned;
use vstd::std_specs::convert::FromSpecImpl;

verus! {

/// A shape of fixed rank `N`, one extent per axis.
#[derive(Clone, Copy, Debug)]
pub struct Dense<const N: usize>(pub [usize; N]);

impl<const N: usize> Layout for Dense<N> {
    open spec fn extents(&self) -> Seq<usize> {
        self.0@
    }

    open spec fn static_ndim() -> Option<usize> {
        Some(N)
    }

    fn fixed_ndim() -> (n: Option<usize>) {
        Some(N)
    }

    fn ndim(&self) -> (n: usize) {
        N
    }

    fn slice(&self) -> (s: &[usize]) {
        &self.0
    }

    fn slice_mut(&mut self) -> (s: &mut [usize]) {
        &mut self.0
    }
}

impl Patterned for Dense<0> {
    type Pattern = ();

    open spec fn pattern_extents(pattern: ()) -> Seq<usize> {
        Seq::empty()
    }

    fn as_pattern(&self) -> (pattern: ()) {
        assert(self.0@ =~= Seq::<usize>::empty());
        ()
    }
}

impl From<()> for Dense<0> {
    fn from(_value: ()) -> (shape: Self) {
        Dense([])
    }
}

impl FromSpecImpl<()> for Dense<0> {
    open spec fn obeys_from_spec() -> bool {
        true
    }

    open spec fn from_spec(_value: ()) -> Self {
        Dense([])
    }
}

impl Patterned for Dense<1> {
    type Pattern = (usize,);

    open spec fn pattern_extents(pattern: (usize,)) -> Seq<usize> {
        seq![pattern.0]
    }

    fn as_pattern(&self) -> (pattern: (usize,)) {
        assert(self.0@ =~= seq![self.0[0]]);
        (self.0[0],)
    }
}

impl From<(usize,)> for Dense<1> {
    fn from(value: (usize,)) -> (shape: Self) {
        Dense([value.0])
    }
}

impl FromSpecImpl<(usize,)> for Dense<1> {
    open spec fn obeys_from_spec() -> bool {
        true
    }

    open spec fn from_spec(value: (usize,)) -> Self {
        Dense([value.0])
    }
}

impl Patterned for Dense<2> {
    type Pattern = (usize, usize);

    open spec fn pattern_extents(pattern: (usize, usize)) -> Seq<usize> {
        seq![pattern.0, pattern.1]
    }

    fn as_pattern(&self) -> (pattern: (usize, usize)) {
        assert(self.0@ =~= seq![self.0[0], self.0[1]]);
        (self.0[0], self.0[1])
    }
}

impl From<(usize, usize)> for Dense<2> {
    fn from(value: (usize, usize)) -> (shape: Self) {
        Dense([value.0, value.1])
    }
}

impl FromSpecImpl<(usize, usize)> for Dense<2> {
    open spec fn obeys_from_spec() -> bool {
        true
    }

    open spec fn from_spec(value: (usize, usize)) -> Self {
        Dense([value.0, value.1])
    }
}

impl RemoveAxis for Dense<1> {
    type Smaller = Dense<0>;

    fn remove_axis(&self, _axis: usize) -> (smaller: Dense<0>) {
        let smaller = Dense([]);
        assert(smaller.0@ =~= removed_axis(self.0@, _axis as int));
        smaller
    }
}

impl RemoveAxis for Dense<2> {
    type Smaller = Dense<1>;

    fn remove_axis(&self, axis: usize) -> (smaller: Dense<1>) {
        let smaller = match axis {
            0 => Dense([self.0[1]]),
            _ => Dense([self.0[0]]),
        };
        assert(smaller.0@ =~= removed_axis(self.0@, axis as int));
        smaller
    }
}

impl AddAxis for Dense<0> {
    type Larger = Dense<1>;

    fn add_axis(&self, _axis: usize, length: usize) -> (larger: Dense<1>) {
        let larger = Dense([length]);
        assert(larger.0@ =~= added_axis(self.0@, _axis as int, length));
        larger
    }
}

impl AddAxis for Dense<1> {
    type Larger = Dense<2>;

    fn add_axis(&self, axis: usize, length: usize) -> (larger: Dense<2>) {
        let larger = match axis {
            0 => Dense([length, self.0[0]]),
            _ => Dense([self.0[0], length]),
        };
        assert(larger.0@ =~= added_axis(self.0@, axis as int, length));
        larger
    }
}

} // verus!
