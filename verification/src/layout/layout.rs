use vstd::prelude::*;

verus! {

/// Product of all extents of a shape. The shape without axes has product one.
pub open spec fn extent_product(extents: Seq<usize>) -> nat
    decreases extents.len(),
{
    if extents.len() == 0 {
        1
    } else {
        extent_product(extents.drop_last()) * (extents.last() as nat)
    }
}

/// Every leading run of axes has a product that fits the addressing width.
/// This is what a left-to-right multiplication needs in order not to overflow.
pub open spec fn prefixes_fit(extents: Seq<usize>) -> bool {
    forall|k: int| 0 <= k <= extents.len() ==> #[trigger] extent_product(extents.take(k)) <= usize::MAX
}

/// The product written out for the shapes of up to three axes.
pub proof fn lemma_product_small(extents: Seq<usize>)
    ensures
        extents.len() == 0 ==> extent_product(extents) == 1,
        extents.len() == 1 ==> extent_product(extents) == extents[0],
        extents.len() == 2 ==> extent_product(extents) == extents[0] * extents[1],
        extents.len() == 3 ==> extent_product(extents) == extents[0] * extents[1] * extents[2],
    decreases extents.len(),
{
    if 1 <= extents.len() <= 3 {
        let head = extents.drop_last();
        lemma_product_small(head);
        let p = extent_product(head);
        let e = extents.last() as nat;
        assert(extent_product(extents) == p * e);
        if extents.len() == 1 {
            assert(p * e == e) by (nonlinear_arith)
                requires
                    p == 1,
            ;
        }
    }
}

/// Taking one more axis multiplies the product by that axis's extent.
pub proof fn lemma_product_step(extents: Seq<usize>, k: int)
    requires
        0 <= k < extents.len(),
    ensures
        extent_product(extents.take(k + 1)) == extent_product(extents.take(k)) * (extents[k] as nat),
{
    assert(extents.take(k + 1).drop_last() =~= extents.take(k));
}

/// A shape with an axis of extent zero holds no element.
pub proof fn lemma_product_zero(extents: Seq<usize>, i: int)
    requires
        0 <= i < extents.len(),
        extents[i] == 0,
    ensures
        extent_product(extents) == 0,
    decreases extents.len(),
{
    if i == extents.len() - 1 {
        assert(extent_product(extents.drop_last()) * 0 == 0);
    } else {
        lemma_product_zero(extents.drop_last(), i);
        assert(0 * (extents.last() as nat) == 0);
    }
}

/// Where no axis has extent zero, the product of a leading run of axes is
/// at least one and never exceeds the product of the whole shape.
pub proof fn lemma_prefix_bounded(extents: Seq<usize>, k: int)
    requires
        0 <= k <= extents.len(),
        forall|j: int| 0 <= j < extents.len() ==> extents[j] >= 1,
    ensures
        1 <= extent_product(extents.take(k)) <= extent_product(extents),
    decreases extents.len() - k,
{
    if k == extents.len() {
        assert(extents.take(k) =~= extents);
        lemma_product_positive(extents);
    } else {
        lemma_prefix_bounded(extents, k + 1);
        lemma_product_step(extents, k);
        let p = extent_product(extents.take(k));
        let e = extents[k] as nat;
        assert(p * e >= 1);
        assert(p >= 1 && p <= p * e) by (nonlinear_arith)
            requires
                p * e >= 1,
                e >= 1,
        ;
    }
}

/// Where no axis has extent zero, the shape holds at least one element.
pub proof fn lemma_product_positive(extents: Seq<usize>)
    requires
        forall|j: int| 0 <= j < extents.len() ==> extents[j] >= 1,
    ensures
        extent_product(extents) >= 1,
    decreases extents.len(),
{
    if extents.len() > 0 {
        lemma_product_positive(extents.drop_last());
        let p = extent_product(extents.drop_last());
        let e = extents.last() as nat;
        assert(p * e >= 1) by (nonlinear_arith)
            requires
                p >= 1,
                e >= 1,
        ;
    }
}

/// Where no axis has extent zero, a left-to-right multiplication stays in
/// range exactly when the full product does.
pub proof fn lemma_prefixes_fit_nonzero(extents: Seq<usize>)
    requires
        forall|j: int| 0 <= j < extents.len() ==> extents[j] >= 1,
    ensures
        prefixes_fit(extents) <==> extent_product(extents) <= usize::MAX,
{
    assert(extents.take(extents.len() as int) =~= extents);
    if extent_product(extents) <= usize::MAX {
        assert forall|k: int| 0 <= k <= extents.len() implies #[trigger] extent_product(
            extents.take(k),
        ) <= usize::MAX by {
            lemma_prefix_bounded(extents, k);
        }
    }
}

/// The shape of an array: its extents, one per axis, in axis order.
pub trait Layout: Sized {
    /// The extents of the shape, one per axis.
    spec fn extents(&self) -> Seq<usize>;

    /// The number of axes that the type itself fixes, if it fixes one.
    spec fn static_ndim() -> Option<usize>;

    /// `Some(n)` for a representation of fixed rank `n`, `None` for one
    /// whose rank is only known at run time.
    fn fixed_ndim() -> (n: Option<usize>)
        ensures
            n == Self::static_ndim(),
    ;

    /// The number of axes.
    fn ndim(&self) -> (n: usize)
        ensures
            n == self.extents().len(),
            Self::static_ndim() matches Some(fixed) ==> n == fixed,
    ;

    /// The number of elements: the product of the extents.
    fn size(&self) -> (n: usize)
        requires
            extent_product(self.extents()) <= usize::MAX,
        ensures
            n == extent_product(self.extents()),
            self.extents().len() == 0 ==> n == 1,
    {
        let s = self.slice();
        let mut i: usize = 0;
        while i < s.len()
            invariant
                i <= s.len(),
                s@ == self.extents(),
                forall|j: int| 0 <= j < i ==> s@[j] >= 1,
            decreases s.len() - i,
        {
            if s[i] == 0 {
                proof {
                    lemma_product_zero(s@, i as int);
                }
                return 0;
            }
            i += 1;
        }
        let mut acc: usize = 1;
        let mut k: usize = 0;
        assert(s@.take(0) =~= Seq::<usize>::empty());
        while k < s.len()
            invariant
                k <= s.len(),
                forall|j: int| 0 <= j < s.len() ==> s@[j] >= 1,
                acc == extent_product(s@.take(k as int)),
                extent_product(s@) <= usize::MAX,
            decreases s.len() - k,
        {
            proof {
                lemma_product_step(s@, k as int);
                lemma_prefix_bounded(s@, k + 1);
            }
            acc = acc * s[k];
            k += 1;
        }
        assert(s@.take(s.len() as int) =~= s@);
        acc
    }

    /// The number of elements, or `None` where multiplying the extents in
    /// axis order leaves the addressing width.
    fn size_checked(&self) -> (n: Option<usize>)
        ensures
            n is Some <==> prefixes_fit(self.extents()),
            n matches Some(count) ==> count == extent_product(self.extents()),
    {
        let s = self.slice();
        let mut acc: usize = 1;
        let mut k: usize = 0;
        assert(s@.take(0) =~= Seq::<usize>::empty());
        while k < s.len()
            invariant
                k <= s.len(),
                s@ == self.extents(),
                acc == extent_product(s@.take(k as int)),
                forall|j: int| 0 <= j <= k ==> #[trigger] extent_product(s@.take(j)) <= usize::MAX,
            decreases s.len() - k,
        {
            proof {
                lemma_product_step(s@, k as int);
            }
            match acc.checked_mul(s[k]) {
                Some(next) => {
                    acc = next;
                },
                None => {
                    assert(extent_product(s@.take(k + 1)) > usize::MAX);
                    return None;
                },
            }
            k += 1;
        }
        assert(s@.take(s.len() as int) =~= s@);
        Some(acc)
    }

    /// The extents as a slice, one entry per axis.
    fn slice(&self) -> (s: &[usize])
        ensures
            s@ == self.extents(),
    ;

    /// The extents as a slice that can be written through.
    fn slice_mut(&mut self) -> (s: &mut [usize])
        ensures
            s@ == old(self).extents(),
            final(self).extents() == final(s)@,
    ;

    /// Whether two shapes have the same extents, axis by axis.
    fn equal(&self, rhs: &Self) -> (same: bool)
        ensures
            same == (self.extents() == rhs.extents()),
    {
        let a = self.slice();
        let b = rhs.slice();
        if a.len() != b.len() {
            return false;
        }
        let mut i: usize = 0;
        while i < a.len()
            invariant
                a.len() == b.len(),
                i <= a.len(),
                a@ == self.extents(),
                b@ == rhs.extents(),
                forall|j: int| 0 <= j < i ==> a@[j] == b@[j],
            decreases a.len() - i,
        {
            if a[i] != b[i] {
                return false;
            }
            i += 1;
        }
        assert(a@ =~= b@);
        true
    }
}

} // verus!
