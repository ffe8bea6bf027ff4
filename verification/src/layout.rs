//! Shapes and strided layouts of tensors.

use vstd::prelude::*;

verus! {

/// Product of a sequence of dimension sizes (1 for the empty sequence).
pub open spec fn prod(s: Seq<usize>) -> int
    decreases s.len(),
{
    if s.len() == 0 {
        1
    } else {
        prod(s.drop_last()) * s.last()
    }
}

/// Every product of a suffix of `dims` fits in a `usize`.
pub open spec fn suffix_products_fit(dims: Seq<usize>) -> bool {
    forall|i: int| 0 <= i <= dims.len() ==> #[trigger] prod(dims.subrange(i, dims.len() as int)) <= usize::MAX
}

/// The row-major (C-order) contiguity test: every dimension of size above one
/// has the stride that the product of the later dimensions gives.
pub open spec fn spec_is_contiguous(dims: Seq<usize>, stride: Seq<usize>) -> bool {
    &&& dims.len() == stride.len()
    &&& forall|i: int|
        0 <= i < dims.len() && #[trigger] dims[i] > 1 ==> stride[i] == prod(dims.subrange(i + 1, dims.len() as int))
}

pub proof fn lemma_prod_nonneg(s: Seq<usize>)
    ensures
        prod(s) >= 0,
    decreases s.len(),
{
    if s.len() > 0 {
        lemma_prod_nonneg(s.drop_last());
        vstd::arithmetic::mul::lemma_mul_nonnegative(prod(s.drop_last()), s.last() as int);
    }
}

pub proof fn lemma_prod_push(s: Seq<usize>, x: usize)
    ensures
        prod(s.push(x)) == prod(s) * x,
{
    assert(s.push(x).drop_last() =~= s);
}

/// The product can be taken from the front as well as from the back.
pub proof fn lemma_prod_front(s: Seq<usize>)
    requires
        s.len() > 0,
    ensures
        prod(s) == s[0] * prod(s.drop_first()),
    decreases s.len(),
{
    if s.len() == 1 {
        assert(s.drop_last() =~= Seq::<usize>::empty());
        assert(s.drop_first() =~= Seq::<usize>::empty());
    } else {
        let t = s.drop_last();
        lemma_prod_front(t);
        assert(t.drop_first() =~= s.drop_first().drop_last());
        assert(s.drop_first().last() == s.last());
        vstd::arithmetic::mul::lemma_mul_is_associative(
            s[0] as int,
            prod(t.drop_first()),
            s.last() as int,
        );
    }
}

/// The product of the suffix that starts one place earlier.
pub proof fn lemma_suffix_step(d: Seq<usize>, i: int)
    requires
        0 < i <= d.len(),
    ensures
        prod(d.subrange(i - 1, d.len() as int)) == d[i - 1] * prod(d.subrange(i, d.len() as int)),
{
    let s = d.subrange(i - 1, d.len() as int);
    lemma_prod_front(s);
    assert(s.drop_first() =~= d.subrange(i, d.len() as int));
}

/// Dimensions, strides (in elements) and start offset of a strided view.
#[derive(Clone, Debug)]
pub struct Layout {
    pub dims: Vec<usize>,
    pub stride: Vec<usize>,
    pub start_offset: usize,
}

impl Layout {
    /// One stride per dimension, and no partial element count overflows.
    pub open spec fn wf(&self) -> bool {
        &&& self.dims@.len() == self.stride@.len()
        &&& suffix_products_fit(self.dims@)
    }

    pub open spec fn spec_elem_count(&self) -> int {
        prod(self.dims@)
    }

    pub open spec fn spec_contiguous(&self) -> bool {
        spec_is_contiguous(self.dims@, self.stride@)
    }

    /// A layout over the given dimensions with the given strides.
    pub fn new(dims: Vec<usize>, stride: Vec<usize>, start_offset: usize) -> (r: Layout)
        ensures
            r.dims@ == dims@,
            r.stride@ == stride@,
            r.start_offset == start_offset,
    {
        Layout { dims, stride, start_offset }
    }

    /// The row-major layout of the given dimensions, starting at `start_offset`.
    pub fn contiguous_with_offset(dims: Vec<usize>, start_offset: usize) -> (r: Layout)
        requires
            suffix_products_fit(dims@),
        ensures
            r.wf(),
            r.dims@ == dims@,
            r.start_offset == start_offset,
            r.spec_contiguous(),
            forall|i: int| 0 <= i < dims.len() ==> #[trigger] r.stride@[i] == prod(dims@.subrange(i + 1, dims.len() as int)),
    {
        let n = dims.len();
        let mut stride: Vec<usize> = Vec::new();
        let mut k: usize = 0;
        while k < n
            invariant
                k <= n,
                n == dims.len(),
                stride.len() == k,
                forall|j: int| 0 <= j < k ==> stride@[j] == 0,
            decreases n - k,
        {
            stride.push(0);
            k = k + 1;
        }
        let mut acc: usize = 1;
        let mut i: usize = n;
        assert(dims@.subrange(n as int, n as int) =~= Seq::<usize>::empty());
        while i > 0
            invariant
                i <= n,
                n == dims.len(),
                stride.len() == n,
                suffix_products_fit(dims@),
                acc == prod(dims@.subrange(i as int, n as int)),
                forall|j: int| i <= j < n ==> #[trigger] stride@[j] == prod(dims@.subrange(j + 1, n as int)),
            decreases i,
        {
            i = i - 1;
            stride.set(i, acc);
            proof {
                lemma_suffix_step(dims@, i + 1);
                assert(prod(dims@.subrange(i as int, n as int)) <= usize::MAX);
            }
            acc = dims[i] * acc;
        }
        Layout { dims, stride, start_offset }
    }

    /// The row-major layout of the given dimensions.
    pub fn contiguous(dims: Vec<usize>) -> (r: Layout)
        requires
            suffix_products_fit(dims@),
        ensures
            r.wf(),
            r.dims@ == dims@,
            r.start_offset == 0,
            r.spec_contiguous(),
            forall|i: int| 0 <= i < dims.len() ==> #[trigger] r.stride@[i] == prod(dims@.subrange(i + 1, dims.len() as int)),
    {
        Self::contiguous_with_offset(dims, 0)
    }

    /// Number of elements that the layout addresses.
    pub fn elem_count(&self) -> (r: usize)
        requires
            self.wf(),
        ensures
            r == self.spec_elem_count(),
    {
        let n = self.dims.len();
        let mut acc: usize = 1;
        let mut i: usize = n;
        assert(self.dims@.subrange(n as int, n as int) =~= Seq::<usize>::empty());
        while i > 0
            invariant
                i <= n,
                n == self.dims.len(),
                self.wf(),
                acc == prod(self.dims@.subrange(i as int, n as int)),
            decreases i,
        {
            proof {
                lemma_suffix_step(self.dims@, i as int);
                assert(prod(self.dims@.subrange(i - 1, n as int)) <= usize::MAX);
            }
            i = i - 1;
            acc = self.dims[i] * acc;
        }
        assert(self.dims@.subrange(0, n as int) =~= self.dims@);
        acc
    }

    /// Whether the layout is row-major contiguous.
    pub fn is_contiguous(&self) -> (r: bool)
        requires
            self.wf(),
        ensures
            r == self.spec_contiguous(),
    {
        let n = self.dims.len();
        let mut acc: usize = 1;
        let mut i: usize = n;
        assert(self.dims@.subrange(n as int, n as int) =~= Seq::<usize>::empty());
        while i > 0
            invariant
                i <= n,
                n == self.dims.len(),
                self.wf(),
                acc == prod(self.dims@.subrange(i as int, n as int)),
                forall|j: int|
                    i <= j < n && #[trigger] self.dims@[j] > 1 ==> self.stride@[j] == prod(
                        self.dims@.subrange(j + 1, n as int),
                    ),
            decreases i,
        {
            let d = self.dims[i - 1];
            let s = self.stride[i - 1];
            if d > 1 && s != acc {
                return false;
            }
            proof {
                lemma_suffix_step(self.dims@, i as int);
                assert(prod(self.dims@.subrange(i - 1, n as int)) <= usize::MAX);
            }
            i = i - 1;
            acc = d * acc;
        }
        true
    }

    /// Number of dimensions.
    pub fn rank(&self) -> (r: usize)
        ensures
            r == self.dims@.len(),
    {
        self.dims.len()
    }
}

/// `a` followed by `b`.
pub fn concat_usize(a: &Vec<usize>, b: &Vec<usize>) -> (r: Vec<usize>)
    ensures
        r@ == a@ + b@,
{
    let mut out: Vec<usize> = Vec::new();
    let mut i: usize = 0;
    while i < a.len()
        invariant
            i <= a.len(),
            out@ == a@.subrange(0, i as int),
        decreases a.len() - i,
    {
        out.push(a[i]);
        i = i + 1;
    }
    let mut j: usize = 0;
    while j < b.len()
        invariant
            j <= b.len(),
            out@ == a@ + b@.subrange(0, j as int),
        decreases b.len() - j,
    {
        out.push(b[j]);
        j = j + 1;
    }
    assert(a@.subrange(0, a.len() as int) =~= a@);
    assert(b@.subrange(0, b.len() as int) =~= b@);
    out
}

} // verus!
