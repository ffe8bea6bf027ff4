//! Dimension bookkeeping for reductions.

use vstd::prelude::*;
use crate::layout::{Layout, prod, lemma_prod_push, lemma_prod_nonneg, concat_usize};
use crate::dtype::DType;
use crate::plan::{Launch, BLOCK};

verus! {

/// Entries of `s` among its first `n` positions whose index is not reduced, in order.
pub open spec fn kept(s: Seq<usize>, rd: Seq<usize>, n: int) -> Seq<usize>
    decreases n,
{
    if n <= 0 {
        Seq::empty()
    } else if rd.contains((n - 1) as usize) {
        kept(s, rd, n - 1)
    } else {
        kept(s, rd, n - 1).push(s[n - 1])
    }
}

/// Entries of `s` among its first `n` positions whose index is reduced, in order.
pub open spec fn reduced(s: Seq<usize>, rd: Seq<usize>, n: int) -> Seq<usize>
    decreases n,
{
    if n <= 0 {
        Seq::empty()
    } else if rd.contains((n - 1) as usize) {
        reduced(s, rd, n - 1).push(s[n - 1])
    } else {
        reduced(s, rd, n - 1)
    }
}

/// Every product of a prefix of `s` fits in a `usize`.
pub open spec fn prefix_products_fit(s: Seq<usize>) -> bool {
    forall|i: int| 0 <= i <= s.len() ==> #[trigger] prod(s.take(i)) <= usize::MAX
}

pub open spec fn at_least_one(x: int) -> int {
    if x < 1 { 1 } else { x }
}

/// What a reduction over `rd` of a tensor with dimensions `dims` needs: the
/// two groups of dimensions have products that can be computed without overflow.
pub open spec fn reduce_fits(dims: Seq<usize>, rd: Seq<usize>) -> bool {
    &&& prefix_products_fit(kept(dims, rd, dims.len() as int))
    &&& prefix_products_fit(reduced(dims, rd, dims.len() as int))
}

/// The kept and reduced groups split the dimensions: their lengths add up,
/// and so do their products multiply up to the whole product.
pub proof fn lemma_split_counts(s: Seq<usize>, rd: Seq<usize>, n: int)
    requires
        0 <= n <= s.len(),
    ensures
        kept(s, rd, n).len() + reduced(s, rd, n).len() == n,
        prod(kept(s, rd, n)) * prod(reduced(s, rd, n)) == prod(s.take(n)),
    decreases n,
{
    if n == 0 {
        assert(s.take(0) =~= Seq::<usize>::empty());
    } else {
        lemma_split_counts(s, rd, n - 1);
        let k = kept(s, rd, n - 1);
        let r = reduced(s, rd, n - 1);
        let x = s[n - 1];
        assert(s.take(n).drop_last() =~= s.take(n - 1));
        if rd.contains((n - 1) as usize) {
            lemma_prod_push(r, x);
            vstd::arithmetic::mul::lemma_mul_is_associative(prod(k), prod(r), x as int);
        } else {
            lemma_prod_push(k, x);
            vstd::arithmetic::mul::lemma_mul_is_associative(prod(k), x as int, prod(r));
            vstd::arithmetic::mul::lemma_mul_is_associative(prod(k), prod(r), x as int);
            vstd::arithmetic::mul::lemma_mul_is_commutative(x as int, prod(r));
        }
    }
}

/// A reduction moves every dimension into exactly one of the two groups, and
/// the product of the output size and the reduced size is the element count.
pub proof fn law_reduce_split(dims: Seq<usize>, rd: Seq<usize>)
    ensures
        kept(dims, rd, dims.len() as int).len() + reduced(dims, rd, dims.len() as int).len() == dims.len(),
        prod(kept(dims, rd, dims.len() as int)) * prod(reduced(dims, rd, dims.len() as int)) == prod(dims),
{
    lemma_split_counts(dims, rd, dims.len() as int);
    assert(dims.take(dims.len() as int) =~= dims);
}

/// The groups depend only on which of the first `n` indices the reduced
/// dimensions name: their order, repeats and indices past `n` do not matter.
proof fn lemma_groups_same_indices(s: Seq<usize>, p: Seq<usize>, q: Seq<usize>, n: int)
    requires
        forall|i: int| 0 <= i < n ==> (#[trigger] p.contains(i as usize) <==> q.contains(i as usize)),
    ensures
        kept(s, p, n) == kept(s, q, n),
        reduced(s, p, n) == reduced(s, q, n),
    decreases n,
{
    if n > 0 {
        lemma_groups_same_indices(s, p, q, n - 1);
        assert(p.contains((n - 1) as usize) <==> q.contains((n - 1) as usize));
    }
}

/// The layout data of a reduction depends only on which dimensions are
/// reduced: two lists naming the same dimensions below the rank give the
/// same kept and reduced groups of dimensions and of strides. With one
/// stride per dimension, the layout data holds two entries per dimension.
pub proof fn law_reduce_info_indices(dims: Seq<usize>, strides: Seq<usize>, p: Seq<usize>, q: Seq<usize>)
    requires
        strides.len() == dims.len(),
        forall|i: int| 0 <= i < dims.len() ==> (#[trigger] p.contains(i as usize) <==> q.contains(i as usize)),
    ensures
        ({
            let n = dims.len() as int;
            &&& kept(dims, p, n) == kept(dims, q, n)
            &&& reduced(dims, p, n) == reduced(dims, q, n)
            &&& kept(strides, p, n) == kept(strides, q, n)
            &&& reduced(strides, p, n) == reduced(strides, q, n)
            &&& (kept(dims, p, n) + reduced(dims, p, n) + kept(strides, p, n) + reduced(strides, p, n)).len() == 2 * n
        }),
{
    let n = dims.len() as int;
    lemma_groups_same_indices(dims, p, q, n);
    lemma_groups_same_indices(strides, p, q, n);
    lemma_split_counts(dims, p, n);
    lemma_split_counts(strides, p, n);
}

/// Reducing over no dimension keeps every dimension in order.
pub proof fn law_reduce_nothing(s: Seq<usize>, rd: Seq<usize>, n: int)
    requires
        0 <= n <= s.len(),
        rd.len() == 0,
    ensures
        kept(s, rd, n) == s.take(n),
        reduced(s, rd, n) == Seq::<usize>::empty(),
    decreases n,
{
    if n == 0 {
        assert(s.take(0) =~= Seq::<usize>::empty());
    } else {
        law_reduce_nothing(s, rd, n - 1);
        assert(s.take(n) =~= s.take(n - 1).push(s[n - 1]));
    }
}

fn contains_index(rd: &[usize], i: usize) -> (r: bool)
    ensures
        r == rd@.contains(i),
{
    let mut k: usize = 0;
    while k < rd.len()
        invariant
            k <= rd.len(),
            forall|j: int| 0 <= j < k ==> rd@[j] != i,
        decreases rd.len() - k,
    {
        if rd[k] == i {
            return true;
        }
        k = k + 1;
    }
    false
}

/// Product of the entries of `s`, at least 1.
fn product_at_least_one(s: &Vec<usize>) -> (r: usize)
    requires
        prefix_products_fit(s@),
    ensures
        r == at_least_one(prod(s@)),
{
    let mut acc: usize = 1;
    let mut i: usize = 0;
    assert(s@.take(0) =~= Seq::<usize>::empty());
    while i < s.len()
        invariant
            i <= s.len(),
            prefix_products_fit(s@),
            acc == prod(s@.take(i as int)),
        decreases s.len() - i,
    {
        proof {
            assert(s@.take(i + 1).drop_last() =~= s@.take(i as int));
            assert(prod(s@.take(i + 1)) <= usize::MAX);
        }
        acc = acc * s[i];
        i = i + 1;
    }
    assert(s@.take(s.len() as int) =~= s@);
    if acc < 1 { 1 } else { acc }
}

/// Layout data for a reduction kernel: the dimensions reordered so that the
/// kept ones come first and the reduced ones last, then their strides in the
/// same order; with the number of outputs and the number of elements that
/// each output reduces (each at least 1).
pub fn reduce_info(layout: &Layout, reduce_dims: &[usize]) -> (r: (Vec<usize>, usize, usize))
    requires
        layout.wf(),
        reduce_fits(layout.dims@, reduce_dims@),
    ensures
        ({
            let d = layout.dims@;
            let s = layout.stride@;
            let rd = reduce_dims@;
            let n = d.len() as int;
            &&& r.0@ == kept(d, rd, n) + reduced(d, rd, n) + kept(s, rd, n) + reduced(s, rd, n)
            &&& r.1 == at_least_one(prod(kept(d, rd, n)))
            &&& r.2 == at_least_one(prod(reduced(d, rd, n)))
        }),
{
    let n = layout.dims.len();
    let mut nr_dims: Vec<usize> = Vec::new();
    let mut nr_strides: Vec<usize> = Vec::new();
    let mut r_dims: Vec<usize> = Vec::new();
    let mut r_strides: Vec<usize> = Vec::new();
    let mut i: usize = 0;
    while i < n
        invariant
            i <= n,
            n == layout.dims.len(),
            layout.wf(),
            nr_dims@ == kept(layout.dims@, reduce_dims@, i as int),
            r_dims@ == reduced(layout.dims@, reduce_dims@, i as int),
            nr_strides@ == kept(layout.stride@, reduce_dims@, i as int),
            r_strides@ == reduced(layout.stride@, reduce_dims@, i as int),
        decreases n - i,
    {
        let d = layout.dims[i];
        let s = layout.stride[i];
        if contains_index(reduce_dims, i) {
            r_dims.push(d);
            r_strides.push(s);
        } else {
            nr_dims.push(d);
            nr_strides.push(s);
        }
        i = i + 1;
    }
    let out_numel = product_at_least_one(&nr_dims);
    let reduce_size = product_at_least_one(&r_dims);
    let a = concat_usize(&nr_dims, &r_dims);
    let b = concat_usize(&a, &nr_strides);
    let info = concat_usize(&b, &r_strides);
    (info, out_numel, reduce_size)
}

/// When a tensor has elements, the number of outputs of a reduction times the
/// number of elements that each output reduces is its element count.
pub proof fn law_reduce_sizes(dims: Seq<usize>, rd: Seq<usize>)
    requires
        prod(dims) > 0,
    ensures
        at_least_one(prod(kept(dims, rd, dims.len() as int))) * at_least_one(prod(reduced(dims, rd, dims.len() as int)))
            == prod(dims),
{
    law_reduce_split(dims, rd);
    let a = prod(kept(dims, rd, dims.len() as int));
    let b = prod(reduced(dims, rd, dims.len() as int));
    lemma_prod_nonneg(kept(dims, rd, dims.len() as int));
    lemma_prod_nonneg(reduced(dims, rd, dims.len() as int));
    assert(a >= 1 && b >= 1) by (nonlinear_arith)
        requires a >= 0, b >= 0, a * b > 0;
}

/// Reductions over dimensions.
#[derive(Clone, Copy, Debug, PartialEq, Eq, Structural)]
pub enum ReduceOp {
    Sum,
    Min,
    Max,
    ArgMin,
    ArgMax,
}

pub open spec fn spec_reduce_kernel(op: ReduceOp) -> Seq<char> {
    match op {
        ReduceOp::Sum => "fast_sum_f32"@,
        ReduceOp::Min => "fast_min_f32"@,
        ReduceOp::Max => "fast_max_f32"@,
        ReduceOp::ArgMin => "fast_argmin_f32"@,
        ReduceOp::ArgMax => "fast_argmax_f32"@,
    }
}

/// Each reduction runs its own kernel: sums `fast_sum_f32`, minima
/// `fast_min_f32`, maxima `fast_max_f32`, and the index searches
/// `fast_argmin_f32` and `fast_argmax_f32`; no two reductions share one.
pub proof fn law_reduce_kernels(a: ReduceOp, b: ReduceOp)
    ensures
        spec_reduce_kernel(ReduceOp::Sum) == "fast_sum_f32"@,
        spec_reduce_kernel(ReduceOp::Min) == "fast_min_f32"@,
        spec_reduce_kernel(ReduceOp::Max) == "fast_max_f32"@,
        spec_reduce_kernel(ReduceOp::ArgMin) == "fast_argmin_f32"@,
        spec_reduce_kernel(ReduceOp::ArgMax) == "fast_argmax_f32"@,
        a != b ==> spec_reduce_kernel(a) != spec_reduce_kernel(b),
{
    reveal_strlit("fast_sum_f32");
    reveal_strlit("fast_min_f32");
    reveal_strlit("fast_max_f32");
    reveal_strlit("fast_argmin_f32");
    reveal_strlit("fast_argmax_f32");
    let (x, y) = (spec_reduce_kernel(a), spec_reduce_kernel(b));
    if a != b {
        assert(x[5] != y[5] || x[6] != y[6] || x[9] != y[9]);
    }
}

/// Whether the reduction yields indices (as `u32`) rather than values.
pub open spec fn is_arg(op: ReduceOp) -> bool {
    op == ReduceOp::ArgMin || op == ReduceOp::ArgMax
}

/// A reduction kernel run: one block per output.
#[derive(Clone, Debug)]
pub struct ReduceLaunch {
    pub launch: Launch,
    pub info: Vec<usize>,
    pub out_numel: usize,
    pub reduce_size: usize,
    pub num_dims: usize,
    pub input_offset: usize,
    pub out_bytes: usize,
    pub out_dtype: DType,
}

#[derive(Clone, Debug)]
pub enum ReducePlan {
    Host,
    Gpu(ReduceLaunch),
}

/// What an `f32` reduction plan needs.
pub open spec fn reduce_plan_fits(dtype: DType, layout: Layout, rd: Seq<usize>) -> bool {
    &&& layout.wf()
    &&& dtype == DType::F32 ==> {
        &&& reduce_fits(layout.dims@, rd)
        &&& at_least_one(prod(kept(layout.dims@, rd, layout.dims@.len() as int))) * 4 <= usize::MAX
    }
}

/// Plan of a reduction of `f32` data over `reduce_dims`: one block of 256
/// threads per output, with 4 bytes of shared memory per thread for values
/// and 8 for index searches; other types go through host memory.
pub fn reduce_plan(dtype: DType, op: ReduceOp, layout: &Layout, reduce_dims: &[usize]) -> (r: ReducePlan)
    requires
        reduce_plan_fits(dtype, *layout, reduce_dims@),
    ensures
        if dtype != DType::F32 {
            r is Host
        } else {
            let d = layout.dims@;
            let s = layout.stride@;
            let rd = reduce_dims@;
            let n = d.len() as int;
            r matches ReducePlan::Gpu(g) && {
                &&& g.info@ == kept(d, rd, n) + reduced(d, rd, n) + kept(s, rd, n) + reduced(s, rd, n)
                &&& g.out_numel == at_least_one(prod(kept(d, rd, n)))
                &&& g.reduce_size == at_least_one(prod(reduced(d, rd, n)))
                &&& g.num_dims == d.len()
                &&& g.input_offset == layout.start_offset
                &&& g.out_bytes == g.out_numel * 4
                &&& g.out_dtype == (if is_arg(op) { DType::U32 } else { DType::F32 })
                &&& g.launch.module@ == "reduce"@
                &&& g.launch.function@ == spec_reduce_kernel(op)
                &&& g.launch.grid_x == (if (g.out_numel as u32) < 1 { 1 } else { g.out_numel as u32 })
                &&& g.launch.grid_y == 1
                &&& g.launch.block_x == BLOCK
                &&& g.launch.shared_mem == (if is_arg(op) { 2048u32 } else { 1024u32 })
            }
        },
{
    if dtype != DType::F32 {
        return ReducePlan::Host;
    }
    let (info, out_numel, reduce_size) = reduce_info(layout, reduce_dims);
    let block = BLOCK;
    let grid = out_numel as u32;
    let grid_x = if grid < 1 { 1 } else { grid };
    let (name, shared, out_dtype) = match op {
        ReduceOp::Sum => ("fast_sum_f32", 1024u32, DType::F32),
        ReduceOp::Max => ("fast_max_f32", 1024u32, DType::F32),
        ReduceOp::Min => ("fast_min_f32", 1024u32, DType::F32),
        ReduceOp::ArgMax => ("fast_argmax_f32", 2048u32, DType::U32),
        ReduceOp::ArgMin => ("fast_argmin_f32", 2048u32, DType::U32),
    };
    ReducePlan::Gpu(ReduceLaunch {
        launch: Launch { module: "reduce", function: String::from_str(name), grid_x, grid_y: 1, block_x: block, shared_mem: shared },
        info,
        out_numel,
        reduce_size,
        num_dims: layout.rank(),
        input_offset: layout.start_offset,
        out_bytes: out_numel * 4,
        out_dtype,
    })
}

} // verus!
