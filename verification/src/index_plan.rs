//! Launch plans of the indexing operations: gather, index_select, index_add
//! and scatter_add.

use vstd::prelude::*;
use crate::dtype::DType;
use crate::error::Error;
use crate::layout::{Layout, prod};
use crate::reduce::{prefix_products_fit, at_least_one};
use crate::plan::{Launch, launchable, ClonePlan, clone_fits, clone_plan, spec_clone_plan, BLOCK, spec_grid, launch_cfg};

verus! {

/// Product of the entries `lo..hi` of `v`.
fn product_of(v: &Vec<usize>, lo: usize, hi: usize) -> (r: usize)
    requires
        lo <= hi <= v@.len(),
        prefix_products_fit(v@.subrange(lo as int, hi as int)),
    ensures
        r == prod(v@.subrange(lo as int, hi as int)),
{
    let ghost s = v@.subrange(lo as int, hi as int);
    let mut acc: usize = 1;
    let mut i: usize = lo;
    assert(s.take(0) =~= Seq::<usize>::empty());
    while i < hi
        invariant
            lo <= i <= hi,
            hi <= v@.len(),
            s == v@.subrange(lo as int, hi as int),
            prefix_products_fit(s),
            acc == prod(s.take(i - lo)),
        decreases hi - i,
    {
        proof {
            assert(s.take(i - lo + 1).drop_last() =~= s.take(i - lo));
            assert(s.take(i - lo + 1).last() == v@[i as int]);
            assert(prod(s.take(i - lo + 1)) <= usize::MAX);
        }
        acc = acc * v[i];
        i = i + 1;
    }
    assert(s.take(hi - lo) =~= s);
    acc
}

/// The text of an element type as its variant name, such as `U32`.
pub open spec fn spec_dtype_name(d: DType) -> Seq<char> {
    match d {
        DType::U8 => "U8"@,
        DType::U32 => "U32"@,
        DType::I64 => "I64"@,
        DType::BF16 => "BF16"@,
        DType::F16 => "F16"@,
        DType::F32 => "F32"@,
        DType::F64 => "F64"@,
    }
}

pub fn dtype_name(d: DType) -> (r: &'static str)
    ensures
        r@ == spec_dtype_name(d),
{
    match d {
        DType::U8 => "U8",
        DType::U32 => "U32",
        DType::I64 => "I64",
        DType::BF16 => "BF16",
        DType::F16 => "F16",
        DType::F32 => "F32",
        DType::F64 => "F64",
    }
}

/// The kernel for index type `ids`: one name for `u32` indices, another for
/// `i64` indices, and the error `<op>: unsupported index type <type>` for any
/// other type.
pub open spec fn spec_index_kernel(ids: DType, op: Seq<char>, for_u32: Seq<char>, for_i64: Seq<char>) -> Result<Seq<char>, Seq<char>> {
    if ids == DType::U32 {
        Ok(for_u32)
    } else if ids == DType::I64 {
        Ok(for_i64)
    } else {
        Err(op + ": unsupported index type "@ + spec_dtype_name(ids))
    }
}

fn index_kernel(ids: DType, op: &str, for_u32: &'static str, for_i64: &'static str) -> (r: Result<&'static str, Error>)
    ensures
        match spec_index_kernel(ids, op@, for_u32@, for_i64@) {
            Ok(n) => r matches Ok(k) && k@ == n,
            Err(m) => r matches Err(e) && e.text() == m,
        },
{
    if ids == DType::U32 {
        Ok(for_u32)
    } else if ids == DType::I64 {
        Ok(for_i64)
    } else {
        let s = String::from_str(op).concat(": unsupported index type ").concat(dtype_name(ids));
        Err(Error::Msg(s))
    }
}

/// An indexing kernel run over `numel` elements, with the sizes of the parts
/// of the shape before the indexed dimension (`left_size`), of two dimension
/// extents (`dim_a`, `dim_b`, whose meaning each plan states) and of the part
/// after it (`right_size`).
#[derive(Clone, Debug)]
pub struct IndexLaunch {
    pub launch: Launch,
    pub numel: usize,
    pub left_size: usize,
    pub dim_a: usize,
    pub dim_b: usize,
    pub right_size: usize,
    /// Byte offset of the indices within their buffer.
    pub ids_byte_offset: usize,
    /// Element offset of the data input within its buffer.
    pub data_offset: usize,
}

pub open spec fn launch_matches(l: Launch, name: Seq<char>, numel: usize) -> bool {
    &&& l.module@ == "indexing"@
    &&& l.function@ == name
    &&& l.grid_x == spec_grid(numel)
    &&& l.grid_y == 1
    &&& l.block_x == BLOCK
    &&& l.shared_mem == 0
}

fn indexing_launch(name: &'static str, numel: usize) -> (r: Launch)
    requires
        launchable(numel),
    ensures
        launch_matches(r, name@, numel),
{
    let (grid, block) = launch_cfg(numel);
    Launch { module: "indexing", function: String::from_str(name), grid_x: grid, grid_y: 1, block_x: block, shared_mem: 0 }
}

/// How a gather or index_select runs: through host memory, or by allocating
/// `out_bytes` and then (if the index type has a kernel) the kernel.
#[derive(Debug)]
pub enum SelectPlan {
    Host,
    Gpu { out_bytes: usize, out_dtype: DType, kernel: Result<IndexLaunch, Error> },
}

pub open spec fn kernel_result_matches(
    k: Result<IndexLaunch, Error>,
    expected: Result<Seq<char>, Seq<char>>,
    numel: int,
    left: int,
    dim_a: int,
    dim_b: int,
    right: int,
    ids_byte_offset: int,
    data_offset: int,
) -> bool {
    match expected {
        Err(m) => k matches Err(e) && e.text() == m,
        Ok(name) => k matches Ok(g) && {
            &&& launch_matches(g.launch, name, g.numel)
            &&& g.numel == numel
            &&& g.left_size == left
            &&& g.dim_a == dim_a
            &&& g.dim_b == dim_b
            &&& g.right_size == right
            &&& g.ids_byte_offset == ids_byte_offset
            &&& g.data_offset == data_offset
        },
    }
}

/// What the sizes of an indexing plan along `dim` of `dims` need.
pub open spec fn sizes_fit(dims: Seq<usize>, dim: int) -> bool {
    &&& 0 <= dim < dims.len()
    &&& prefix_products_fit(dims.subrange(0, dim))
    &&& prefix_products_fit(dims.subrange(dim + 1, dims.len() as int))
}

/// What a gather needs.
pub open spec fn gather_fits(dtype: DType, layout: Layout, ids_dtype: DType, ids_l: Layout, dim: usize) -> bool {
    &&& layout.wf()
    &&& ids_l.wf()
    &&& dtype == DType::F32 && layout.spec_contiguous() && ids_l.spec_contiguous() ==> {
        &&& sizes_fit(layout.dims@, dim as int)
        &&& dim < ids_l.dims@.len()
        &&& launchable(ids_l.spec_elem_count() as usize)
        &&& ids_l.spec_elem_count() * 4 <= usize::MAX
        &&& ids_l.start_offset * ids_dtype.spec_size() <= usize::MAX
    }
}

/// Plan of gathering along `dim` with indices laid out like the output:
/// `dim_a` is the source extent of `dim` and `dim_b` the index extent.
pub fn gather_plan(dtype: DType, layout: &Layout, ids_dtype: DType, ids_l: &Layout, dim: usize) -> (r: SelectPlan)
    requires
        gather_fits(dtype, *layout, ids_dtype, *ids_l, dim),
    ensures
        if dtype != DType::F32 || !layout.spec_contiguous() || !ids_l.spec_contiguous() {
            r is Host
        } else {
            let d = layout.dims@;
            r matches SelectPlan::Gpu { out_bytes, out_dtype, kernel } && {
                &&& out_dtype == DType::F32
                &&& out_bytes == ids_l.spec_elem_count() * 4
                &&& kernel_result_matches(
                    kernel,
                    spec_index_kernel(ids_dtype, "gather"@, "gather_u32_f32"@, "gather_i64_f32"@),
                    ids_l.spec_elem_count(),
                    prod(d.subrange(0, dim as int)),
                    d[dim as int] as int,
                    ids_l.dims@[dim as int] as int,
                    at_least_one(prod(d.subrange(dim + 1, d.len() as int))),
                    ids_l.start_offset * ids_dtype.spec_size(),
                    layout.start_offset as int,
                )
            }
        },
{
    if dtype != DType::F32 || !layout.is_contiguous() || !ids_l.is_contiguous() {
        return SelectPlan::Host;
    }
    let n = layout.dims.len();
    let left_size = product_of(&layout.dims, 0, dim);
    let src_dim_size = layout.dims[dim];
    let ids_dim_size = ids_l.dims[dim];
    let r = product_of(&layout.dims, dim + 1, n);
    let right_size = if r < 1 { 1 } else { r };
    let numel = ids_l.elem_count();
    let out_bytes = numel * 4;
    let kernel = match index_kernel(ids_dtype, "gather", "gather_u32_f32", "gather_i64_f32") {
        Err(e) => Err(e),
        Ok(name) => Ok(IndexLaunch {
            launch: indexing_launch(name, numel),
            numel,
            left_size,
            dim_a: src_dim_size,
            dim_b: ids_dim_size,
            right_size,
            ids_byte_offset: ids_l.start_offset * ids_dtype.size_in_bytes(),
            data_offset: layout.start_offset,
        }),
    };
    SelectPlan::Gpu { out_bytes, out_dtype: DType::F32, kernel }
}

/// What an index_select needs.
pub open spec fn index_select_fits(dtype: DType, ids_dtype: DType, layout: Layout, ids_l: Layout, dim: usize) -> bool {
    &&& layout.wf()
    &&& ids_l.wf()
    &&& dtype == DType::F32 && layout.spec_contiguous() && ids_l.spec_contiguous() ==> {
        let d = layout.dims@;
        let numel = prod(d.subrange(0, dim as int)) * ids_l.dims@[0] * at_least_one(prod(d.subrange(dim + 1, d.len() as int)));
        &&& sizes_fit(d, dim as int)
        &&& ids_l.dims@.len() > 0
        &&& prod(d.subrange(0, dim as int)) * ids_l.dims@[0] <= usize::MAX
        &&& numel <= usize::MAX
        &&& numel * 4 <= usize::MAX
        &&& launchable(numel as usize)
        &&& ids_l.start_offset * ids_dtype.spec_size() <= usize::MAX
    }
}

/// Plan of selecting, along `dim`, the slices that a one-dimensional index
/// tensor names: `dim_a` is the source extent of `dim` and `dim_b` the
/// number of indices.
pub fn index_select_plan(dtype: DType, ids_dtype: DType, layout: &Layout, ids_l: &Layout, dim: usize) -> (r: SelectPlan)
    requires
        index_select_fits(dtype, ids_dtype, *layout, *ids_l, dim),
    ensures
        if dtype != DType::F32 || !layout.spec_contiguous() || !ids_l.spec_contiguous() {
            r is Host
        } else {
            let d = layout.dims@;
            let left = prod(d.subrange(0, dim as int));
            let right = at_least_one(prod(d.subrange(dim + 1, d.len() as int)));
            let numel = left * ids_l.dims@[0] * right;
            r matches SelectPlan::Gpu { out_bytes, out_dtype, kernel } && {
                &&& out_dtype == DType::F32
                &&& out_bytes == numel * 4
                &&& kernel_result_matches(
                    kernel,
                    spec_index_kernel(ids_dtype, "index_select"@, "index_select_u32_f32"@, "index_select_i64_f32"@),
                    numel,
                    left,
                    d[dim as int] as int,
                    ids_l.dims@[0] as int,
                    right,
                    ids_l.start_offset * ids_dtype.spec_size(),
                    layout.start_offset as int,
                )
            }
        },
{
    if dtype != DType::F32 || !layout.is_contiguous() || !ids_l.is_contiguous() {
        return SelectPlan::Host;
    }
    let n = layout.dims.len();
    let left_size = product_of(&layout.dims, 0, dim);
    let src_dim_size = layout.dims[dim];
    let ids_dim_size = ids_l.dims[0];
    let r = product_of(&layout.dims, dim + 1, n);
    let right_size = if r < 1 { 1 } else { r };
    let numel = left_size * ids_dim_size * right_size;
    let out_bytes = numel * 4;
    let kernel = match index_kernel(ids_dtype, "index_select", "index_select_u32_f32", "index_select_i64_f32") {
        Err(e) => Err(e),
        Ok(name) => Ok(IndexLaunch {
            launch: indexing_launch(name, numel),
            numel,
            left_size,
            dim_a: src_dim_size,
            dim_b: ids_dim_size,
            right_size,
            ids_byte_offset: ids_l.start_offset * ids_dtype.size_in_bytes(),
            data_offset: layout.start_offset,
        }),
    };
    SelectPlan::Gpu { out_bytes, out_dtype: DType::F32, kernel }
}

/// How an index_add or scatter_add runs: through host memory, or by copying
/// the destination view into a fresh buffer and then (if the index type has
/// a kernel) accumulating into it.
#[derive(Debug)]
pub enum AccumulatePlan {
    Host,
    Gpu { dst: ClonePlan, kernel: Result<IndexLaunch, Error> },
}

/// What index_add and scatter_add need.
pub open spec fn accumulate_fits(dtype: DType, layout: Layout, ids_dtype: DType, ids_l: Layout, src_l: Layout, dim: usize, one_dim_ids: bool) -> bool {
    &&& layout.wf()
    &&& ids_l.wf()
    &&& src_l.wf()
    &&& dtype == DType::F32 && layout.spec_contiguous() && ids_l.spec_contiguous() && src_l.spec_contiguous() ==> {
        &&& clone_fits(DType::F32, layout)
        &&& sizes_fit(src_l.dims@, dim as int)
        &&& dim < layout.dims@.len()
        &&& one_dim_ids ==> ids_l.dims@.len() > 0
        &&& launchable(src_l.spec_elem_count() as usize)
        &&& ids_l.start_offset * ids_dtype.spec_size() <= usize::MAX
    }
}

/// Plan of adding the rows of a source into the destination rows that a
/// one-dimensional index tensor names, along `dim`: `dim_a` is the number of
/// indices and `dim_b` the destination extent of `dim`.
pub fn index_add_plan(dtype: DType, layout: &Layout, ids_dtype: DType, ids_l: &Layout, src_l: &Layout, dim: usize) -> (r: AccumulatePlan)
    requires
        accumulate_fits(dtype, *layout, ids_dtype, *ids_l, *src_l, dim, true),
    ensures
        if dtype != DType::F32 || !layout.spec_contiguous() || !ids_l.spec_contiguous() || !src_l.spec_contiguous() {
            r is Host
        } else {
            let s = src_l.dims@;
            r matches AccumulatePlan::Gpu { dst, kernel } && {
                &&& spec_clone_plan(DType::F32, *layout, dst)
                &&& kernel_result_matches(
                    kernel,
                    spec_index_kernel(ids_dtype, "index_add"@, "index_add_u32_f32"@, "index_add_i64_f32"@),
                    src_l.spec_elem_count(),
                    prod(s.subrange(0, dim as int)),
                    ids_l.dims@[0] as int,
                    layout.dims@[dim as int] as int,
                    at_least_one(prod(s.subrange(dim + 1, s.len() as int))),
                    ids_l.start_offset * ids_dtype.spec_size(),
                    src_l.start_offset as int,
                )
            }
        },
{
    if dtype != DType::F32 || !layout.is_contiguous() || !ids_l.is_contiguous() || !src_l.is_contiguous() {
        return AccumulatePlan::Host;
    }
    let dst = clone_plan(dtype, layout);
    let n = src_l.dims.len();
    let left_size = product_of(&src_l.dims, 0, dim);
    let ids_dim_size = ids_l.dims[0];
    let dst_dim_size = layout.dims[dim];
    let r = product_of(&src_l.dims, dim + 1, n);
    let right_size = if r < 1 { 1 } else { r };
    let numel = src_l.elem_count();
    let kernel = match index_kernel(ids_dtype, "index_add", "index_add_u32_f32", "index_add_i64_f32") {
        Err(e) => Err(e),
        Ok(name) => Ok(IndexLaunch {
            launch: indexing_launch(name, numel),
            numel,
            left_size,
            dim_a: ids_dim_size,
            dim_b: dst_dim_size,
            right_size,
            ids_byte_offset: ids_l.start_offset * ids_dtype.size_in_bytes(),
            data_offset: src_l.start_offset,
        }),
    };
    AccumulatePlan::Gpu { dst, kernel }
}

/// Plan of adding each source element into the destination position that the
/// index of the same position names along `dim`: `dim_a` is the source extent
/// of `dim` and `dim_b` the destination extent.
pub fn scatter_add_plan(dtype: DType, layout: &Layout, ids_dtype: DType, ids_l: &Layout, src_l: &Layout, dim: usize) -> (r: AccumulatePlan)
    requires
        accumulate_fits(dtype, *layout, ids_dtype, *ids_l, *src_l, dim, false),
    ensures
        if dtype != DType::F32 || !layout.spec_contiguous() || !ids_l.spec_contiguous() || !src_l.spec_contiguous() {
            r is Host
        } else {
            let s = src_l.dims@;
            r matches AccumulatePlan::Gpu { dst, kernel } && {
                &&& spec_clone_plan(DType::F32, *layout, dst)
                &&& kernel_result_matches(
                    kernel,
                    spec_index_kernel(ids_dtype, "scatter_add"@, "scatter_add_u32_f32"@, "scatter_add_i64_f32"@),
                    src_l.spec_elem_count(),
                    prod(s.subrange(0, dim as int)),
                    s[dim as int] as int,
                    layout.dims@[dim as int] as int,
                    at_least_one(prod(s.subrange(dim + 1, s.len() as int))),
                    ids_l.start_offset * ids_dtype.spec_size(),
                    src_l.start_offset as int,
                )
            }
        },
{
    if dtype != DType::F32 || !layout.is_contiguous() || !ids_l.is_contiguous() || !src_l.is_contiguous() {
        return AccumulatePlan::Host;
    }
    let dst = clone_plan(dtype, layout);
    let n = src_l.dims.len();
    let left_size = product_of(&src_l.dims, 0, dim);
    let src_dim_size = src_l.dims[dim];
    let dst_dim_size = layout.dims[dim];
    let r = product_of(&src_l.dims, dim + 1, n);
    let right_size = if r < 1 { 1 } else { r };
    let numel = src_l.elem_count();
    let kernel = match index_kernel(ids_dtype, "scatter_add", "scatter_add_u32_f32", "scatter_add_i64_f32") {
        Err(e) => Err(e),
        Ok(name) => Ok(IndexLaunch {
            launch: indexing_launch(name, numel),
            numel,
            left_size,
            dim_a: src_dim_size,
            dim_b: dst_dim_size,
            right_size,
            ids_byte_offset: ids_l.start_offset * ids_dtype.size_in_bytes(),
            data_offset: src_l.start_offset,
        }),
    };
    AccumulatePlan::Gpu { dst, kernel }
}

} // verus!
