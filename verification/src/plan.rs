//! Launch plans of the element-wise, comparison, selection, cast and copy
//! operations of the GPU tensor backend.
//!
//! Each plan function decides, from element types and layouts, whether an
//! operation runs as a kernel (and with which kernel, geometry, sizes and
//! layout data) or goes through host memory.

use vstd::prelude::*;
use crate::dtype::{DType, spec_dtype_suffix};
use crate::layout::{Layout, concat_usize};

verus! {

/// Threads per block of the element-wise kernels.
pub const BLOCK: u32 = 256;

/// Whether `numel` elements can be launched: the 32-bit count that the grid
/// is computed from does not overflow when rounded up to whole blocks.
pub open spec fn launchable(numel: usize) -> bool {
    (numel as u32) + 255 <= u32::MAX
}

/// Blocks of 256 threads that cover `numel` elements (computed on the 32-bit
/// count), at least one.
pub open spec fn spec_grid(numel: usize) -> u32 {
    let g = ((numel as u32) + 255) / 256;
    if g < 1 { 1 } else { g as u32 }
}

/// Grid and block size for `numel` elements.
pub fn launch_cfg(numel: usize) -> (r: (u32, u32))
    requires
        launchable(numel),
    ensures
        r.0 == spec_grid(numel),
        r.1 == BLOCK,
{
    let n: u32 = numel as u32;
    let g: u32 = (n + 255) / 256;
    let grid: u32 = if g < 1 { 1 } else { g };
    (grid, BLOCK)
}

/// The blocks of a launch cover every element: `numel` elements (below 2^32)
/// need at most `grid * 256` threads, and a launch has at least one block.
pub proof fn law_launch_covers(numel: usize)
    requires
        launchable(numel),
        numel <= u32::MAX,
    ensures
        spec_grid(numel) as int * BLOCK as int >= numel,
        spec_grid(numel) >= 1,
        numel > 0 ==> (spec_grid(numel) as int - 1) * (BLOCK as int) < numel,
{
    assert((numel as u32) as int == numel as int) by (bit_vector)
        requires numel <= 0xffff_ffffusize;
}

/// A kernel to launch: the kernel file it lives in, its name, and the geometry.
#[derive(Clone, Debug)]
pub struct Launch {
    pub module: &'static str,
    pub function: String,
    pub grid_x: u32,
    pub grid_y: u32,
    pub block_x: u32,
    pub shared_mem: u32,
}

impl Launch {
    /// The one-dimensional launch over `numel` elements.
    pub open spec fn is_linear(&self, module: Seq<char>, function: Seq<char>, numel: usize) -> bool {
        &&& self.module@ == module
        &&& self.function@ == function
        &&& self.grid_x == spec_grid(numel)
        &&& self.grid_y == 1
        &&& self.block_x == BLOCK
        &&& self.shared_mem == 0
    }
}

fn linear_launch(module: &'static str, function: String, numel: usize) -> (r: Launch)
    requires
        launchable(numel),
    ensures
        r.is_linear(module@, function@, numel),
{
    let (grid, block) = launch_cfg(numel);
    Launch { module, function, grid_x: grid, grid_y: 1, block_x: block, shared_mem: 0 }
}

pub open spec fn opt_seq(o: Option<Vec<usize>>) -> Option<Seq<usize>> {
    match o {
        Some(v) => Some(v@),
        None => None,
    }
}

/// Layout data an element-wise kernel needs: none for a contiguous input,
/// the dimensions followed by the strides otherwise.
pub open spec fn spec_upload_info(l: Layout) -> Option<Seq<usize>> {
    if l.spec_contiguous() {
        None
    } else {
        Some(l.dims@ + l.stride@)
    }
}

pub fn upload_info(layout: &Layout) -> (r: Option<Vec<usize>>)
    requires
        layout.wf(),
    ensures
        opt_seq(r) == spec_upload_info(*layout),
{
    if layout.is_contiguous() {
        None
    } else {
        Some(concat_usize(&layout.dims, &layout.stride))
    }
}

/// Layout data a two-input kernel needs: none when both inputs are
/// contiguous, otherwise the dimensions, the left strides and the right strides.
pub open spec fn spec_binary_info(lhs: Layout, rhs: Layout) -> Option<Seq<usize>> {
    if lhs.spec_contiguous() && rhs.spec_contiguous() {
        None
    } else {
        Some(lhs.dims@ + lhs.stride@ + rhs.stride@)
    }
}

pub fn upload_binary_info(lhs_l: &Layout, rhs_l: &Layout) -> (r: Option<Vec<usize>>)
    requires
        lhs_l.wf(),
        rhs_l.wf(),
    ensures
        opt_seq(r) == spec_binary_info(*lhs_l, *rhs_l),
{
    if lhs_l.is_contiguous() && rhs_l.is_contiguous() {
        None
    } else {
        let a = concat_usize(&lhs_l.dims, &lhs_l.stride);
        Some(concat_usize(&a, &rhs_l.stride))
    }
}

/// The kernel name for base name `base` on `f32` data: `base` followed by `_f32`.
pub fn f32_kernel_name(base: &str) -> (r: String)
    ensures
        r@ == base@ + "_f32"@,
{
    String::from_str(base).concat("_f32")
}

/// A one-input element-wise kernel run.
#[derive(Clone, Debug)]
pub struct MapLaunch {
    pub launch: Launch,
    pub numel: usize,
    pub num_dims: usize,
    pub info: Option<Vec<usize>>,
    /// Element offset of the input within its buffer.
    pub input_offset: usize,
    pub out_bytes: usize,
    pub out_dtype: DType,
}

/// How a one-input element-wise operation runs.
#[derive(Clone, Debug)]
pub enum MapPlan {
    /// Through host memory.
    Host,
    Gpu(MapLaunch),
}

/// What an `f32` element-wise plan over `layout` needs.
pub open spec fn map_fits(dtype: DType, layout: Layout) -> bool {
    &&& layout.wf()
    &&& dtype == DType::F32 ==> launchable(layout.spec_elem_count() as usize)
    &&& dtype == DType::F32 ==> layout.spec_elem_count() * 4 <= usize::MAX
}

/// The plan of a one-input element-wise `f32` kernel `module`/`function` over `layout`.
pub open spec fn spec_map_plan(dtype: DType, layout: Layout, module: Seq<char>, function: Seq<char>, p: MapPlan) -> bool {
    if dtype != DType::F32 {
        p is Host
    } else {
        p matches MapPlan::Gpu(g) && {
            &&& g.launch.is_linear(module, function, g.numel)
            &&& g.numel == layout.spec_elem_count()
            &&& g.num_dims == layout.dims@.len()
            &&& opt_seq(g.info) == spec_upload_info(layout)
            &&& g.input_offset == layout.start_offset
            &&& g.out_bytes == g.numel * 4
            &&& g.out_dtype == DType::F32
        }
    }
}

fn map_plan(dtype: DType, layout: &Layout, module: &'static str, function: &str) -> (r: MapPlan)
    requires
        map_fits(dtype, *layout),
    ensures
        spec_map_plan(dtype, *layout, module@, function@ + "_f32"@, r),
{
    if dtype != DType::F32 {
        return MapPlan::Host;
    }
    let numel = layout.elem_count();
    let info = upload_info(layout);
    let launch = linear_launch(module, f32_kernel_name(function), numel);
    MapPlan::Gpu(MapLaunch {
        launch,
        numel,
        num_dims: layout.rank(),
        info,
        input_offset: layout.start_offset,
        out_bytes: numel * 4,
        out_dtype: DType::F32,
    })
}

/// Plan of `x * mul + add`: the `affine_f32` kernel for `f32` data.
pub fn affine_plan(dtype: DType, layout: &Layout) -> (r: MapPlan)
    requires
        map_fits(dtype, *layout),
    ensures
        spec_map_plan(dtype, *layout, "affine"@, "affine_f32"@, r),
{
    proof {
        reveal_strlit("affine");
        reveal_strlit("_f32");
        reveal_strlit("affine_f32");
        assert("affine"@ + "_f32"@ =~= "affine_f32"@);
    }
    map_plan(dtype, layout, "affine", "affine")
}

/// Plan of `x.powf(e)`: the `upowf_f32` kernel for `f32` data.
pub fn powf_plan(dtype: DType, layout: &Layout) -> (r: MapPlan)
    requires
        map_fits(dtype, *layout),
    ensures
        spec_map_plan(dtype, *layout, "unary"@, "upowf_f32"@, r),
{
    proof {
        reveal_strlit("upowf");
        reveal_strlit("_f32");
        reveal_strlit("upowf_f32");
        assert("upowf"@ + "_f32"@ =~= "upowf_f32"@);
    }
    map_plan(dtype, layout, "unary", "upowf")
}

/// Plan of `elu(x, alpha)`: the `uelu_f32` kernel for `f32` data.
pub fn elu_plan(dtype: DType, layout: &Layout) -> (r: MapPlan)
    requires
        map_fits(dtype, *layout),
    ensures
        spec_map_plan(dtype, *layout, "unary"@, "uelu_f32"@, r),
{
    proof {
        reveal_strlit("uelu");
        reveal_strlit("_f32");
        reveal_strlit("uelu_f32");
        assert("uelu"@ + "_f32"@ =~= "uelu_f32"@);
    }
    map_plan(dtype, layout, "unary", "uelu")
}

/// Plan of a unary operation whose kernel base name is `kernel` (such as
/// `uexp`): the kernel `kernel` + `_f32` for `f32` data.
pub fn unary_plan(dtype: DType, layout: &Layout, kernel: &str) -> (r: MapPlan)
    requires
        map_fits(dtype, *layout),
    ensures
        spec_map_plan(dtype, *layout, "unary"@, kernel@ + "_f32"@, r),
{
    map_plan(dtype, layout, "unary", kernel)
}

/// A two-input element-wise kernel run.
#[derive(Clone, Debug)]
pub struct ZipLaunch {
    pub launch: Launch,
    pub numel: usize,
    pub num_dims: usize,
    pub info: Option<Vec<usize>>,
    pub lhs_offset: usize,
    pub rhs_offset: usize,
    pub out_bytes: usize,
    pub out_dtype: DType,
}

/// How a two-input element-wise operation runs.
#[derive(Clone, Debug)]
pub enum ZipPlan {
    Host,
    Gpu(ZipLaunch),
}

/// What an `f32` two-input plan needs.
pub open spec fn zip_fits(dtype: DType, lhs: Layout, rhs: Layout) -> bool {
    &&& lhs.wf()
    &&& rhs.wf()
    &&& dtype == DType::F32 ==> launchable(lhs.spec_elem_count() as usize)
    &&& dtype == DType::F32 ==> lhs.spec_elem_count() * 4 <= usize::MAX
}

/// The plan of a two-input `f32` kernel whose output elements take `out_size`
/// bytes and have type `out_dtype`.
pub open spec fn spec_zip_plan(
    dtype: DType,
    lhs: Layout,
    rhs: Layout,
    module: Seq<char>,
    function: Seq<char>,
    out_size: int,
    out_dtype: DType,
    p: ZipPlan,
) -> bool {
    if dtype != DType::F32 {
        p is Host
    } else {
        p matches ZipPlan::Gpu(g) && {
            &&& g.launch.is_linear(module, function, g.numel)
            &&& g.numel == lhs.spec_elem_count()
            &&& g.num_dims == lhs.dims@.len()
            &&& opt_seq(g.info) == spec_binary_info(lhs, rhs)
            &&& g.lhs_offset == lhs.start_offset
            &&& g.rhs_offset == rhs.start_offset
            &&& g.out_bytes == g.numel * out_size
            &&& g.out_dtype == out_dtype
        }
    }
}

fn zip_plan(dtype: DType, lhs_l: &Layout, rhs_l: &Layout, module: &'static str, function: String, out_size: usize, out_dtype: DType) -> (r: ZipPlan)
    requires
        zip_fits(dtype, *lhs_l, *rhs_l),
        out_size == 1 || out_size == 4,
    ensures
        spec_zip_plan(dtype, *lhs_l, *rhs_l, module@, function@, out_size as int, out_dtype, r),
{
    if dtype != DType::F32 {
        return ZipPlan::Host;
    }
    let numel = lhs_l.elem_count();
    let info = upload_binary_info(lhs_l, rhs_l);
    let launch = linear_launch(module, function, numel);
    ZipPlan::Gpu(ZipLaunch {
        launch,
        numel,
        num_dims: lhs_l.rank(),
        info,
        lhs_offset: lhs_l.start_offset,
        rhs_offset: rhs_l.start_offset,
        out_bytes: numel * out_size,
        out_dtype,
    })
}

/// Plan of a binary operation whose kernel base name is `kernel` (such as
/// `badd`): the kernel `kernel` + `_f32` for `f32` data, with `f32` output.
pub fn binary_plan(dtype: DType, lhs_l: &Layout, rhs_l: &Layout, kernel: &str) -> (r: ZipPlan)
    requires
        zip_fits(dtype, *lhs_l, *rhs_l),
    ensures
        spec_zip_plan(dtype, *lhs_l, *rhs_l, "binary"@, kernel@ + "_f32"@, 4, DType::F32, r),
{
    zip_plan(dtype, lhs_l, rhs_l, "binary", f32_kernel_name(kernel), 4, DType::F32)
}

/// Element-wise comparisons.
#[derive(Clone, Copy, Debug, PartialEq, Eq, Structural)]
pub enum CmpOp {
    Eq,
    Ne,
    Lt,
    Le,
    Gt,
    Ge,
}

pub open spec fn spec_cmp_kernel(op: CmpOp) -> Seq<char> {
    match op {
        CmpOp::Eq => "eq_f32"@,
        CmpOp::Ne => "ne_f32"@,
        CmpOp::Lt => "lt_f32"@,
        CmpOp::Le => "le_f32"@,
        CmpOp::Gt => "gt_f32"@,
        CmpOp::Ge => "ge_f32"@,
    }
}

/// Each comparison runs the kernel of its own relation: `eq`, `ne`, `lt`,
/// `le`, `gt` and `ge` on `f32` values; no two comparisons share a kernel.
pub proof fn law_cmp_kernels(a: CmpOp, b: CmpOp)
    ensures
        spec_cmp_kernel(CmpOp::Eq) == "eq_f32"@,
        spec_cmp_kernel(CmpOp::Ne) == "ne_f32"@,
        spec_cmp_kernel(CmpOp::Lt) == "lt_f32"@,
        spec_cmp_kernel(CmpOp::Le) == "le_f32"@,
        spec_cmp_kernel(CmpOp::Gt) == "gt_f32"@,
        spec_cmp_kernel(CmpOp::Ge) == "ge_f32"@,
        a != b ==> spec_cmp_kernel(a) != spec_cmp_kernel(b),
{
    reveal_strlit("eq_f32");
    reveal_strlit("ne_f32");
    reveal_strlit("lt_f32");
    reveal_strlit("le_f32");
    reveal_strlit("gt_f32");
    reveal_strlit("ge_f32");
    let (x, y) = (spec_cmp_kernel(a), spec_cmp_kernel(b));
    if a != b {
        assert(x[0] != y[0] || x[1] != y[1]);
    }
}

/// Name of the `f32` comparison kernel.
pub fn cmp_kernel(op: CmpOp) -> (r: &'static str)
    ensures
        r@ == spec_cmp_kernel(op),
{
    match op {
        CmpOp::Eq => "eq_f32",
        CmpOp::Ne => "ne_f32",
        CmpOp::Lt => "lt_f32",
        CmpOp::Le => "le_f32",
        CmpOp::Gt => "gt_f32",
        CmpOp::Ge => "ge_f32",
    }
}

/// Plan of a comparison: for `f32` data the comparison kernel, writing one
/// `u8` per element.
pub fn cmp_plan(dtype: DType, op: CmpOp, lhs_l: &Layout, rhs_l: &Layout) -> (r: ZipPlan)
    requires
        zip_fits(dtype, *lhs_l, *rhs_l),
    ensures
        spec_zip_plan(dtype, *lhs_l, *rhs_l, "binary"@, spec_cmp_kernel(op), 1, DType::U8, r),
{
    zip_plan(dtype, lhs_l, rhs_l, "binary", String::from_str(cmp_kernel(op)), 1, DType::U8)
}

/// A `where_cond` kernel run: all three inputs are contiguous.
#[derive(Clone, Debug)]
pub struct WhereLaunch {
    pub launch: Launch,
    pub numel: usize,
    pub cond_offset: usize,
    pub t_offset: usize,
    pub f_offset: usize,
    pub out_bytes: usize,
    pub out_dtype: DType,
}

#[derive(Clone, Debug)]
pub enum WherePlan {
    Host,
    Gpu(WhereLaunch),
}

/// Plan of `where_cond`: the kernel when the chosen values are `f32` and the
/// condition and both value inputs are contiguous; host memory otherwise.
pub fn where_cond_plan(t_dtype: DType, layout: &Layout, t_l: &Layout, f_l: &Layout) -> (r: WherePlan)
    requires
        layout.wf(),
        t_l.wf(),
        f_l.wf(),
        t_dtype == DType::F32 && layout.spec_contiguous() && t_l.spec_contiguous() && f_l.spec_contiguous() ==> {
            &&& launchable(layout.spec_elem_count() as usize)
            &&& layout.spec_elem_count() * 4 <= usize::MAX
        },
    ensures
        if t_dtype != DType::F32 || !layout.spec_contiguous() || !t_l.spec_contiguous() || !f_l.spec_contiguous() {
            r is Host
        } else {
            r matches WherePlan::Gpu(g) && {
                &&& g.launch.is_linear("ternary"@, "where_cond_f32"@, g.numel)
                &&& g.numel == layout.spec_elem_count()
                &&& g.cond_offset == layout.start_offset
                &&& g.t_offset == t_l.start_offset
                &&& g.f_offset == f_l.start_offset
                &&& g.out_bytes == g.numel * 4
                &&& g.out_dtype == DType::F32
            }
        },
{
    if t_dtype != DType::F32 || !layout.is_contiguous() || !t_l.is_contiguous() || !f_l.is_contiguous() {
        return WherePlan::Host;
    }
    let numel = layout.elem_count();
    let launch = linear_launch("ternary", String::from_str("where_cond_f32"), numel);
    WherePlan::Gpu(WhereLaunch {
        launch,
        numel,
        cond_offset: layout.start_offset,
        t_offset: t_l.start_offset,
        f_offset: f_l.start_offset,
        out_bytes: numel * 4,
        out_dtype: DType::F32,
    })
}

/// A strided copy kernel run (`copy_strided_f32`).
#[derive(Clone, Debug)]
pub struct StridedLaunch {
    pub launch: Launch,
    pub numel: usize,
    pub num_dims: usize,
    pub info: Vec<usize>,
    pub src_offset: usize,
    pub dst_offset: usize,
}

/// The strided copy of `layout` into a destination at element `dst_offset`.
pub open spec fn spec_strided(layout: Layout, dst_offset: usize, s: StridedLaunch) -> bool {
    &&& s.launch.is_linear("fill"@, "copy_strided_f32"@, s.numel)
    &&& s.numel == layout.spec_elem_count()
    &&& s.num_dims == layout.dims@.len()
    &&& s.info@ == layout.dims@ + layout.stride@
    &&& s.src_offset == layout.start_offset
    &&& s.dst_offset == dst_offset
}

fn strided_launch(layout: &Layout, dst_offset: usize) -> (r: StridedLaunch)
    requires
        layout.wf(),
        launchable(layout.spec_elem_count() as usize),
    ensures
        spec_strided(*layout, dst_offset, r),
{
    let numel = layout.elem_count();
    StridedLaunch {
        launch: linear_launch("fill", String::from_str("copy_strided_f32"), numel),
        numel,
        num_dims: layout.rank(),
        info: concat_usize(&layout.dims, &layout.stride),
        src_offset: layout.start_offset,
        dst_offset,
    }
}

/// How a copy of a strided view into a fresh buffer is made.
#[derive(Clone, Debug)]
pub enum CloneStep {
    /// One device-to-device copy of `bytes` bytes from byte `src_byte_offset`.
    DeviceCopy { src_byte_offset: usize, bytes: usize },
    Strided(StridedLaunch),
    Host,
}

/// Plan of a copy of a view: the output buffer is allocated first, then
/// filled by the step.
#[derive(Clone, Debug)]
pub struct ClonePlan {
    pub out_bytes: usize,
    pub step: CloneStep,
}

/// What copying a view of `dtype` elements needs.
pub open spec fn clone_fits(dtype: DType, layout: Layout) -> bool {
    &&& layout.wf()
    &&& layout.spec_elem_count() * dtype.spec_size() <= usize::MAX
    &&& layout.spec_contiguous() ==> layout.start_offset * dtype.spec_size() <= usize::MAX
    &&& !layout.spec_contiguous() && dtype == DType::F32 ==> launchable(layout.spec_elem_count() as usize)
}

pub open spec fn spec_clone_plan(dtype: DType, layout: Layout, p: ClonePlan) -> bool {
    &&& p.out_bytes == layout.spec_elem_count() * dtype.spec_size()
    &&& if layout.spec_contiguous() {
        p.step matches CloneStep::DeviceCopy { src_byte_offset, bytes }
            && src_byte_offset == layout.start_offset * dtype.spec_size() && bytes == p.out_bytes
    } else if dtype == DType::F32 {
        p.step matches CloneStep::Strided(s) && spec_strided(layout, 0, s)
    } else {
        p.step is Host
    }
}

/// Plan of a copy of a view into a fresh buffer: one device copy for a
/// contiguous view, the strided copy kernel for other `f32` views, host memory
/// otherwise.
pub fn clone_plan(dtype: DType, layout: &Layout) -> (r: ClonePlan)
    requires
        clone_fits(dtype, *layout),
    ensures
        spec_clone_plan(dtype, *layout, r),
{
    let numel = layout.elem_count();
    let size = dtype.size_in_bytes();
    let out_bytes = numel * size;
    let step = if layout.is_contiguous() {
        CloneStep::DeviceCopy { src_byte_offset: layout.start_offset * size, bytes: out_bytes }
    } else if dtype == DType::F32 {
        CloneStep::Strided(strided_launch(layout, 0))
    } else {
        CloneStep::Host
    };
    ClonePlan { out_bytes, step }
}

/// How a view is copied into an existing destination.
#[derive(Clone, Debug)]
pub enum CopyPlan {
    /// Download both, copy on the host, upload the destination again.
    HostRoundTrip,
    DeviceCopy { src_byte_offset: usize, dst_byte_offset: usize, bytes: usize },
    Strided(StridedLaunch),
}

/// Plan of copying the view `layout` into a destination starting at element
/// `dst_offset`.
pub fn copy_strided_plan(dtype: DType, layout: &Layout, dst_offset: usize) -> (r: CopyPlan)
    requires
        layout.wf(),
        dtype == DType::F32 ==> {
            &&& layout.spec_elem_count() * 4 <= usize::MAX
            &&& layout.start_offset * 4 <= usize::MAX
            &&& dst_offset * 4 <= usize::MAX
            &&& !layout.spec_contiguous() ==> launchable(layout.spec_elem_count() as usize)
        },
    ensures
        if dtype != DType::F32 {
            r is HostRoundTrip
        } else if layout.spec_contiguous() {
            r matches CopyPlan::DeviceCopy { src_byte_offset, dst_byte_offset, bytes } && {
                &&& src_byte_offset == layout.start_offset * 4
                &&& dst_byte_offset == dst_offset * 4
                &&& bytes == layout.spec_elem_count() * 4
            }
        } else {
            r matches CopyPlan::Strided(s) && spec_strided(*layout, dst_offset, s)
        },
{
    if dtype != DType::F32 {
        return CopyPlan::HostRoundTrip;
    }
    if layout.is_contiguous() {
        let numel = layout.elem_count();
        CopyPlan::DeviceCopy { src_byte_offset: layout.start_offset * 4, dst_byte_offset: dst_offset * 4, bytes: numel * 4 }
    } else {
        CopyPlan::Strided(strided_launch(layout, dst_offset))
    }
}

/// How a two-dimensional block copy runs.
#[derive(Clone, Debug)]
pub enum Copy2dPlan {
    HostRoundTrip,
    Gpu(Launch),
}

/// Plan of copying `d1` rows of `d2` elements: the `copy2d_f32` kernel over
/// `d1 * d2` elements for `f32` data.
pub fn copy2d_plan(dtype: DType, d1: usize, d2: usize) -> (r: Copy2dPlan)
    requires
        dtype == DType::F32 ==> d1 * d2 <= usize::MAX && launchable((d1 * d2) as usize),
    ensures
        if dtype != DType::F32 {
            r is HostRoundTrip
        } else {
            r matches Copy2dPlan::Gpu(l) && l.is_linear("fill"@, "copy2d_f32"@, (d1 * d2) as usize)
        },
{
    if dtype != DType::F32 {
        return Copy2dPlan::HostRoundTrip;
    }
    let numel = d1 * d2;
    Copy2dPlan::Gpu(linear_launch("fill", String::from_str("copy2d_f32"), numel))
}

/// The cast kernel between two element types, where there is one.
pub open spec fn spec_cast_kernel(src: DType, dst: DType) -> Option<Seq<char>> {
    match (src, dst) {
        (DType::F32, DType::U8) => Some("cast_f32_u8"@),
        (DType::F32, DType::U32) => Some("cast_f32_u32"@),
        (DType::F32, DType::I64) => Some("cast_f32_i64"@),
        (DType::F32, DType::F64) => Some("cast_f32_f64"@),
        (DType::U8, DType::F32) => Some("cast_u8_f32"@),
        (DType::U32, DType::F32) => Some("cast_u32_f32"@),
        (DType::I64, DType::F32) => Some("cast_i64_f32"@),
        (DType::F64, DType::F32) => Some("cast_f64_f32"@),
        (DType::U32, DType::I64) => Some("cast_u32_i64"@),
        (DType::I64, DType::U32) => Some("cast_i64_u32"@),
        (DType::U8, DType::U32) => Some("cast_u8_u32"@),
        (DType::U32, DType::U8) => Some("cast_u32_u8"@),
        _ => None,
    }
}

/// A cast kernel converts from its source type to its target type: its name
/// is `cast_`, the source type's suffix, `_` and the target type's suffix;
/// and there is none from a type to itself.
pub proof fn law_cast_kernel_names(src: DType, dst: DType)
    ensures
        spec_cast_kernel(src, dst) matches Some(name) ==> name == "cast_"@ + spec_dtype_suffix(src) + "_"@ + spec_dtype_suffix(dst),
        src == dst ==> spec_cast_kernel(src, dst) is None,
{
    reveal_strlit("cast_");
    reveal_strlit("_");
    reveal_strlit("f32");
    reveal_strlit("f64");
    reveal_strlit("u8");
    reveal_strlit("u32");
    reveal_strlit("i64");
    reveal_strlit("cast_f32_u8");
    reveal_strlit("cast_f32_u32");
    reveal_strlit("cast_f32_i64");
    reveal_strlit("cast_f32_f64");
    reveal_strlit("cast_u8_f32");
    reveal_strlit("cast_u32_f32");
    reveal_strlit("cast_i64_f32");
    reveal_strlit("cast_f64_f32");
    reveal_strlit("cast_u32_i64");
    reveal_strlit("cast_i64_u32");
    reveal_strlit("cast_u8_u32");
    reveal_strlit("cast_u32_u8");
    if let Some(name) = spec_cast_kernel(src, dst) {
        assert(name =~= "cast_"@ + spec_dtype_suffix(src) + "_"@ + spec_dtype_suffix(dst));
    }
}

pub open spec fn opt_str(o: Option<&'static str>) -> Option<Seq<char>> {
    match o {
        Some(s) => Some(s@),
        None => None,
    }
}

pub fn cast_kernel(src: DType, dst: DType) -> (r: Option<&'static str>)
    ensures
        opt_str(r) == spec_cast_kernel(src, dst),
{
    match (src, dst) {
        (DType::F32, DType::U8) => Some("cast_f32_u8"),
        (DType::F32, DType::U32) => Some("cast_f32_u32"),
        (DType::F32, DType::I64) => Some("cast_f32_i64"),
        (DType::F32, DType::F64) => Some("cast_f32_f64"),
        (DType::U8, DType::F32) => Some("cast_u8_f32"),
        (DType::U32, DType::F32) => Some("cast_u32_f32"),
        (DType::I64, DType::F32) => Some("cast_i64_f32"),
        (DType::F64, DType::F32) => Some("cast_f64_f32"),
        (DType::U32, DType::I64) => Some("cast_u32_i64"),
        (DType::I64, DType::U32) => Some("cast_i64_u32"),
        (DType::U8, DType::U32) => Some("cast_u8_u32"),
        (DType::U32, DType::U8) => Some("cast_u32_u8"),
        _ => None,
    }
}

/// A cast kernel run.
#[derive(Clone, Debug)]
pub struct CastLaunch {
    pub launch: Launch,
    pub numel: usize,
    pub num_dims: usize,
    pub info: Option<Vec<usize>>,
    /// Byte offset of the input within its buffer.
    pub input_byte_offset: usize,
    pub out_bytes: usize,
    pub out_dtype: DType,
}

/// How a conversion to another element type runs.
#[derive(Clone, Debug)]
pub enum CastPlan {
    /// Same type: a plain copy of the view.
    Copy(ClonePlan),
    Host,
    Gpu(CastLaunch),
}

/// What converting a view needs.
pub open spec fn cast_fits(src: DType, layout: Layout, dst: DType) -> bool {
    &&& layout.wf()
    &&& src == dst ==> clone_fits(src, layout)
    &&& src != dst && spec_cast_kernel(src, dst) is Some ==> {
        &&& launchable(layout.spec_elem_count() as usize)
        &&& layout.spec_elem_count() * dst.spec_size() <= usize::MAX
        &&& layout.start_offset * src.spec_size() <= usize::MAX
    }
}

/// Plan of converting a view of `src` elements to `dst` elements: a copy for
/// the same type, the cast kernel where there is one, host memory otherwise.
pub fn to_dtype_plan(src: DType, layout: &Layout, dst: DType) -> (r: CastPlan)
    requires
        cast_fits(src, *layout, dst),
    ensures
        if src == dst {
            r matches CastPlan::Copy(c) && spec_clone_plan(src, *layout, c)
        } else {
            match spec_cast_kernel(src, dst) {
                None => r is Host,
                Some(name) => r matches CastPlan::Gpu(g) && {
                    &&& g.launch.is_linear("cast"@, name, g.numel)
                    &&& g.numel == layout.spec_elem_count()
                    &&& g.num_dims == layout.dims@.len()
                    &&& opt_seq(g.info) == spec_upload_info(*layout)
                    &&& g.input_byte_offset == layout.start_offset * src.spec_size()
                    &&& g.out_bytes == g.numel * dst.spec_size()
                    &&& g.out_dtype == dst
                },
            }
        },
{
    if src == dst {
        return CastPlan::Copy(clone_plan(src, layout));
    }
    let numel = layout.elem_count();
    let name = match cast_kernel(src, dst) {
        Some(k) => k,
        None => return CastPlan::Host,
    };
    let out_bytes = numel * dst.size_in_bytes();
    let info = upload_info(layout);
    let launch = linear_launch("cast", String::from_str(name), numel);
    CastPlan::Gpu(CastLaunch {
        launch,
        numel,
        num_dims: layout.rank(),
        info,
        input_byte_offset: layout.start_offset * src.size_in_bytes(),
        out_bytes,
        out_dtype: dst,
    })
}

/// How a tensor of ones is made.
#[derive(Clone, Debug)]
pub enum OnesPlan {
    /// Make it on the host and upload it.
    Host,
    /// Allocate `out_bytes` and fill them with `1.0` by the kernel.
    Fill { out_bytes: usize, launch: Launch, numel: usize },
}

/// Plan of a tensor of `numel` ones: the `fill_f32` kernel for `f32`, host
/// memory for other types.
pub fn ones_plan(dtype: DType, numel: usize) -> (r: OnesPlan)
    requires
        dtype == DType::F32 ==> numel * 4 <= usize::MAX && launchable(numel),
    ensures
        if dtype != DType::F32 {
            r is Host
        } else {
            r matches OnesPlan::Fill { out_bytes, launch, numel: n } && {
                &&& out_bytes == numel * 4
                &&& n == numel
                &&& launch.is_linear("fill"@, "fill_f32"@, numel)
            }
        },
{
    if dtype != DType::F32 {
        return OnesPlan::Host;
    }
    OnesPlan::Fill { out_bytes: numel * 4, launch: linear_launch("fill", String::from_str("fill_f32"), numel), numel }
}

/// Bytes of a buffer of `numel` elements of `dtype`.
pub fn storage_byte_size(numel: usize, dtype: DType) -> (r: usize)
    requires
        numel * dtype.spec_size() <= usize::MAX,
    ensures
        r == numel * dtype.spec_size(),
{
    numel * dtype.size_in_bytes()
}

} // verus!
