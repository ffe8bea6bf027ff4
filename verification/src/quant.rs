//! Plans of the quantized-weight kernels: block dequantization and the fused
//! FP8 matrix product.

use vstd::prelude::*;
use crate::error::Error;
use crate::plan::{Launch, BLOCK};
use crate::text::{decimal, append_decimal_nat};
use crate::convert::{encode_u32s, le_bytes, ints_u32};

verus! {

/// Block formats of quantized weights.
#[allow(non_camel_case_types)]
#[derive(Clone, Copy, Debug, PartialEq, Eq, Structural)]
pub enum GgmlDType {
    F32,
    F16,
    BF16,
    Q4_0,
    Q4_1,
    Q5_0,
    Q5_1,
    Q8_0,
    Q8_1,
    Q2K,
    Q3K,
    Q4K,
    Q5K,
    Q6K,
    Q8K,
}

/// A dequantization kernel run, writing half-precision values.
#[derive(Clone, Debug)]
pub struct DequantLaunch {
    pub launch: Launch,
    /// Number of whole 32-value blocks.
    pub num_blocks: usize,
    /// The block count as the kernel takes it.
    pub num_blocks_arg: i32,
    pub out_elements: usize,
    pub out_bytes: usize,
}

/// How quantized weights become half-precision values on the device: by a
/// dequantization kernel, or (for formats without one) by dequantizing on
/// the host and uploading the result.
#[derive(Clone, Debug)]
pub enum DequantPlan {
    Host,
    Gpu(DequantLaunch),
}

/// Whether a format has a dequantization kernel: `Q4_0` and `Q8_0`.
pub open spec fn has_dequant_kernel(d: GgmlDType) -> bool {
    d == GgmlDType::Q4_0 || d == GgmlDType::Q8_0
}

/// What dequantizing `elem_count` values needs.
pub open spec fn dequant_fits(d: GgmlDType, elem_count: usize) -> bool {
    has_dequant_kernel(d) ==> {
        &&& (((elem_count / 32) as usize) as u32) + 255 <= u32::MAX
        &&& (elem_count / 32) * 32 * 2 <= usize::MAX
    }
}

/// Plan of dequantizing `elem_count` values of format `dtype` into
/// half-precision values: `Q4_0` and `Q8_0` run their kernel over whole
/// blocks of 32 values, one thread per block; the other formats are
/// dequantized on the host and uploaded.
pub fn dequant_to_gpu(dtype: GgmlDType, elem_count: usize) -> (r: DequantPlan)
    requires
        dequant_fits(dtype, elem_count),
    ensures
        !has_dequant_kernel(dtype) ==> r is Host,
        has_dequant_kernel(dtype) ==> (r matches DequantPlan::Gpu(p) && {
            let nb = (elem_count / 32) as usize;
            let g = ((nb as u32) + 255) / 256;
            &&& p.num_blocks == nb
            &&& p.num_blocks_arg == nb as i32
            &&& p.out_elements == nb * 32
            &&& p.out_bytes == nb * 32 * 2
            &&& p.launch.module@ == "dequant"@
            &&& p.launch.function@ == (if dtype == GgmlDType::Q4_0 { "dequant_q4_0_f16"@ } else { "dequant_q8_0_f16"@ })
            &&& p.launch.grid_x == (if g < 1 { 1 } else { g })
            &&& p.launch.grid_y == 1
            &&& p.launch.block_x == BLOCK
            &&& p.launch.shared_mem == 0
        }),
{
    let (kernel_name, values_per_block): (&'static str, usize) = match dtype {
        GgmlDType::Q4_0 => ("dequant_q4_0_f16", 32),
        GgmlDType::Q8_0 => ("dequant_q8_0_f16", 32),
        _ => {
            return DequantPlan::Host;
        },
    };
    let num_blocks = elem_count / values_per_block;
    let out_elements = num_blocks * values_per_block;
    let block = BLOCK;
    let nb32: u32 = num_blocks as u32;
    let g: u32 = (nb32 + 255) / 256;
    let grid = if g < 1 { 1 } else { g };
    DequantPlan::Gpu(DequantLaunch {
        launch: Launch { module: "dequant", function: String::from_str(kernel_name), grid_x: grid, grid_y: 1, block_x: block, shared_mem: 0 },
        num_blocks,
        num_blocks_arg: num_blocks as i32,
        out_elements,
        out_bytes: out_elements * 2,
    })
}

/// Dequantization covers the whole blocks only: the output holds a multiple
/// of 32 values, at most the element count and less than one block short of it.
pub proof fn law_dequant_whole_blocks(elem_count: usize)
    ensures
        ({
            let out = (elem_count / 32) * 32;
            &&& out % 32 == 0
            &&& out <= elem_count
            &&& elem_count - out < 32
        }),
{
}

/// The two dimensions of a matrix, or the rank error.
pub fn dims2(dims: &Vec<usize>) -> (r: Result<(usize, usize), Error>)
    ensures
        dims@.len() == 2 ==> r == Ok::<(usize, usize), Error>((dims@[0], dims@[1])),
        dims@.len() != 2 ==> (r matches Err(Error::UnexpectedRank { expected, got }) && expected == 2 && got == dims@.len()),
{
    if dims.len() == 2 {
        Ok((dims[0], dims[1]))
    } else {
        Err(Error::UnexpectedRank { expected: 2, got: dims.len() })
    }
}

/// The per-row scales (as bit patterns) for `n` rows: one scale is repeated
/// for every row, `n` scales are kept; any other count has no scales.
pub open spec fn spec_row_scales(s: Seq<u32>, n: nat) -> Option<Seq<u32>> {
    if s.len() == 1 {
        Some(Seq::new(n, |i: int| s[0]))
    } else if s.len() == n {
        Some(s)
    } else {
        None
    }
}

/// Whenever the scales are accepted there is one per row, so the kernel's
/// read of `scale[j]` for every row `j` stays inside the scales.
pub proof fn law_row_scales_cover_rows(s: Seq<u32>, n: nat)
    ensures
        spec_row_scales(s, n) matches Some(t) ==> t.len() == n,
        s.len() == 1 ==> (spec_row_scales(s, n) matches Some(t) && forall|j: int| 0 <= j < n ==> t[j] == s[0]),
{
}

/// Scales given one per row are used as given: row `j` gets `s[j]`. Any
/// other count than one or `n` is refused.
pub proof fn law_row_scales_per_row(s: Seq<u32>, n: nat)
    ensures
        s.len() == n ==> spec_row_scales(s, n) == Some(s),
        s.len() != 1 && s.len() != n ==> spec_row_scales(s, n) is None,
{
    if s.len() == n && s.len() == 1 {
        assert(Seq::new(n, |i: int| s[0]) =~= s);
    }
}

/// A single scale `c` is the same as `n` copies of it: both are accepted
/// and give the same per-row scales, so the product plan is the same.
pub proof fn law_scalar_scale_broadcast(c: u32, n: nat)
    ensures
        spec_row_scales(seq![c], n) is Some,
        spec_row_scales(seq![c], n) == spec_row_scales(Seq::new(n, |i: int| c), n),
{
    assert(spec_row_scales(seq![c], n)->Some_0 =~= Seq::new(n, |i: int| c));
}

/// A fused FP8 product `Y[m, n] = scale[n] * sum_k X[m, k] * W[n, k]` run.
#[derive(Clone, Debug)]
pub struct Fp8Plan {
    pub m: usize,
    pub n: usize,
    pub k: usize,
    /// Little-endian image of the `n` row scales.
    pub scale_bytes: Vec<u8>,
    /// Bytes of the half-precision `m x n` output.
    pub out_bytes: usize,
    pub launch: Launch,
    pub m_arg: i32,
    pub n_arg: i32,
    pub k_arg: i32,
}

/// What the FP8 product plan needs: once the shapes are matrices with the
/// same inner size and the scales are accepted, the output's byte size and
/// the scales' byte image fit in memory.
pub open spec fn fp8_fits(w_dims: Seq<usize>, x_dims: Seq<usize>, scale_bits: Seq<u32>) -> bool {
    w_dims.len() == 2 && x_dims.len() == 2 && w_dims[1] == x_dims[1] && spec_row_scales(scale_bits, w_dims[0] as nat) is Some ==> {
        &&& x_dims[0] * w_dims[0] <= usize::MAX
        &&& x_dims[0] * w_dims[0] * 2 <= usize::MAX
        &&& w_dims[0] * 4 <= usize::MAX
    }
}

/// Plan of the fused FP8 product of weights `W[n, k]` and input `X[m, k]`
/// with scales given as `f32` bit patterns: the shapes must be matrices with
/// the same `k`, and the scales one per row or a single one for all rows;
/// one 32-thread block per output element.
pub fn fp8_gemm_f16(w_dims: &Vec<usize>, x_dims: &Vec<usize>, scale_bits: Vec<u32>) -> (r: Result<Fp8Plan, Error>)
    requires
        fp8_fits(w_dims@, x_dims@, scale_bits@),
    ensures
        w_dims@.len() != 2 ==> (r matches Err(Error::UnexpectedRank { expected, got }) && expected == 2 && got == w_dims@.len()),
        w_dims@.len() == 2 && x_dims@.len() != 2 ==> (r matches Err(Error::UnexpectedRank { expected, got }) && expected == 2 && got == x_dims@.len()),
        w_dims@.len() == 2 && x_dims@.len() == 2 ==> {
            let n = w_dims@[0];
            let k_w = w_dims@[1];
            let m = x_dims@[0];
            let k_x = x_dims@[1];
            if k_w != k_x {
                r matches Err(e) && e.text() == "fp8_gemm_f16: K mismatch: W has K="@ + decimal(k_w as int) + ", X has K="@ + decimal(k_x as int)
            } else {
                match spec_row_scales(scale_bits@, n as nat) {
                    None => r matches Err(e) && e.text() == "fp8_gemm_f16: scale length "@ + decimal(scale_bits@.len() as int)
                        + " doesn't match N="@ + decimal(n as int),
                    Some(s) => r matches Ok(p) && {
                        &&& scale_bits@.len() == n ==> p.scale_bytes@ == le_bytes(ints_u32(scale_bits@), 4)
                        &&& p.m == m && p.n == n && p.k == k_w
                        &&& p.scale_bytes@ == le_bytes(ints_u32(s), 4)
                        &&& p.out_bytes == m * n * 2
                        &&& p.launch.module@ == "fp8_gemm"@
                        &&& p.launch.function@ == "fp8_gemm_f16"@
                        &&& p.launch.grid_x == (if (n as u32) < 1 { 1 } else { n as u32 })
                        &&& p.launch.grid_y == (if (m as u32) < 1 { 1 } else { m as u32 })
                        &&& p.launch.block_x == 32
                        &&& p.launch.shared_mem == 0
                        &&& p.m_arg == m as i32 && p.n_arg == n as i32 && p.k_arg == k_w as i32
                    },
                }
            }
        },
{
    let (n, k_w) = match dims2(w_dims) {
        Ok(d) => d,
        Err(e) => return Err(e),
    };
    let (m, k_x) = match dims2(x_dims) {
        Ok(d) => d,
        Err(e) => return Err(e),
    };
    if k_w != k_x {
        let mut s = String::from_str("fp8_gemm_f16: K mismatch: W has K=");
        append_decimal_nat(&mut s, k_w as u64);
        s.append(", X has K=");
        append_decimal_nat(&mut s, k_x as u64);
        return Err(Error::Msg(s));
    }
    let k = k_w;
    let ghost given = scale_bits@;
    let scale_len = scale_bits.len();
    let scale_n: Vec<u32> = if scale_len == 1 {
        let s0 = scale_bits[0];
        let mut v: Vec<u32> = Vec::new();
        let mut i: usize = 0;
        while i < n
            invariant
                i <= n,
                v@ == Seq::new(i as nat, |j: int| s0),
            decreases n - i,
        {
            v.push(s0);
            i = i + 1;
            assert(v@ =~= Seq::new(i as nat, |j: int| s0));
        }
        v
    } else if scale_len == n {
        scale_bits
    } else {
        let mut s = String::from_str("fp8_gemm_f16: scale length ");
        append_decimal_nat(&mut s, scale_len as u64);
        s.append(" doesn't match N=");
        append_decimal_nat(&mut s, n as u64);
        return Err(Error::Msg(s));
    };
    proof {
        if scale_len == n {
            assert(scale_n@ =~= given);
        }
    }
    let scale_bytes = encode_u32s(&scale_n);
    let out_elements = m * n;
    let out_bytes = out_elements * 2;
    let gx: u32 = n as u32;
    let gy: u32 = m as u32;
    let launch = Launch {
        module: "fp8_gemm",
        function: String::from_str("fp8_gemm_f16"),
        grid_x: if gx < 1 { 1 } else { gx },
        grid_y: if gy < 1 { 1 } else { gy },
        block_x: 32,
        shared_mem: 0,
    };
    Ok(Fp8Plan { m, n, k, scale_bytes, out_bytes, launch, m_arg: m as i32, n_arg: n as i32, k_arg: k as i32 })
}

} // verus!
