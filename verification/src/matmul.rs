//! Plan of row-major batched matrix products on a column-major BLAS.
//!
//! A row-major `C[m, n] = A[m, k] * B[k, n]` is, read column-major, the
//! product `C'[n, m] = B'[n, k] * A'[k, m]`, so the BLAS call takes the right
//! operand first, with the sizes `n`, `m`, `k` and leading dimensions `n`,
//! `k`, `n`, and no transposition.

use vstd::prelude::*;
use crate::dtype::DType;
use crate::layout::Layout;

verus! {

/// Batch strides (in elements) of the first operand, the second operand and
/// the output of a batched GEMM.
#[derive(Clone, Copy, Debug, PartialEq, Eq, Structural)]
pub struct BatchStrides {
    pub a: i64,
    pub b: i64,
    pub c: i64,
}

/// The column-major GEMM of a plan. Its first operand is the right-hand
/// matrix of the product and its second operand the left-hand one.
#[derive(Clone, Copy, Debug, PartialEq, Eq, Structural)]
pub struct GemmCall {
    pub m: usize,
    pub n: usize,
    pub k: usize,
    pub lda: usize,
    pub ldb: usize,
    pub ldc: usize,
    /// Present for a batched call.
    pub strides: Option<BatchStrides>,
    pub batch: usize,
}

/// The GEMM that computes `b` row-major products of `m x k` by `k x n`.
pub open spec fn spec_matmul_gemm(b: usize, m: usize, n: usize, k: usize) -> GemmCall {
    GemmCall {
        m: n,
        n: m,
        k: k,
        lda: n,
        ldb: k,
        ldc: n,
        strides: if b == 1 {
            None
        } else {
            Some(BatchStrides { a: (k * n) as i64, b: (m * k) as i64, c: (m * n) as i64 })
        },
        batch: b,
    }
}

/// An input of a product: the left-hand or the right-hand matrix.
#[derive(Clone, Copy, Debug, PartialEq, Eq, Structural)]
pub enum Operand {
    Lhs,
    Rhs,
}

/// A product run on the BLAS: which input goes into each operand slot of the
/// GEMM (`A`, the first, and `B`, the second), at which byte offset within
/// its buffer, and the output's size and element type.
#[derive(Clone, Copy, Debug, PartialEq, Eq, Structural)]
pub struct MatmulLaunch {
    pub out_bytes: usize,
    pub out_dtype: DType,
    pub a_input: Operand,
    pub a_byte_offset: usize,
    pub b_input: Operand,
    pub b_byte_offset: usize,
    pub gemm: GemmCall,
}

#[derive(Clone, Copy, Debug, PartialEq, Eq, Structural)]
pub enum MatmulPlan {
    Host,
    Gpu(MatmulLaunch),
}

/// What an `f32` product plan needs.
pub open spec fn matmul_fits(dtype: DType, b: usize, m: usize, n: usize, k: usize, lhs_l: Layout, rhs_l: Layout) -> bool {
    &&& lhs_l.wf()
    &&& rhs_l.wf()
    &&& dtype == DType::F32 && lhs_l.spec_contiguous() && rhs_l.spec_contiguous() ==> {
        &&& b * m <= usize::MAX
        &&& b * m * n <= usize::MAX
        &&& b * m * n * 4 <= usize::MAX
        &&& lhs_l.start_offset * 4 <= usize::MAX
        &&& rhs_l.start_offset * 4 <= usize::MAX
        &&& b != 1 ==> k * n <= usize::MAX && m * k <= usize::MAX && m * n <= usize::MAX
    }
}

/// Plan of `b` row-major products `lhs[m, k] * rhs[k, n]` of `f32`
/// contiguous data on the BLAS; other cases go through host memory.
pub fn matmul_plan(dtype: DType, b: usize, m: usize, n: usize, k: usize, lhs_l: &Layout, rhs_l: &Layout) -> (r: MatmulPlan)
    requires
        matmul_fits(dtype, b, m, n, k, *lhs_l, *rhs_l),
    ensures
        if dtype != DType::F32 || !lhs_l.spec_contiguous() || !rhs_l.spec_contiguous() {
            r is Host
        } else {
            r == MatmulPlan::Gpu(MatmulLaunch {
                out_bytes: (b * m * n * 4) as usize,
                out_dtype: DType::F32,
                a_input: Operand::Rhs,
                a_byte_offset: (rhs_l.start_offset * 4) as usize,
                b_input: Operand::Lhs,
                b_byte_offset: (lhs_l.start_offset * 4) as usize,
                gemm: spec_matmul_gemm(b, m, n, k),
            })
        },
        r matches MatmulPlan::Gpu(p) ==> p.gemm.batch == b && (p.gemm.strides is None <==> b == 1),
{
    if dtype != DType::F32 {
        return MatmulPlan::Host;
    }
    if !lhs_l.is_contiguous() || !rhs_l.is_contiguous() {
        return MatmulPlan::Host;
    }
    let out_bytes = b * m * n * 4;
    let strides = if b == 1 {
        None
    } else {
        Some(BatchStrides { a: (k * n) as i64, b: (m * k) as i64, c: (m * n) as i64 })
    };
    MatmulPlan::Gpu(MatmulLaunch {
        out_bytes,
        out_dtype: DType::F32,
        a_input: Operand::Rhs,
        a_byte_offset: rhs_l.start_offset * 4,
        b_input: Operand::Lhs,
        b_byte_offset: lhs_l.start_offset * 4,
        gemm: GemmCall { m: n, n: m, k, lda: n, ldb: k, ldc: n, strides, batch: b },
    })
}

/// One product (`b == 1`) is a plain GEMM; any other batch count is a
/// strided batched GEMM over all `b` products, whose operands and output
/// advance by a whole matrix per batch: `k * n` elements of the right-hand
/// matrix, `m * k` of the left-hand one and `m * n` of the output. So batch
/// `i` writes the output from element `i * m * n` and reads the operands
/// from `i * k * n` and `i * m * k`.
pub proof fn law_matmul_batches(b: usize, m: usize, n: usize, k: usize)
    requires
        k * n <= i64::MAX,
        m * k <= i64::MAX,
        m * n <= i64::MAX,
    ensures
        spec_matmul_gemm(b, m, n, k).batch == b,
        b == 1 ==> spec_matmul_gemm(b, m, n, k).strides is None,
        b != 1 ==> (spec_matmul_gemm(b, m, n, k).strides matches Some(st) && {
            &&& st.a == k * n
            &&& st.b == m * k
            &&& st.c == m * n
            &&& forall|i: int| 0 <= i < b ==> #[trigger] (i * st.c) == i * (m * n) && i * st.a == i * (k * n)
                && i * st.b == i * (m * k)
        }),
{
}

/// Position of element `(row, col)` of a column-major matrix with leading
/// dimension `ld`.
pub open spec fn col_major(row: int, col: int, ld: int) -> int {
    row + col * ld
}

/// Position of element `(row, col)` of a row-major matrix with `cols` columns.
pub open spec fn row_major(row: int, col: int, cols: int) -> int {
    row * cols + col
}

/// The planned column-major GEMM reads and writes exactly the row-major
/// product: its output element `(j, i)` is the row-major `C[i][j]`, its first
/// operand's `(j, p)` is the right matrix's `B[p][j]`, and its second
/// operand's `(p, i)` is the left matrix's `A[i][p]`; so each output is
/// `sum_p A[i][p] * B[p][j]`. Batches are whole matrices apart.
pub proof fn law_matmul_row_major(b: usize, m: usize, n: usize, k: usize)
    ensures
        ({
            let g = spec_matmul_gemm(b, m, n, k);
            &&& g.m == n && g.n == m && g.k == k
            &&& forall|i: int, j: int| #![trigger row_major(i, j, n as int)]
                col_major(j, i, g.ldc as int) == row_major(i, j, n as int)
            &&& forall|p: int, j: int| #![trigger row_major(p, j, n as int)]
                col_major(j, p, g.lda as int) == row_major(p, j, n as int)
            &&& forall|i: int, p: int| #![trigger row_major(i, p, k as int)]
                col_major(p, i, g.ldb as int) == row_major(i, p, k as int)
        }),
{
    let g = spec_matmul_gemm(b, m, n, k);
    assert forall|i: int, j: int| #![trigger row_major(i, j, n as int)]
        col_major(j, i, g.ldc as int) == row_major(i, j, n as int) by {
        assert(j + i * n == i * n + j);
    }
    assert forall|p: int, j: int| #![trigger row_major(p, j, n as int)]
        col_major(j, p, g.lda as int) == row_major(p, j, n as int) by {
        assert(j + p * n == p * n + j);
    }
    assert forall|i: int, p: int| #![trigger row_major(i, p, k as int)]
        col_major(p, i, g.ldb as int) == row_major(i, p, k as int) by {
        assert(p + i * k == i * k + p);
    }
}

} // verus!
