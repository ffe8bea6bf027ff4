//! rocBLAS handles and the integer arguments of GEMM calls.

use vstd::prelude::*;
use crate::error::{HipError, check_rocblas, ROCBLAS_STATUS_SUCCESS};
use crate::hip_types::rocblas_operation;

verus! {

/// A rocBLAS library handle.
pub struct RocBlas {
    handle: usize,
}

impl RocBlas {
    pub closed spec fn spec_handle(&self) -> usize {
        self.handle
    }

    /// The handle that `rocblas_create_handle` produced, given the status it
    /// answered and the handle it wrote.
    pub fn new(code: i32, handle: usize) -> (r: Result<RocBlas, HipError>)
        ensures
            code == ROCBLAS_STATUS_SUCCESS ==> (r matches Ok(b) && b.spec_handle() == handle),
            code != ROCBLAS_STATUS_SUCCESS ==> r == Err::<RocBlas, HipError>(HipError::RocblasError { code }),
    {
        match check_rocblas(code) {
            Ok(()) => Ok(RocBlas { handle }),
            Err(e) => Err(e),
        }
    }

    /// The library handle.
    pub fn as_raw(&self) -> (r: usize)
        ensures
            r == self.spec_handle(),
    {
        self.handle
    }
}

/// The operation flags and 32-bit sizes that a column-major GEMM
/// `C = alpha * op(A) * op(B) + beta * C` passes to rocBLAS.
#[derive(Clone, Copy, Debug, PartialEq, Eq, Structural)]
pub struct GemmShape {
    pub op_a: rocblas_operation,
    pub op_b: rocblas_operation,
    pub m: i32,
    pub n: i32,
    pub k: i32,
    pub lda: i32,
    pub ldb: i32,
    pub ldc: i32,
}

/// Arguments of a GEMM with `A` of `m x k`, `B` of `k x n` and `C` of
/// `m x n` (after the optional transpositions), with their leading dimensions.
pub fn gemm_shape(trans_a: bool, trans_b: bool, m: usize, n: usize, k: usize, lda: usize, ldb: usize, ldc: usize) -> (r: GemmShape)
    ensures
        r.op_a == (if trans_a { rocblas_operation::rocblas_operation_transpose } else { rocblas_operation::rocblas_operation_none }),
        r.op_b == (if trans_b { rocblas_operation::rocblas_operation_transpose } else { rocblas_operation::rocblas_operation_none }),
        r.m == m as i32,
        r.n == n as i32,
        r.k == k as i32,
        r.lda == lda as i32,
        r.ldb == ldb as i32,
        r.ldc == ldc as i32,
{
    GemmShape {
        op_a: rocblas_operation::from_transpose(trans_a),
        op_b: rocblas_operation::from_transpose(trans_b),
        m: m as i32,
        n: n as i32,
        k: k as i32,
        lda: lda as i32,
        ldb: ldb as i32,
        ldc: ldc as i32,
    }
}

/// The 32-bit batch count of a strided batched GEMM.
pub fn batch_count_arg(batch_count: usize) -> (r: i32)
    ensures
        r == batch_count as i32,
{
    batch_count as i32
}

} // verus!
