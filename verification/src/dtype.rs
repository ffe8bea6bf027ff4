//! Element types of tensor storage.

use vstd::prelude::*;

verus! {

/// Element type of a tensor.
#[derive(Clone, Copy, Debug, PartialEq, Eq, Structural)]
pub enum DType {
    U8,
    U32,
    I64,
    BF16,
    F16,
    F32,
    F64,
}

impl DType {
    /// Number of bytes one element of this type occupies.
    pub open spec fn spec_size(self) -> nat {
        match self {
            DType::U8 => 1,
            DType::U32 => 4,
            DType::I64 => 8,
            DType::BF16 => 2,
            DType::F16 => 2,
            DType::F32 => 4,
            DType::F64 => 8,
        }
    }

    pub fn size_in_bytes(&self) -> (r: usize)
        ensures
            r == self.spec_size(),
            1 <= r <= 8,
    {
        match self {
            DType::U8 => 1,
            DType::U32 => 4,
            DType::I64 => 8,
            DType::BF16 => 2,
            DType::F16 => 2,
            DType::F32 => 4,
            DType::F64 => 8,
        }
    }
}

/// The suffix that kernel function names carry for an element type.
pub open spec fn spec_dtype_suffix(dtype: DType) -> Seq<char> {
    match dtype {
        DType::F32 => "f32"@,
        DType::F64 => "f64"@,
        DType::U8 => "u8"@,
        DType::U32 => "u32"@,
        DType::I64 => "i64"@,
        DType::F16 => "f16"@,
        DType::BF16 => "bf16"@,
    }
}

/// Kernel-name suffix of an element type, such as `f32`.
pub fn dtype_suffix(dtype: DType) -> (r: &'static str)
    ensures
        r@ == spec_dtype_suffix(dtype),
{
    match dtype {
        DType::F32 => "f32",
        DType::F64 => "f64",
        DType::U8 => "u8",
        DType::U32 => "u32",
        DType::I64 => "i64",
        DType::F16 => "f16",
        DType::BF16 => "bf16",
    }
}

} // verus!
