//! Enumerations of the HIP, hipRAND and rocBLAS interfaces, with the numeric
//! codes that the C interfaces use for them.

use vstd::prelude::*;

verus! {

/// Direction of a `hipMemcpy`.
#[allow(non_camel_case_types)]
#[derive(Clone, Copy, Debug, PartialEq, Eq, Structural)]
pub enum hipMemcpyKind {
    hipMemcpyHostToHost,
    hipMemcpyHostToDevice,
    hipMemcpyDeviceToHost,
    hipMemcpyDeviceToDevice,
}

pub open spec fn memcpy_kind_code(k: hipMemcpyKind) -> i32 {
    match k {
        hipMemcpyKind::hipMemcpyHostToHost => 0,
        hipMemcpyKind::hipMemcpyHostToDevice => 1,
        hipMemcpyKind::hipMemcpyDeviceToHost => 2,
        hipMemcpyKind::hipMemcpyDeviceToDevice => 3,
    }
}

impl hipMemcpyKind {
    /// The C value of the direction.
    pub fn code(&self) -> (r: i32)
        ensures
            r == memcpy_kind_code(*self),
    {
        match self {
            hipMemcpyKind::hipMemcpyHostToHost => 0,
            hipMemcpyKind::hipMemcpyHostToDevice => 1,
            hipMemcpyKind::hipMemcpyDeviceToHost => 2,
            hipMemcpyKind::hipMemcpyDeviceToDevice => 3,
        }
    }

    /// The direction with C value `c`, if there is one.
    pub fn from_code(c: i32) -> (r: Option<hipMemcpyKind>)
        ensures
            r matches Some(k) ==> memcpy_kind_code(k) == c,
            r is None <==> !(0 <= c <= 3),
    {
        if c == 0 {
            Some(hipMemcpyKind::hipMemcpyHostToHost)
        } else if c == 1 {
            Some(hipMemcpyKind::hipMemcpyHostToDevice)
        } else if c == 2 {
            Some(hipMemcpyKind::hipMemcpyDeviceToHost)
        } else if c == 3 {
            Some(hipMemcpyKind::hipMemcpyDeviceToDevice)
        } else {
            None
        }
    }
}

/// Generator algorithm of hipRAND.
#[allow(non_camel_case_types)]
#[derive(Clone, Copy, Debug, PartialEq, Eq, Structural)]
pub enum hiprandRngType_t {
    HIPRAND_RNG_PSEUDO_DEFAULT,
    HIPRAND_RNG_PSEUDO_XORWOW,
    HIPRAND_RNG_PSEUDO_PHILOX4_32_10,
}

pub open spec fn rng_type_code(k: hiprandRngType_t) -> i32 {
    match k {
        hiprandRngType_t::HIPRAND_RNG_PSEUDO_DEFAULT => 400,
        hiprandRngType_t::HIPRAND_RNG_PSEUDO_XORWOW => 401,
        hiprandRngType_t::HIPRAND_RNG_PSEUDO_PHILOX4_32_10 => 408,
    }
}

impl hiprandRngType_t {
    /// The C value of the generator type.
    pub fn code(&self) -> (r: i32)
        ensures
            r == rng_type_code(*self),
    {
        match self {
            hiprandRngType_t::HIPRAND_RNG_PSEUDO_DEFAULT => 400,
            hiprandRngType_t::HIPRAND_RNG_PSEUDO_XORWOW => 401,
            hiprandRngType_t::HIPRAND_RNG_PSEUDO_PHILOX4_32_10 => 408,
        }
    }
}

/// Whether rocBLAS uses a matrix as it is or transposed.
#[allow(non_camel_case_types)]
#[derive(Clone, Copy, Debug, PartialEq, Eq, Structural)]
pub enum rocblas_operation {
    rocblas_operation_none,
    rocblas_operation_transpose,
    rocblas_operation_conjugate_transpose,
}

pub open spec fn operation_code(k: rocblas_operation) -> i32 {
    match k {
        rocblas_operation::rocblas_operation_none => 111,
        rocblas_operation::rocblas_operation_transpose => 112,
        rocblas_operation::rocblas_operation_conjugate_transpose => 113,
    }
}

impl rocblas_operation {
    /// The C value of the operation.
    pub fn code(&self) -> (r: i32)
        ensures
            r == operation_code(*self),
    {
        match self {
            rocblas_operation::rocblas_operation_none => 111,
            rocblas_operation::rocblas_operation_transpose => 112,
            rocblas_operation::rocblas_operation_conjugate_transpose => 113,
        }
    }

    /// `transpose` when the flag is set, `none` otherwise.
    pub fn from_transpose(transpose: bool) -> (r: rocblas_operation)
        ensures
            r == (if transpose {
                rocblas_operation::rocblas_operation_transpose
            } else {
                rocblas_operation::rocblas_operation_none
            }),
    {
        if transpose {
            rocblas_operation::rocblas_operation_transpose
        } else {
            rocblas_operation::rocblas_operation_none
        }
    }
}

/// Element type of a rocBLAS extended operation.
#[allow(non_camel_case_types)]
#[derive(Clone, Copy, Debug, PartialEq, Eq, Structural)]
pub enum rocblas_datatype {
    rocblas_datatype_f16_r,
    rocblas_datatype_f32_r,
    rocblas_datatype_f64_r,
    rocblas_datatype_bf16_r,
    rocblas_datatype_i8_r,
    rocblas_datatype_i32_r,
    rocblas_datatype_f8_r,
    rocblas_datatype_bf8_r,
}

pub open spec fn datatype_code(k: rocblas_datatype) -> i32 {
    match k {
        rocblas_datatype::rocblas_datatype_f16_r => 150,
        rocblas_datatype::rocblas_datatype_f32_r => 151,
        rocblas_datatype::rocblas_datatype_f64_r => 152,
        rocblas_datatype::rocblas_datatype_bf16_r => 168,
        rocblas_datatype::rocblas_datatype_i8_r => 160,
        rocblas_datatype::rocblas_datatype_i32_r => 162,
        rocblas_datatype::rocblas_datatype_f8_r => 166,
        rocblas_datatype::rocblas_datatype_bf8_r => 167,
    }
}

impl rocblas_datatype {
    /// The C value of the element type.
    pub fn code(&self) -> (r: i32)
        ensures
            r == datatype_code(*self),
    {
        match self {
            rocblas_datatype::rocblas_datatype_f16_r => 150,
            rocblas_datatype::rocblas_datatype_f32_r => 151,
            rocblas_datatype::rocblas_datatype_f64_r => 152,
            rocblas_datatype::rocblas_datatype_bf16_r => 168,
            rocblas_datatype::rocblas_datatype_i8_r => 160,
            rocblas_datatype::rocblas_datatype_i32_r => 162,
            rocblas_datatype::rocblas_datatype_f8_r => 166,
            rocblas_datatype::rocblas_datatype_bf8_r => 167,
        }
    }
}

/// Precision in which rocBLAS accumulates.
#[allow(non_camel_case_types)]
#[derive(Clone, Copy, Debug, PartialEq, Eq, Structural)]
pub enum rocblas_compute_type {
    rocblas_compute_type_f32,
    rocblas_compute_type_f64,
    rocblas_compute_type_f32_fast_xf32,
    rocblas_compute_type_f32_fast_f16,
    rocblas_compute_type_f32_fast_bf16,
    rocblas_compute_type_f32_fast_i8,
}

pub open spec fn compute_type_code(k: rocblas_compute_type) -> i32 {
    match k {
        rocblas_compute_type::rocblas_compute_type_f32 => 300,
        rocblas_compute_type::rocblas_compute_type_f64 => 301,
        rocblas_compute_type::rocblas_compute_type_f32_fast_xf32 => 302,
        rocblas_compute_type::rocblas_compute_type_f32_fast_f16 => 303,
        rocblas_compute_type::rocblas_compute_type_f32_fast_bf16 => 304,
        rocblas_compute_type::rocblas_compute_type_f32_fast_i8 => 305,
    }
}

impl rocblas_compute_type {
    /// The C value of the compute type.
    pub fn code(&self) -> (r: i32)
        ensures
            r == compute_type_code(*self),
    {
        match self {
            rocblas_compute_type::rocblas_compute_type_f32 => 300,
            rocblas_compute_type::rocblas_compute_type_f64 => 301,
            rocblas_compute_type::rocblas_compute_type_f32_fast_xf32 => 302,
            rocblas_compute_type::rocblas_compute_type_f32_fast_f16 => 303,
            rocblas_compute_type::rocblas_compute_type_f32_fast_bf16 => 304,
            rocblas_compute_type::rocblas_compute_type_f32_fast_i8 => 305,
        }
    }
}

/// Distinct directions have distinct C values, and each value reads back as its direction.
pub proof fn law_memcpy_kind_codes(a: hipMemcpyKind, b: hipMemcpyKind)
    ensures
        memcpy_kind_code(a) == memcpy_kind_code(b) ==> a == b,
        0 <= memcpy_kind_code(a) <= 3,
{
}

/// Stream creation flag: the default behaviour.
pub const HIP_STREAM_DEFAULT: u32 = 0;

/// Stream creation flag: no synchronisation with the null stream.
pub const HIP_STREAM_NON_BLOCKING: u32 = 1;

/// Event creation flag: the default, with timing.
pub const HIP_EVENT_DEFAULT: u32 = 0;

/// Event creation flag: `synchronize` blocks instead of spinning.
pub const HIP_EVENT_BLOCKING_SYNC: u32 = 1;

/// Event creation flag: no timing, cheaper for signalling.
pub const HIP_EVENT_DISABLE_TIMING: u32 = 2;

} // verus!
