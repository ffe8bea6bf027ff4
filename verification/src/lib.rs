//! Host-side logic of a HIP/ROCm runtime and tensor backend.
//!
//! Everything in this crate is plain computation: status-code handling,
//! launch geometry, kernel selection, layout bookkeeping and the byte
//! encoding of host tensors. The calls into the HIP driver, rocBLAS and
//! the kernel compiler are made by the surrounding application, which
//! hands the results back to the functions here.

pub mod dtype;
pub mod layout;
pub mod reduce;
pub mod convert;
pub mod text;
pub mod error;
pub mod hip_types;
pub mod device;
pub mod stream;
pub mod module;
pub mod memory;
pub mod rng;
pub mod blas;
pub mod plan;
pub mod index_plan;
pub mod matmul;
pub mod quant;
pub mod rocm_device;
pub mod backend;
mod half_bits;
