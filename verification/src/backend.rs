//! Entry points of the backend crate: device creation and the device queries,
//! with runtime failures turned into backend errors that carry their text.

use vstd::prelude::*;
use crate::error::{Error, HipError, hip_error_text};
use crate::device::HipDevice;
use crate::blas::RocBlas;
use crate::module::spec_arch;
use crate::rocm_device::{RocmDevice, DEFAULT_RNG_SEED};

verus! {

/// A runtime result as a backend result: a failure becomes a message that is
/// the failure's text.
pub open spec fn spec_to_backend<T>(r: Result<T, HipError>, out: Result<T, Error>) -> bool {
    &&& r is Ok <==> out is Ok
    &&& r is Ok ==> out->Ok_0 == r->Ok_0
    &&& r is Err ==> out->Err_0.text() == hip_error_text(r->Err_0)
}

fn to_backend<T>(r: Result<T, HipError>) -> (out: Result<T, Error>)
    ensures
        spec_to_backend(r, out),
{
    match r {
        Ok(v) => Ok(v),
        Err(e) => {
            let x = Error::from_hip("", &e);
            proof {
                reveal_strlit("");
                assert(""@ + hip_error_text(e) =~= hip_error_text(e));
            }
            Err(x)
        },
    }
}

/// The ROCm device with the given ordinal, from the outcome of selecting the
/// GPU and (read only when that succeeded) of creating a BLAS handle.
pub fn device(
    ordinal: usize,
    hip: Result<HipDevice, HipError>,
    blas: Result<RocBlas, HipError>,
    kernel_dir_setting: Option<String>,
    default_kernel_dir: String,
    arch_setting: Option<String>,
) -> (r: Result<RocmDevice, Error>)
    ensures
        match hip {
            Err(e) => r matches Err(x) && x.text() == "HipDevice::new failed: "@ + hip_error_text(e),
            Ok(h) => match blas {
                Err(e) => r matches Err(x) && x.text() == "RocBlas::new failed: "@ + hip_error_text(e),
                Ok(b) => r matches Ok(d) && {
                    &&& d.spec_ordinal() == ordinal
                    &&& d.spec_device() == h
                    &&& d.spec_blas() == b
                    &&& d.spec_kernel_dir() == (match kernel_dir_setting {
                        Some(k) => k@,
                        None => default_kernel_dir@,
                    })
                    &&& d.spec_arch() == spec_arch(arch_setting)
                    &&& d.spec_seed() == DEFAULT_RNG_SEED
                    &&& d.spec_offset() == 0
                    &&& forall|n: Seq<char>| #[trigger] d.module(n) is None
                },
            },
        },
{
    let hip_device = match hip {
        Ok(d) => d,
        Err(e) => return Err(Error::from_hip("HipDevice::new failed: ", &e)),
    };
    let blas = match blas {
        Ok(b) => b,
        Err(e) => return Err(Error::from_hip("RocBlas::new failed: ", &e)),
    };
    Ok(RocmDevice::new(ordinal, hip_device, blas, kernel_dir_setting, default_kernel_dir, arch_setting))
}

/// Number of ROCm GPUs, from the runtime's count query.
pub fn device_count(count: Result<usize, HipError>) -> (r: Result<usize, Error>)
    ensures
        spec_to_backend(count, r),
{
    to_backend(count)
}

/// Name of a GPU, from selecting it and querying its name.
pub fn device_name(name: Result<String, HipError>) -> (r: Result<String, Error>)
    ensures
        spec_to_backend(name, r),
{
    to_backend(name)
}

/// Total VRAM of a GPU in bytes, from selecting it and querying its properties.
pub fn total_vram(total: Result<usize, HipError>) -> (r: Result<usize, Error>)
    ensures
        spec_to_backend(total, r),
{
    to_backend(total)
}

/// Free and total VRAM of a GPU in bytes, from selecting it and querying its
/// memory.
pub fn mem_info(info: Result<(usize, usize), HipError>) -> (r: Result<(usize, usize), Error>)
    ensures
        spec_to_backend(info, r),
{
    to_backend(info)
}

/// Whether at least one ROCm GPU is available: the device count is known and
/// positive.
pub fn is_available(count: Result<usize, Error>) -> (r: bool)
    ensures
        r == (count matches Ok(c) && c > 0),
{
    match count {
        Ok(c) => c > 0,
        Err(_) => false,
    }
}

} // verus!
