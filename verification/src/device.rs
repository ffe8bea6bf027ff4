//! GPU device selection and the queries the runtime answers about a device.

use vstd::prelude::*;
use crate::error::{HipError, check_hip, spec_check_hip};
use crate::text::{c_string_text, c_string_bytes, utf8_lossy};

verus! {

/// A GPU, identified by its ordinal.
#[derive(Clone, Debug)]
pub struct HipDevice {
    ordinal: usize,
}

impl HipDevice {
    pub closed spec fn spec_ordinal(&self) -> usize {
        self.ordinal
    }

    /// The device id that the runtime's C interface takes for an ordinal.
    pub fn device_id(ordinal: usize) -> (r: i32)
        ensures
            r == ordinal as i32,
    {
        ordinal as i32
    }

    /// The device with the given ordinal, once `hipSetDevice` on its id
    /// answered `code` (with `msg` as the runtime's text for the code).
    pub fn new(ordinal: usize, code: i32, msg: String) -> (r: Result<HipDevice, HipError>)
        ensures
            match spec_check_hip(code, msg) {
                Ok(_) => r matches Ok(d) && d.spec_ordinal() == ordinal,
                Err(e) => r == Err::<HipDevice, HipError>(e),
            },
    {
        match check_hip(code, msg) {
            Ok(()) => Ok(HipDevice { ordinal }),
            Err(e) => Err(e),
        }
    }

    /// Ordinal of the device.
    pub fn ordinal(&self) -> (r: usize)
        ensures
            r == self.spec_ordinal(),
    {
        self.ordinal
    }

    /// Outcome of synchronising the device: the failure of making it current
    /// if that failed, otherwise what `hipDeviceSynchronize` answered.
    pub fn synchronize(&self, set_current: Result<(), HipError>, code: i32, msg: String) -> (r: Result<(), HipError>)
        ensures
            r == match set_current {
                Err(e) => Err(e),
                Ok(_) => spec_check_hip(code, msg),
            },
    {
        match set_current {
            Err(e) => Err(e),
            Ok(()) => check_hip(code, msg),
        }
    }

    /// Number of devices, from what `hipGetDeviceCount` answered: its status
    /// and the count it wrote.
    pub fn device_count(code: i32, msg: String, count: i32) -> (r: Result<usize, HipError>)
        ensures
            match spec_check_hip(code, msg) {
                Ok(_) => r == Ok::<usize, HipError>(count as usize),
                Err(e) => r == Err::<usize, HipError>(e),
            },
    {
        match check_hip(code, msg) {
            Ok(()) => Ok(count as usize),
            Err(e) => Err(e),
        }
    }

    /// Name of the device, from what `hipGetDeviceProperties` answered: its
    /// status and the fixed name buffer of the properties.
    pub fn name(code: i32, msg: String, name_buf: &[u8]) -> (r: Result<String, HipError>)
        ensures
            match spec_check_hip(code, msg) {
                Ok(_) => r matches Ok(s) && s@ == utf8_lossy(c_string_bytes(name_buf@)),
                Err(e) => r == Err::<String, HipError>(e),
            },
    {
        match check_hip(code, msg) {
            Ok(()) => Ok(c_string_text(name_buf)),
            Err(e) => Err(e),
        }
    }

    /// Global memory of the device in bytes, from what
    /// `hipGetDeviceProperties` answered.
    pub fn total_memory(code: i32, msg: String, total_global_mem: usize) -> (r: Result<usize, HipError>)
        ensures
            match spec_check_hip(code, msg) {
                Ok(_) => r == Ok::<usize, HipError>(total_global_mem),
                Err(e) => r == Err::<usize, HipError>(e),
            },
    {
        match check_hip(code, msg) {
            Ok(()) => Ok(total_global_mem),
            Err(e) => Err(e),
        }
    }

    /// Free and total device memory in bytes, from what `hipMemGetInfo` answered.
    pub fn mem_info(code: i32, msg: String, free: usize, total: usize) -> (r: Result<(usize, usize), HipError>)
        ensures
            match spec_check_hip(code, msg) {
                Ok(_) => r == Ok::<(usize, usize), HipError>((free, total)),
                Err(e) => r == Err::<(usize, usize), HipError>(e),
            },
    {
        match check_hip(code, msg) {
            Ok(()) => Ok((free, total)),
            Err(e) => Err(e),
        }
    }
}

} // verus!
