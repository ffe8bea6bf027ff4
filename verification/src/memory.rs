//! Typed device buffers, held by their device address and element count.

use vstd::prelude::*;
use core::marker::PhantomData;
use crate::error::{HipError, check_hip, spec_check_hip};

verus! {

/// Whether `len` elements of `T` have a byte size that fits in a `usize`.
pub open spec fn byte_size_fits<T>(len: usize) -> bool {
    len * vstd::layout::size_of::<T>() <= usize::MAX
}

/// A device allocation of `len` elements of `T`. The address 0 stands for
/// no allocation, which is never freed.
pub struct DeviceBuffer<T> {
    ptr: usize,
    len: usize,
    marker: PhantomData<T>,
}

impl<T> DeviceBuffer<T> {
    #[verifier::type_invariant]
    spec fn inv(&self) -> bool {
        byte_size_fits::<T>(self.len)
    }

    pub closed spec fn address(&self) -> usize {
        self.ptr
    }

    pub closed spec fn spec_len(&self) -> usize {
        self.len
    }

    /// Number of bytes that `len` elements of `T` occupy.
    pub fn byte_count(len: usize) -> (r: usize)
        requires
            byte_size_fits::<T>(len),
        ensures
            r == len * vstd::layout::size_of::<T>(),
    {
        len * core::mem::size_of::<T>()
    }

    /// The buffer that `hipMalloc` of `len` elements produced, given the
    /// status it answered and the address it wrote.
    pub fn allocated(len: usize, code: i32, msg: String, ptr: usize) -> (r: Result<DeviceBuffer<T>, HipError>)
        requires
            byte_size_fits::<T>(len),
        ensures
            match spec_check_hip(code, msg) {
                Ok(_) => r matches Ok(b) && b.address() == ptr && b.spec_len() == len,
                Err(e) => r == Err::<DeviceBuffer<T>, HipError>(e),
            },
    {
        match check_hip(code, msg) {
            Ok(()) => Ok(DeviceBuffer { ptr, len, marker: PhantomData }),
            Err(e) => Err(e),
        }
    }

    /// Outcome of a copy into or out of a buffer that was already allocated:
    /// the buffer itself when the copy's status is success.
    pub fn after_copy(self, code: i32, msg: String) -> (r: Result<DeviceBuffer<T>, HipError>)
        ensures
            match spec_check_hip(code, msg) {
                Ok(_) => r matches Ok(b) && b.address() == self.address() && b.spec_len() == self.spec_len(),
                Err(e) => r == Err::<DeviceBuffer<T>, HipError>(e),
            },
    {
        match check_hip(code, msg) {
            Ok(()) => Ok(self),
            Err(e) => Err(e),
        }
    }

    /// Number of elements.
    pub fn len(&self) -> (r: usize)
        ensures
            r == self.spec_len(),
    {
        self.len
    }

    /// Whether the buffer holds no element.
    pub fn is_empty(&self) -> (r: bool)
        ensures
            r == (self.spec_len() == 0),
    {
        self.len == 0
    }

    /// Size of the buffer in bytes.
    pub fn byte_size(&self) -> (r: usize)
        ensures
            r == self.spec_len() * vstd::layout::size_of::<T>(),
    {
        proof {
            use_type_invariant(self);
        }
        self.len * core::mem::size_of::<T>()
    }

    /// The device address.
    pub fn as_raw(&self) -> (r: usize)
        ensures
            r == self.address(),
    {
        self.ptr
    }

    /// Whether dropping the buffer must free device memory.
    pub fn needs_free(&self) -> (r: bool)
        ensures
            r == (self.address() != 0),
    {
        self.ptr != 0
    }
}

/// Whether uploading `len` host bytes needs a copy at all: empty uploads
/// allocate and copy nothing.
pub fn upload_copies(len: usize) -> (r: bool)
    ensures
        r == (len > 0),
{
    len > 0
}

} // verus!
