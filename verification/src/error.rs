//! Status codes of the HIP runtime and rocBLAS, and the errors they become.

use vstd::prelude::*;
use crate::text::{decimal, append_decimal, append_decimal_nat, c_string_bytes, c_string_text, utf8_lossy};

verus! {

/// Status that HIP calls return on success.
pub const HIP_SUCCESS: i32 = 0;

/// Status that stream and event queries return while work is still pending.
pub const HIP_ERROR_NOT_READY: i32 = 600;

/// Status that rocBLAS calls return on success.
pub const ROCBLAS_STATUS_SUCCESS: i32 = 0;

/// Status that hipRAND calls return on success.
pub const HIPRAND_STATUS_SUCCESS: i32 = 0;

/// Failure of a HIP runtime, rocBLAS or kernel-compilation step.
#[derive(Clone, Debug)]
pub enum HipError {
    HipRuntimeError { code: i32, msg: String },
    RocblasError { code: i32 },
    KernelNotFound { name: String },
    KernelCompileFailed { msg: String },
}

/// The text by which an error presents itself.
pub open spec fn hip_error_text(e: HipError) -> Seq<char> {
    match e {
        HipError::HipRuntimeError { code, msg } => "HIP error "@ + decimal(code as int) + ": "@ + msg@,
        HipError::RocblasError { code } => "rocBLAS error "@ + decimal(code as int),
        HipError::KernelNotFound { name } => "kernel not found: "@ + name@,
        HipError::KernelCompileFailed { msg } => "kernel compile failed: "@ + msg@,
    }
}

impl HipError {
    /// The error's text, such as `HIP error 2: out of memory`.
    pub fn message(&self) -> (r: String)
        ensures
            r@ == hip_error_text(*self),
    {
        match self {
            HipError::HipRuntimeError { code, msg } => {
                let mut s = String::from_str("HIP error ");
                append_decimal(&mut s, *code as i64);
                s.append(": ");
                s.append(msg.as_str());
                s
            },
            HipError::RocblasError { code } => {
                let mut s = String::from_str("rocBLAS error ");
                append_decimal(&mut s, *code as i64);
                s
            },
            HipError::KernelNotFound { name } => {
                let mut s = String::from_str("kernel not found: ");
                s.append(name.as_str());
                s
            },
            HipError::KernelCompileFailed { msg } => {
                let mut s = String::from_str("kernel compile failed: ");
                s.append(msg.as_str());
                s
            },
        }
    }
}

/// The runtime's description of a status, from the bytes of the C string it
/// gives (decoded as UTF-8 with invalid sequences replaced), or
/// `unknown error` when it gives none.
pub open spec fn spec_error_text(description: Option<Seq<u8>>) -> Seq<char> {
    match description {
        Some(b) => utf8_lossy(c_string_bytes(b)),
        None => "unknown error"@,
    }
}

/// Message for a failed HIP call from the runtime's description of the
/// status: the bytes of its C string, or `None` when the runtime has no
/// description for it.
pub fn error_text(description: Option<&[u8]>) -> (r: String)
    ensures
        r@ == spec_error_text(match description {
            Some(b) => Some(b@),
            None => None,
        }),
{
    match description {
        Some(b) => c_string_text(b),
        None => String::from_str("unknown error"),
    }
}

/// The outcome that a HIP status code stands for.
pub open spec fn spec_check_hip(code: i32, msg: String) -> Result<(), HipError> {
    if code == HIP_SUCCESS {
        Ok(())
    } else {
        Err(HipError::HipRuntimeError { code, msg })
    }
}

/// Turns a HIP status code into a result; `msg` is the runtime's text for the code.
pub fn check_hip(code: i32, msg: String) -> (r: Result<(), HipError>)
    ensures
        r == spec_check_hip(code, msg),
{
    if code == HIP_SUCCESS {
        Ok(())
    } else {
        Err(HipError::HipRuntimeError { code, msg })
    }
}

/// Turns a rocBLAS status code into a result.
pub fn check_rocblas(code: i32) -> (r: Result<(), HipError>)
    ensures
        r is Ok <==> code == ROCBLAS_STATUS_SUCCESS,
        code != ROCBLAS_STATUS_SUCCESS ==> r == Err::<(), HipError>(HipError::RocblasError { code }),
{
    if code == ROCBLAS_STATUS_SUCCESS {
        Ok(())
    } else {
        Err(HipError::RocblasError { code })
    }
}

/// The answer to a non-blocking completion query (of a stream or an event)
/// with status `code`: done, still pending, or failed.
pub open spec fn spec_query(code: i32, msg: String) -> Result<bool, HipError> {
    if code == HIP_SUCCESS {
        Ok(true)
    } else if code == HIP_ERROR_NOT_READY {
        Ok(false)
    } else {
        Err(HipError::HipRuntimeError { code, msg })
    }
}

/// Reads the status of a completion query: `Ok(true)` when the work is done,
/// `Ok(false)` while it is pending, the error otherwise.
pub fn query_status(code: i32, msg: String) -> (r: Result<bool, HipError>)
    ensures
        r == spec_query(code, msg),
{
    if code == HIP_SUCCESS {
        Ok(true)
    } else if code == HIP_ERROR_NOT_READY {
        Ok(false)
    } else {
        match check_hip(code, msg) {
            Ok(()) => Ok(false),
            Err(e) => Err(e),
        }
    }
}

/// Error of the tensor backend.
#[derive(Clone, Debug)]
pub enum Error {
    Msg(String),
    /// A tensor had another number of dimensions than an operation takes.
    UnexpectedRank { expected: usize, got: usize },
}

impl Error {
    /// The message of the error.
    pub open spec fn text(self) -> Seq<char> {
        match self {
            Error::Msg(s) => s@,
            Error::UnexpectedRank { expected, got } => "unexpected rank, expected: "@ + decimal(expected as int)
                + ", got: "@ + decimal(got as int),
        }
    }

    /// A backend error whose message is `context` followed by the text of `e`.
    pub fn from_hip(context: &str, e: &HipError) -> (r: Error)
        ensures
            r.text() == context@ + hip_error_text(*e),
    {
        let mut s = String::from_str(context);
        let m = e.message();
        s.append(m.as_str());
        Error::Msg(s)
    }

    /// The message of the error.
    pub fn message(&self) -> (r: String)
        ensures
            r@ == self.text(),
    {
        match self {
            Error::Msg(s) => s.clone(),
            Error::UnexpectedRank { expected, got } => {
                let mut s = String::from_str("unexpected rank, expected: ");
                append_decimal_nat(&mut s, *expected as u64);
                s.append(", got: ");
                append_decimal_nat(&mut s, *got as u64);
                s
            },
        }
    }
}

} // verus!
