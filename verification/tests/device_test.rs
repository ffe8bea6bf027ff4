use hip_rocm::device::HipDevice;
use hip_rocm::error::{check_hip, check_rocblas, error_text, query_status, HipError, HIP_ERROR_NOT_READY, HIP_SUCCESS, ROCBLAS_STATUS_SUCCESS};
use hip_rocm::blas::{batch_count_arg, gemm_shape, RocBlas};
use hip_rocm::hip_types::{hipMemcpyKind, hiprandRngType_t, rocblas_compute_type, rocblas_datatype, rocblas_operation};
use hip_rocm::memory::{upload_copies, DeviceBuffer};
use hip_rocm::stream::{HipEvent, HipStream};

fn name_buffer(name: &str) -> Vec<u8> {
    let mut buf = vec![0u8; 256];
    buf[..name.len()].copy_from_slice(name.as_bytes());
    buf
}

#[test]
fn test_device_new() {
    let dev = HipDevice::new(0, HIP_SUCCESS, String::new()).expect("Failed to create device");
    assert_eq!(dev.ordinal(), 0);
}

#[test]
fn test_device_count() {
    let count = HipDevice::device_count(HIP_SUCCESS, String::new(), 1).expect("Failed to get device count");
    assert!(count >= 1);
}

#[test]
fn test_device_name() {
    let dev = HipDevice::new(0, HIP_SUCCESS, String::new()).unwrap();
    assert_eq!(dev.ordinal(), 0);
    let name = HipDevice::name(HIP_SUCCESS, String::new(), &name_buffer("AMD Radeon RX 5700 XT")).unwrap();
    assert!(!name.is_empty());
    assert_eq!(name, "AMD Radeon RX 5700 XT");
}

#[test]
fn test_device_memory() {
    let _dev = HipDevice::new(0, HIP_SUCCESS, String::new()).unwrap();
    let mem = HipDevice::total_memory(HIP_SUCCESS, String::new(), 8 * 1024 * 1024 * 1024).unwrap();
    assert!(mem > 1024 * 1024 * 1024, "Expected at least 1GB VRAM");
}

#[test]
fn test_device_synchronize() {
    let dev = HipDevice::new(0, HIP_SUCCESS, String::new()).unwrap();
    dev.synchronize(Ok(()), HIP_SUCCESS, String::new()).expect("Synchronize failed");
}

#[test]
fn test_hip_get_device_count() {
    let count = HipDevice::device_count(HIP_SUCCESS, String::new(), 2).expect("hipGetDeviceCount failed");
    assert!(count >= 1, "Expected at least 1 GPU, got {count}");
    assert_eq!(count, 2);
}

#[test]
fn test_hip_set_device() {
    assert!(check_hip(HIP_SUCCESS, String::new()).is_ok(), "hipSetDevice(0) failed");
    assert_eq!(HipDevice::device_id(0), 0);
}

#[test]
fn test_device_buffer_alloc() {
    let _dev = HipDevice::new(0, HIP_SUCCESS, String::new()).unwrap();
    let buf = DeviceBuffer::<f32>::allocated(1024, HIP_SUCCESS, String::new(), 0x7f00_0000).expect("alloc failed");
    assert_eq!(buf.len(), 1024);
    assert_eq!(buf.byte_size(), 1024 * 4);
}

#[test]
fn test_device_buffer_drop() {
    let _dev = HipDevice::new(0, HIP_SUCCESS, String::new()).unwrap();
    for i in 0..100usize {
        let addr = 0x7f00_0000 + i * 0x40_0000;
        let buf = DeviceBuffer::<f32>::allocated(1024 * 1024, HIP_SUCCESS, String::new(), addr).unwrap();
        assert_eq!(buf.byte_size(), 4 * 1024 * 1024);
        assert!(buf.needs_free());
    }
}

#[test]
fn test_rocblas_create_destroy() {
    let blas = RocBlas::new(ROCBLAS_STATUS_SUCCESS, 0x5000).unwrap();
    assert_ne!(blas.as_raw(), 0);
}

#[test]
fn device_errors_carry_code_and_text() {
    let e = HipDevice::new(3, 101, "invalid device ordinal".to_string()).unwrap_err();
    match e {
        HipError::HipRuntimeError { code, msg } => {
            assert_eq!(code, 101);
            assert_eq!(msg, "invalid device ordinal");
        }
        other => panic!("unexpected {other:?}"),
    }
    assert!(HipDevice::device_count(100, "no device".to_string(), 0).is_err());
}

#[test]
fn device_count_reinterprets_the_raw_count() {
    assert_eq!(HipDevice::device_count(HIP_SUCCESS, String::new(), 4).unwrap(), 4);
    assert_eq!(HipDevice::device_count(HIP_SUCCESS, String::new(), -1).unwrap(), usize::MAX);
}

#[test]
fn device_id_truncates_like_the_c_interface() {
    assert_eq!(HipDevice::device_id(7), 7);
    assert_eq!(HipDevice::device_id(0x1_0000_0002), 2);
}

#[test]
fn synchronize_reports_the_first_failure() {
    let dev = HipDevice::new(1, HIP_SUCCESS, String::new()).unwrap();
    let first = check_hip(101, "bad device".to_string());
    match dev.synchronize(first, HIP_SUCCESS, String::new()) {
        Err(HipError::HipRuntimeError { code, .. }) => assert_eq!(code, 101),
        other => panic!("unexpected {other:?}"),
    }
    match dev.synchronize(Ok(()), 719, "launch failure".to_string()) {
        Err(HipError::HipRuntimeError { code, msg }) => {
            assert_eq!(code, 719);
            assert_eq!(msg, "launch failure");
        }
        other => panic!("unexpected {other:?}"),
    }
}

#[test]
fn name_stops_at_the_first_nul_and_survives_a_full_buffer() {
    let mut buf = name_buffer("gfx1010");
    buf[9] = b'x';
    assert_eq!(HipDevice::name(HIP_SUCCESS, String::new(), &buf).unwrap(), "gfx1010");
    let full = vec![b'a'; 8];
    assert_eq!(HipDevice::name(HIP_SUCCESS, String::new(), &full).unwrap(), "aaaaaaaa");
    let bad = vec![0xff, b'b', 0];
    assert_eq!(HipDevice::name(HIP_SUCCESS, String::new(), &bad).unwrap(), "\u{FFFD}b");
    assert!(HipDevice::name(1, "invalid value".to_string(), &buf).is_err());
}

#[test]
fn mem_info_passes_both_counts() {
    assert_eq!(HipDevice::mem_info(HIP_SUCCESS, String::new(), 100, 200).unwrap(), (100, 200));
    assert!(HipDevice::mem_info(2, "out of memory".to_string(), 1, 2).is_err());
}

#[test]
fn status_checks() {
    assert!(check_hip(0, String::new()).is_ok());
    assert!(check_rocblas(0).is_ok());
    match check_rocblas(3) {
        Err(HipError::RocblasError { code }) => assert_eq!(code, 3),
        other => panic!("unexpected {other:?}"),
    }
    assert_eq!(error_text(None), "unknown error");
    assert_eq!(error_text(Some(b"out of memory".as_slice())), "out of memory");
    assert_eq!(error_text(Some(b"bad\xffbyte".as_slice())), "bad\u{fffd}byte");
    assert_eq!(error_text(Some(b"cut\0tail".as_slice())), "cut");
}

#[test]
fn error_messages() {
    let e = HipError::HipRuntimeError { code: 2, msg: "out of memory".to_string() };
    assert_eq!(e.message(), "HIP error 2: out of memory");
    let e = HipError::HipRuntimeError { code: -17, msg: "x".to_string() };
    assert_eq!(e.message(), "HIP error -17: x");
    let e = HipError::HipRuntimeError { code: i32::MIN, msg: "m".to_string() };
    assert_eq!(e.message(), "HIP error -2147483648: m");
    assert_eq!(HipError::RocblasError { code: 1003 }.message(), "rocBLAS error 1003");
    assert_eq!(HipError::KernelNotFound { name: "k".to_string() }.message(), "kernel not found: k");
    assert_eq!(HipError::KernelCompileFailed { msg: "boom".to_string() }.message(), "kernel compile failed: boom");
}

#[test]
fn completion_queries() {
    assert_eq!(query_status(HIP_SUCCESS, String::new()).unwrap(), true);
    assert_eq!(query_status(HIP_ERROR_NOT_READY, String::new()).unwrap(), false);
    assert!(query_status(400, "invalid handle".to_string()).is_err());
    let s = HipStream::new(HIP_SUCCESS, String::new(), 0x10).unwrap();
    assert_eq!(s.is_done(HIP_ERROR_NOT_READY, String::new()).unwrap(), false);
    let e = HipEvent::new(HIP_SUCCESS, String::new(), 0x20).unwrap();
    assert_eq!(e.is_complete(HIP_SUCCESS, String::new()).unwrap(), true);
}

#[test]
fn streams_and_events() {
    let s = HipStream::new(HIP_SUCCESS, String::new(), 0x1234).unwrap();
    assert_eq!(s.as_raw(), 0x1234);
    assert!(!s.is_null());
    assert!(s.needs_destroy());
    let d = HipStream::default();
    assert!(d.is_null());
    assert!(!d.needs_destroy());
    assert_eq!(HipStream::null(), 0);
    assert_eq!(HipStream::non_blocking(), 1);
    assert!(HipStream::new(1, "invalid value".to_string(), 0).is_err());

    let e = HipEvent::new(HIP_SUCCESS, String::new(), 0x99).unwrap();
    assert_eq!(e.as_raw(), 0x99);
    assert!(e.needs_destroy());
    let d = HipEvent::default();
    assert_eq!(d.as_raw(), 0);
    assert!(!d.needs_destroy());
    assert_eq!(HipEvent::signaling(), 2);
}

#[test]
fn device_buffers() {
    assert_eq!(DeviceBuffer::<u64>::byte_count(10), 80);
    let b = DeviceBuffer::<u8>::allocated(0, HIP_SUCCESS, String::new(), 0).unwrap();
    assert!(b.is_empty());
    assert!(!b.needs_free());
    let b = DeviceBuffer::<u16>::allocated(3, HIP_SUCCESS, String::new(), 0x40).unwrap();
    assert_eq!(b.byte_size(), 6);
    assert!(b.needs_free());
    let b = b.after_copy(HIP_SUCCESS, String::new()).unwrap();
    assert_eq!(b.as_raw(), 0x40);
    assert!(b.after_copy(1, "invalid value".to_string()).is_err());
    assert!(DeviceBuffer::<f32>::allocated(4, 2, "out of memory".to_string(), 0).is_err());
    assert!(!upload_copies(0));
    assert!(upload_copies(1));
}

#[test]
fn c_interface_codes() {
    assert_eq!(hipMemcpyKind::hipMemcpyHostToDevice.code(), 1);
    assert_eq!(hipMemcpyKind::hipMemcpyDeviceToDevice.code(), 3);
    assert_eq!(hipMemcpyKind::from_code(2), Some(hipMemcpyKind::hipMemcpyDeviceToHost));
    assert_eq!(hipMemcpyKind::from_code(4), None);
    assert_eq!(hiprandRngType_t::HIPRAND_RNG_PSEUDO_PHILOX4_32_10.code(), 408);
    assert_eq!(rocblas_operation::rocblas_operation_transpose.code(), 112);
    assert_eq!(rocblas_datatype::rocblas_datatype_bf16_r.code(), 168);
    assert_eq!(rocblas_compute_type::rocblas_compute_type_f32.code(), 300);
}

#[test]
fn gemm_arguments() {
    let g = gemm_shape(true, false, 2, 3, 4, 5, 6, 7);
    assert_eq!(g.op_a, rocblas_operation::rocblas_operation_transpose);
    assert_eq!(g.op_b, rocblas_operation::rocblas_operation_none);
    assert_eq!((g.m, g.n, g.k, g.lda, g.ldb, g.ldc), (2, 3, 4, 5, 6, 7));
    assert_eq!(batch_count_arg(12), 12);
    assert!(RocBlas::new(7, 0).is_err());
}
