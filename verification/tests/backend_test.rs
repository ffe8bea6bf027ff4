use hip_rocm::backend::{device, device_count, device_name, is_available, mem_info, total_vram};
use hip_rocm::blas::RocBlas;
use hip_rocm::convert::{bytes_to_cpu_storage, cpu_storage_to_bytes, CpuStorage};
use hip_rocm::device::HipDevice;
use hip_rocm::dtype::{dtype_suffix, DType};
use hip_rocm::error::{Error, HipError, HIP_SUCCESS};
use hip_rocm::layout::Layout;
use hip_rocm::memory::DeviceBuffer;
use hip_rocm::module::HipModule;
use hip_rocm::rocm_device::{DeviceLocation, ModuleStep, RocmDevice, RocmStorage};

fn hip_err(code: i32, msg: &str) -> HipError {
    HipError::HipRuntimeError { code, msg: msg.to_string() }
}

fn new_device(ordinal: usize) -> RocmDevice {
    device(
        ordinal,
        HipDevice::new(ordinal, HIP_SUCCESS, String::new()),
        RocBlas::new(0, 0x10),
        None,
        "/opt/kernels".to_string(),
        None,
    )
    .unwrap()
}

#[test]
fn backend_queries_map_errors_to_messages() {
    assert_eq!(device_count(Ok(2)).unwrap(), 2);
    match device_count(Err(hip_err(100, "no ROCm-capable device is detected"))) {
        Err(Error::Msg(m)) => assert_eq!(m, "HIP error 100: no ROCm-capable device is detected"),
        other => panic!("unexpected {other:?}"),
    }
    assert_eq!(device_name(Ok("gfx".to_string())).unwrap(), "gfx");
    assert_eq!(total_vram(Ok(17)).unwrap(), 17);
    assert_eq!(mem_info(Ok((1, 2))).unwrap(), (1, 2));
    match mem_info(Err(HipError::RocblasError { code: 3 })) {
        Err(e) => assert_eq!(e.message(), "rocBLAS error 3"),
        other => panic!("unexpected {other:?}"),
    }
}

#[test]
fn availability_needs_a_positive_count() {
    assert!(is_available(Ok(1)));
    assert!(!is_available(Ok(0)));
    assert!(!is_available(Err(Error::Msg("x".to_string()))));
}

#[test]
fn device_creation() {
    let d = new_device(1);
    assert_eq!(d.ordinal(), 1);
    assert_eq!(d.location(), DeviceLocation::Rocm { gpu_id: 1 });
    assert_eq!(d.kernel_dir(), "/opt/kernels");
    assert_eq!(d.arch(), "gfx1010");
    assert_eq!(d.current_seed(), 299792458);
    assert!(d.same_device(&new_device(1)));
    assert!(!d.same_device(&new_device(0)));
    let e = device(0, Err(hip_err(101, "invalid device ordinal")), Err(hip_err(101, "invalid device ordinal")), None, String::new(), None)
        .err()
        .unwrap();
    assert_eq!(e.message(), "HipDevice::new failed: HIP error 101: invalid device ordinal");
    let e = device(0, HipDevice::new(0, 0, String::new()), RocBlas::new(1, 0), None, String::new(), None).err().unwrap();
    assert_eq!(e.message(), "RocBlas::new failed: rocBLAS error 1");
    let d = device(0, HipDevice::new(0, 0, String::new()), RocBlas::new(0, 1), Some("/k".to_string()), String::new(), Some("gfx1100".to_string())).unwrap();
    assert_eq!(d.kernel_dir(), "/k");
    assert_eq!(d.arch(), "gfx1100");
}

#[test]
fn device_module_cache() {
    let mut d = new_device(0);
    assert!(d.module_handles().is_empty());
    assert_eq!(d.module_step("affine", false), ModuleStep::CompileThenLoad);
    assert_eq!(d.module_step("affine", true), ModuleStep::Load);
    d.add_module("affine", HipModule::load(HIP_SUCCESS, String::new(), 0x77).unwrap());
    assert!(d.has_module("affine"));
    assert!(!d.has_module("unary"));
    assert_eq!(d.module_step("affine", false), ModuleStep::Ready);
    assert_eq!(d.module_handle("affine"), Some(0x77));
    assert_eq!(d.module_handle("unary"), None);
    d.add_module("unary", HipModule::load(HIP_SUCCESS, String::new(), 0x88).unwrap());
    assert_eq!(d.module_handles(), vec![0x77, 0x88]);
    assert_eq!(d.cached_kernel("affine", "affine_f32"), None);
    assert_eq!(d.resolve_kernel("affine", "affine_f32", HIP_SUCCESS, String::new(), 5).unwrap(), 5);
    assert_eq!(d.cached_kernel("affine", "affine_f32"), Some(5));
    assert_eq!(d.cached_kernel("unary", "affine_f32"), None);
    assert!(d.resolve_kernel("affine", "nope", 500, "not found".to_string(), 0).is_err());
    assert_eq!(d.cached_kernel("affine", "nope"), None);
}

#[test]
fn device_seed_and_sync() {
    let mut d = new_device(0);
    d.set_seed(7).unwrap();
    assert_eq!(d.current_seed(), 7);
    assert!(d.synchronize(Ok(())).is_ok());
    let e = d.synchronize(Err(hip_err(719, "launch failure"))).err().unwrap();
    assert_eq!(e.message(), "synchronize failed: HIP error 719: launch failure");
}

#[test]
fn storage_element_count() {
    let buf = DeviceBuffer::<u8>::allocated(12, HIP_SUCCESS, String::new(), 0x100).unwrap();
    let s = RocmStorage::new(buf, DType::F32);
    assert_eq!(s.elem_count(), 3);
    assert_eq!(s.dtype(), DType::F32);
    assert_eq!(s.as_ptr(), 0x100);
    let buf = DeviceBuffer::<u8>::allocated(10, HIP_SUCCESS, String::new(), 0x100).unwrap();
    assert_eq!(RocmStorage::new(buf, DType::I64).elem_count(), 1);
}

#[test]
fn dtype_sizes_and_suffixes() {
    assert_eq!(DType::BF16.size_in_bytes(), 2);
    assert_eq!(DType::I64.size_in_bytes(), 8);
    assert_eq!(dtype_suffix(DType::F32), "f32");
    assert_eq!(dtype_suffix(DType::BF16), "bf16");
}

#[test]
fn layouts() {
    let l = Layout::contiguous(vec![2, 3, 4]);
    assert_eq!(l.stride, vec![12, 4, 1]);
    assert_eq!(l.elem_count(), 24);
    assert!(l.is_contiguous());
    let t = Layout::new(vec![3, 2], vec![1, 3], 0);
    assert!(!t.is_contiguous());
    assert_eq!(t.elem_count(), 6);
    let b = Layout::new(vec![1, 4], vec![99, 1], 5);
    assert!(b.is_contiguous());
    let e = Layout::contiguous(vec![]);
    assert_eq!(e.elem_count(), 1);
    assert!(e.is_contiguous());
}

#[test]
fn host_storage_to_bytes() {
    let (b, d) = cpu_storage_to_bytes(CpuStorage::U32(vec![1, 0x0102_0304]));
    assert_eq!(d, DType::U32);
    assert_eq!(b, vec![1, 0, 0, 0, 4, 3, 2, 1]);
    let (b, d) = cpu_storage_to_bytes(CpuStorage::I64(vec![-2]));
    assert_eq!(d, DType::I64);
    assert_eq!(b, (-2i64).to_le_bytes().to_vec());
    let (b, _) = cpu_storage_to_bytes(CpuStorage::F32(vec![1.5f32.to_bits()]));
    assert_eq!(b, 1.5f32.to_le_bytes().to_vec());
    let (b, _) = cpu_storage_to_bytes(CpuStorage::F64(vec![(-0.25f64).to_bits()]));
    assert_eq!(b, (-0.25f64).to_le_bytes().to_vec());
    let one_bf16 = half::bf16::from_f32(1.0);
    let (b, d) = cpu_storage_to_bytes(CpuStorage::BF16(vec![one_bf16.to_bits()]));
    assert_eq!(d, DType::BF16);
    assert_eq!(b, one_bf16.to_le_bytes().to_vec());
    assert_eq!(b, vec![0x80, 0x3f]);
    let (b, _) = cpu_storage_to_bytes(CpuStorage::F16(vec![0x3c00]));
    assert_eq!(b, vec![0x00, 0x3c]);
    let (b, d) = cpu_storage_to_bytes(CpuStorage::U8(vec![9, 8]));
    assert_eq!((b, d), (vec![9, 8], DType::U8));
}

#[test]
fn bytes_to_host_storage() {
    match bytes_to_cpu_storage(&[1, 0, 0, 0, 4, 3, 2, 1, 7], DType::U32) {
        CpuStorage::U32(v) => assert_eq!(v, vec![1, 0x0102_0304]),
        other => panic!("unexpected {other:?}"),
    }
    match bytes_to_cpu_storage(&(-5i64).to_le_bytes(), DType::I64) {
        CpuStorage::I64(v) => assert_eq!(v, vec![-5]),
        other => panic!("unexpected {other:?}"),
    }
    match bytes_to_cpu_storage(&[0x80, 0x3f, 0x00], DType::BF16) {
        CpuStorage::BF16(v) => assert_eq!(v, vec![half::bf16::from_f32(1.0).to_bits()]),
        other => panic!("unexpected {other:?}"),
    }
    match bytes_to_cpu_storage(&2.5f64.to_le_bytes(), DType::F64) {
        CpuStorage::F64(v) => assert_eq!(f64::from_bits(v[0]), 2.5),
        other => panic!("unexpected {other:?}"),
    }
    match bytes_to_cpu_storage(&[1, 2, 3], DType::U8) {
        CpuStorage::U8(v) => assert_eq!(v, vec![1, 2, 3]),
        other => panic!("unexpected {other:?}"),
    }
}

#[test]
fn host_storage_round_trips_through_bytes() {
    let cases = vec![
        CpuStorage::U32(vec![0, 1, u32::MAX]),
        CpuStorage::I64(vec![i64::MIN, -1, 0, i64::MAX]),
        CpuStorage::BF16(vec![0, 0x3f80, 0xffff]),
        CpuStorage::F16(vec![0x3c00, 0x8001]),
        CpuStorage::F32(vec![3.25f32.to_bits()]),
        CpuStorage::F64(vec![(-1e300f64).to_bits(), 0]),
        CpuStorage::U8(vec![0, 255]),
    ];
    for s in cases {
        let before = format!("{s:?}");
        let (bytes, dtype) = cpu_storage_to_bytes(s);
        let back = bytes_to_cpu_storage(&bytes, dtype);
        assert_eq!(format!("{back:?}"), before);
    }
}
