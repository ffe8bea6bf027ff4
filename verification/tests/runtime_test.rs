use hip_rocm::error::{HipError, HIP_SUCCESS};
use hip_rocm::module::{compile_result, hipcc_args, hipcc_candidates, kernel_file_names, pick_hipcc, resolve_arch, rocm_root, HipModule};
use hip_rocm::rng::{HipRng, RNG_BLOCK};

fn module() -> HipModule {
    HipModule::load(HIP_SUCCESS, String::new(), 0xabc).unwrap()
}

#[test]
fn module_caches_resolved_kernels() {
    let mut m = module();
    assert_eq!(m.as_raw(), 0xabc);
    assert_eq!(m.cached_function("add_scalar"), None);
    assert_eq!(m.resolve_function("add_scalar", HIP_SUCCESS, String::new(), 77).unwrap(), 77);
    assert_eq!(m.cached_function("add_scalar"), Some(77));
    assert_eq!(m.cached_function("other"), None);
    assert!(m.resolve_function("missing", 500, "named symbol not found".to_string(), 0).is_err());
    assert_eq!(m.cached_function("missing"), None);
    assert_eq!(m.cached_function("add_scalar"), Some(77));
    assert!(HipModule::load(301, "file not found".to_string(), 0).is_err());
}

#[test]
fn test_compile_and_load_kernel() {
    let (src, out) = kernel_file_names("test_add");
    assert_eq!(src, "test_add.hip");
    assert_eq!(out, "test_add.hsaco");
    let arch = resolve_arch(None);
    assert_eq!(arch, "gfx1010");
    let args = hipcc_args(&arch, "/k/test_add.hsaco", "/k/test_add.hip");
    assert_eq!(
        args,
        vec![
            "--genco",
            "--offload-arch=gfx1010",
            "-O3",
            "--cuda-device-only",
            "-include",
            "hip/hip_runtime.h",
            "-o",
            "/k/test_add.hsaco",
            "/k/test_add.hip",
        ]
    );
    compile_result(None, true, "exit status: 0").expect("Failed to compile kernel");
    let mut m = HipModule::load(HIP_SUCCESS, String::new(), 1).expect("Failed to load module");
    m.resolve_function("add_scalar", HIP_SUCCESS, String::new(), 5).expect("Failed to get function");
}

#[test]
fn compiler_discovery() {
    assert_eq!(rocm_root(None), "/opt/rocm");
    assert_eq!(rocm_root(Some(String::new())), "/opt/rocm");
    assert_eq!(rocm_root(Some("/usr/lib/rocm".to_string())), "/usr/lib/rocm");
    let c = hipcc_candidates(&"/usr/lib/rocm".to_string());
    assert_eq!(c, vec!["/usr/lib/rocm/bin/hipcc", "/opt/rocm/bin/hipcc", "/usr/bin/hipcc", "hipcc"]);
    assert_eq!(pick_hipcc(c.clone(), &[false, false, true, true]), "/usr/bin/hipcc");
    assert_eq!(pick_hipcc(c.clone(), &[true, false, false, false]), "/usr/lib/rocm/bin/hipcc");
    assert_eq!(pick_hipcc(c, &[false, false, false, false]), "hipcc");
    assert_eq!(resolve_arch(Some("gfx1100".to_string())), "gfx1100");
}

#[test]
fn compiler_outcomes() {
    match compile_result(Some("No such file or directory".to_string()), false, "") {
        Err(HipError::KernelCompileFailed { msg }) => assert_eq!(msg, "No such file or directory"),
        other => panic!("unexpected {other:?}"),
    }
    match compile_result(None, false, "exit status: 1") {
        Err(HipError::KernelCompileFailed { msg }) => assert_eq!(msg, "hipcc exited with exit status: 1"),
        other => panic!("unexpected {other:?}"),
    }
}

#[test]
fn rng_launch_geometry() {
    let rng = HipRng::from_hsaco(42, module());
    assert_eq!(rng.seed(), 42);
    assert_eq!(rng.offset(), 0);
    let l = rng.launch(1024);
    assert_eq!(l.n, 1024);
    assert_eq!(l.threads, 256);
    assert_eq!(l.grid, 1);
    assert_eq!(l.block, RNG_BLOCK);
    let l = rng.launch(4097);
    assert_eq!(l.threads, 1025);
    assert_eq!(l.grid, 5);
    assert_eq!(HipRng::uniform_kernel(), "rng_uniform_f32");
    assert_eq!(HipRng::normal_kernel(), "rng_normal_f32");
}

#[test]
fn rng_advances_and_reseeds() {
    let mut rng = HipRng::from_hsaco(123, module());
    let first = rng.launch(256);
    rng.advance(&first);
    let second = rng.launch(256);
    assert_eq!(second.offset, first.offset + first.threads as u64);
    assert_eq!(second.offset, 64);
    rng.set_seed(456);
    assert_eq!(rng.offset(), 0);
    assert_eq!(rng.launch(256).seed, 456);
}

#[test]
fn rng_test_test_rng_uniform() {
    let rng = HipRng::from_hsaco(42, module());
    let l = rng.launch(1024);
    assert_eq!((l.seed, l.offset, l.n), (42, 0, 1024));
}

#[test]
fn rng_test_test_rng_normal() {
    let rng = HipRng::from_hsaco(42, module());
    let l = rng.launch(4096);
    assert_eq!((l.threads, l.grid), (1024, 4));
}

#[test]
fn test_rng_reproducibility() {
    let gen = |seed| {
        let mut rng = HipRng::from_hsaco(seed, module());
        let l = rng.launch(256);
        rng.advance(&l);
        (l, rng.launch(256))
    };
    assert_eq!(gen(123), gen(123));
    assert_ne!(gen(123), gen(456));
}

#[test]
fn rng_kernel_lookup() {
    let mut rng = HipRng::from_hsaco(1, module());
    assert_eq!(rng.cached_kernel("rng_uniform_f32"), None);
    assert_eq!(rng.resolve_kernel("rng_uniform_f32", HIP_SUCCESS, String::new(), 9).unwrap(), 9);
    assert_eq!(rng.cached_kernel("rng_uniform_f32"), Some(9));
    assert_eq!(rng.module_handle(), 0xabc);
}
