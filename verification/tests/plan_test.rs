use hip_rocm::dtype::DType;
use hip_rocm::index_plan::{gather_plan, index_add_plan, index_select_plan, scatter_add_plan, AccumulatePlan, SelectPlan};
use hip_rocm::layout::Layout;
use hip_rocm::matmul::{matmul_plan, MatmulPlan, Operand};
use hip_rocm::plan::{
    affine_plan, binary_plan, clone_plan, cmp_plan, copy2d_plan, copy_strided_plan, elu_plan, launch_cfg, ones_plan, powf_plan,
    storage_byte_size, to_dtype_plan, unary_plan, upload_binary_info, upload_info, where_cond_plan, CastPlan, CloneStep, CmpOp,
    Copy2dPlan, CopyPlan, MapPlan, OnesPlan, WherePlan, ZipPlan,
};
use hip_rocm::quant::{dequant_to_gpu, dims2, fp8_gemm_f16, DequantPlan, GgmlDType};
use hip_rocm::reduce::{reduce_info, reduce_plan, ReduceOp, ReducePlan};

fn contiguous(d: &[usize]) -> Layout {
    Layout::contiguous(d.to_vec())
}

#[test]
fn launch_configuration() {
    assert_eq!(launch_cfg(0), (1, 256));
    assert_eq!(launch_cfg(1), (1, 256));
    assert_eq!(launch_cfg(256), (1, 256));
    assert_eq!(launch_cfg(257), (2, 256));
    assert_eq!(launch_cfg(1 << 20), (4096, 256));
}

#[test]
fn layout_data_for_kernels() {
    let c = contiguous(&[2, 3]);
    let t = Layout::new(vec![3, 2], vec![1, 3], 0);
    assert_eq!(upload_info(&c), None);
    assert_eq!(upload_info(&t), Some(vec![3, 2, 1, 3]));
    assert_eq!(upload_binary_info(&c, &c), None);
    assert_eq!(upload_binary_info(&t, &c), Some(vec![3, 2, 1, 3, 3, 1]));
}

#[test]
fn reduce_dimension_split() {
    let l = contiguous(&[2, 3, 4]);
    let (info, out, red) = reduce_info(&l, &[1]);
    assert_eq!(info, vec![2, 4, 3, 12, 1, 4]);
    assert_eq!((out, red), (8, 3));
    assert_eq!(out * red, l.elem_count());
    let (info, out, red) = reduce_info(&l, &[0, 2]);
    assert_eq!(info, vec![3, 2, 4, 4, 12, 1]);
    assert_eq!((out, red), (3, 8));
    assert_eq!(info.len(), 2 * l.rank());
    assert_eq!(reduce_info(&l, &[2, 0, 2, 7]), (info, out, red));
    let (info, out, red) = reduce_info(&l, &[]);
    assert_eq!(info, vec![2, 3, 4, 12, 4, 1]);
    assert_eq!((out, red), (24, 1));
    let (_, out, red) = reduce_info(&l, &[0, 1, 2]);
    assert_eq!((out, red), (1, 24));
    let z = contiguous(&[0, 5]);
    let (_, out, red) = reduce_info(&z, &[1]);
    assert_eq!((out, red), (1, 5));
}

#[test]
fn test_reduce_sum_f32() {
    let l = contiguous(&[4, 64]);
    match reduce_plan(DType::F32, ReduceOp::Sum, &l, &[1]) {
        ReducePlan::Gpu(g) => {
            assert_eq!(g.launch.module, "reduce");
            assert_eq!(g.launch.function, "fast_sum_f32");
            assert_eq!((g.launch.grid_x, g.launch.block_x, g.launch.shared_mem), (4, 256, 1024));
            assert_eq!((g.out_numel, g.reduce_size, g.out_bytes), (4, 64, 16));
            assert_eq!(g.out_dtype, DType::F32);
        }
        other => panic!("unexpected {other:?}"),
    }
}

#[test]
fn test_reduce_max_argmax_f32() {
    let l = contiguous(&[2, 128]);
    match reduce_plan(DType::F32, ReduceOp::ArgMax, &l, &[1]) {
        ReducePlan::Gpu(g) => {
            assert_eq!(g.launch.function, "fast_argmax_f32");
            assert_eq!(g.launch.shared_mem, 2048);
            assert_eq!(g.out_dtype, DType::U32);
        }
        other => panic!("unexpected {other:?}"),
    }
    match reduce_plan(DType::F32, ReduceOp::Max, &l, &[0, 1]) {
        ReducePlan::Gpu(g) => {
            assert_eq!(g.launch.function, "fast_max_f32");
            assert_eq!((g.launch.grid_x, g.out_numel, g.reduce_size), (1, 1, 256));
        }
        other => panic!("unexpected {other:?}"),
    }
    assert!(matches!(reduce_plan(DType::F64, ReduceOp::Min, &l, &[1]), ReducePlan::Host));
}

#[test]
fn test_affine_f32_contiguous() {
    let l = contiguous(&[256]);
    match affine_plan(DType::F32, &l) {
        MapPlan::Gpu(g) => {
            assert_eq!(g.launch.module, "affine");
            assert_eq!(g.launch.function, "affine_f32");
            assert_eq!((g.launch.grid_x, g.launch.block_x), (1, 256));
            assert_eq!((g.numel, g.num_dims, g.out_bytes), (256, 1, 1024));
            assert_eq!(g.info, None);
            assert_eq!(g.out_dtype, DType::F32);
        }
        other => panic!("unexpected {other:?}"),
    }
    assert!(matches!(affine_plan(DType::BF16, &l), MapPlan::Host));
}

#[test]
fn test_affine_f32_strided() {
    let l = Layout::new(vec![4, 2], vec![1, 4], 3);
    match affine_plan(DType::F32, &l) {
        MapPlan::Gpu(g) => {
            assert_eq!(g.info, Some(vec![4, 2, 1, 4]));
            assert_eq!(g.input_offset, 3);
            assert_eq!(g.numel, 8);
        }
        other => panic!("unexpected {other:?}"),
    }
}

#[test]
fn test_unary_exp_f32() {
    match unary_plan(DType::F32, &contiguous(&[10]), "uexp") {
        MapPlan::Gpu(g) => {
            assert_eq!(g.launch.module, "unary");
            assert_eq!(g.launch.function, "uexp_f32");
        }
        other => panic!("unexpected {other:?}"),
    }
    match powf_plan(DType::F32, &contiguous(&[3])) {
        MapPlan::Gpu(g) => assert_eq!(g.launch.function, "upowf_f32"),
        other => panic!("unexpected {other:?}"),
    }
    match elu_plan(DType::F32, &contiguous(&[3])) {
        MapPlan::Gpu(g) => assert_eq!(g.launch.function, "uelu_f32"),
        other => panic!("unexpected {other:?}"),
    }
}

#[test]
fn test_binary_ops_f32() {
    let a = contiguous(&[16]);
    match binary_plan(DType::F32, &a, &a, "badd") {
        ZipPlan::Gpu(g) => {
            assert_eq!(g.launch.module, "binary");
            assert_eq!(g.launch.function, "badd_f32");
            assert_eq!((g.numel, g.out_bytes), (16, 64));
            assert_eq!(g.info, None);
        }
        other => panic!("unexpected {other:?}"),
    }
    assert!(matches!(binary_plan(DType::U8, &a, &a, "badd"), ZipPlan::Host));
}

#[test]
fn test_cmp_ops_f32() {
    let a = contiguous(&[4]);
    let b = Layout::new(vec![4], vec![0], 2);
    match cmp_plan(DType::F32, CmpOp::Le, &a, &b) {
        ZipPlan::Gpu(g) => {
            assert_eq!(g.launch.function, "le_f32");
            assert_eq!((g.out_bytes, g.out_dtype), (4, DType::U8));
            assert_eq!(g.info, Some(vec![4, 1, 0]));
            assert_eq!(g.rhs_offset, 2);
        }
        other => panic!("unexpected {other:?}"),
    }
}

#[test]
fn test_where_cond_f32() {
    let l = contiguous(&[6]);
    match where_cond_plan(DType::F32, &l, &l, &l) {
        WherePlan::Gpu(g) => {
            assert_eq!(g.launch.module, "ternary");
            assert_eq!(g.launch.function, "where_cond_f32");
            assert_eq!((g.numel, g.out_bytes, g.out_dtype), (6, 24, DType::F32));
        }
        other => panic!("unexpected {other:?}"),
    }
    let t = Layout::new(vec![3, 2], vec![1, 3], 0);
    assert!(matches!(where_cond_plan(DType::F32, &t, &l, &l), WherePlan::Host));
    assert!(matches!(where_cond_plan(DType::U32, &l, &l, &l), WherePlan::Host));
}

#[test]
fn test_cast_f32_to_u32() {
    match to_dtype_plan(DType::F32, &contiguous(&[100]), DType::U32) {
        CastPlan::Gpu(g) => {
            assert_eq!(g.launch.module, "cast");
            assert_eq!(g.launch.function, "cast_f32_u32");
            assert_eq!((g.out_bytes, g.out_dtype), (400, DType::U32));
        }
        other => panic!("unexpected {other:?}"),
    }
}

#[test]
fn test_cast_u32_to_f32() {
    let l = Layout::contiguous_with_offset(vec![3], 2);
    match to_dtype_plan(DType::U32, &l, DType::F32) {
        CastPlan::Gpu(g) => {
            assert_eq!(g.launch.function, "cast_u32_f32");
            assert_eq!(g.input_byte_offset, 8);
        }
        other => panic!("unexpected {other:?}"),
    }
    assert!(matches!(to_dtype_plan(DType::BF16, &l, DType::F32), CastPlan::Host));
    assert!(matches!(to_dtype_plan(DType::F32, &l, DType::F32), CastPlan::Copy(_)));
}

#[test]
fn test_fill_f32() {
    match ones_plan(DType::F32, 128) {
        OnesPlan::Fill { out_bytes, launch, numel } => {
            assert_eq!((out_bytes, numel), (512, 128));
            assert_eq!(launch.function, "fill_f32");
        }
        other => panic!("unexpected {other:?}"),
    }
    assert!(matches!(ones_plan(DType::I64, 3), OnesPlan::Host));
    assert_eq!(storage_byte_size(5, DType::F64), 40);
}

#[test]
fn test_copy_strided_f32() {
    let t = Layout::new(vec![2, 3], vec![1, 2], 1);
    match copy_strided_plan(DType::F32, &t, 10) {
        CopyPlan::Strided(s) => {
            assert_eq!(s.launch.function, "copy_strided_f32");
            assert_eq!(s.info, vec![2, 3, 1, 2]);
            assert_eq!((s.numel, s.num_dims, s.src_offset, s.dst_offset), (6, 2, 1, 10));
        }
        other => panic!("unexpected {other:?}"),
    }
    match copy_strided_plan(DType::F32, &Layout::contiguous_with_offset(vec![4], 2), 3) {
        CopyPlan::DeviceCopy { src_byte_offset, dst_byte_offset, bytes } => {
            assert_eq!((src_byte_offset, dst_byte_offset, bytes), (8, 12, 16))
        }
        other => panic!("unexpected {other:?}"),
    }
    assert!(matches!(copy_strided_plan(DType::U8, &t, 0), CopyPlan::HostRoundTrip));
    match copy2d_plan(DType::F32, 3, 5) {
        Copy2dPlan::Gpu(l) => assert_eq!((l.function.as_str(), l.grid_x), ("copy2d_f32", 1)),
        other => panic!("unexpected {other:?}"),
    }
}

#[test]
fn copies_of_views() {
    let c = clone_plan(DType::I64, &Layout::contiguous_with_offset(vec![2, 2], 1));
    assert_eq!(c.out_bytes, 32);
    assert!(matches!(c.step, CloneStep::DeviceCopy { src_byte_offset: 8, bytes: 32 }));
    let t = Layout::new(vec![2, 2], vec![1, 2], 0);
    assert!(matches!(clone_plan(DType::F32, &t).step, CloneStep::Strided(_)));
    assert!(matches!(clone_plan(DType::U8, &t).step, CloneStep::Host));
}

#[test]
fn test_gather_f32() {
    let src = contiguous(&[2, 3]);
    let ids = contiguous(&[2, 2]);
    match gather_plan(DType::F32, &src, DType::U32, &ids, 1) {
        SelectPlan::Gpu { out_bytes, out_dtype, kernel } => {
            assert_eq!(out_dtype, DType::F32);
            assert_eq!(out_bytes, 16);
            let g = kernel.unwrap();
            assert_eq!(g.launch.module, "indexing");
            assert_eq!(g.launch.function, "gather_u32_f32");
            assert_eq!((g.numel, g.left_size, g.dim_a, g.dim_b, g.right_size), (4, 2, 3, 2, 1));
        }
        other => panic!("unexpected {other:?}"),
    }
    match gather_plan(DType::F32, &src, DType::F32, &ids, 1) {
        SelectPlan::Gpu { kernel, .. } => assert_eq!(kernel.unwrap_err().message(), "gather: unsupported index type F32"),
        other => panic!("unexpected {other:?}"),
    }
}

#[test]
fn test_index_select_f32() {
    let src = contiguous(&[5, 4]);
    let ids = contiguous(&[3]);
    match index_select_plan(DType::F32, DType::I64, &src, &ids, 0) {
        SelectPlan::Gpu { out_bytes, out_dtype, kernel } => {
            assert_eq!(out_dtype, DType::F32);
            assert_eq!(out_bytes, 48);
            let g = kernel.unwrap();
            assert_eq!(g.launch.function, "index_select_i64_f32");
            assert_eq!((g.numel, g.left_size, g.dim_a, g.dim_b, g.right_size), (12, 1, 5, 3, 4));
        }
        other => panic!("unexpected {other:?}"),
    }
}

#[test]
fn accumulating_indexing() {
    let dst = contiguous(&[4, 2]);
    let ids = contiguous(&[3]);
    let src = contiguous(&[3, 2]);
    match index_add_plan(DType::F32, &dst, DType::U32, &ids, &src, 0) {
        AccumulatePlan::Gpu { dst, kernel } => {
            assert_eq!(dst.out_bytes, 32);
            let g = kernel.unwrap();
            assert_eq!(g.launch.function, "index_add_u32_f32");
            assert_eq!((g.numel, g.left_size, g.dim_a, g.dim_b, g.right_size), (6, 1, 3, 4, 2));
        }
        other => panic!("unexpected {other:?}"),
    }
    let ids2 = contiguous(&[3, 2]);
    match scatter_add_plan(DType::F32, &dst, DType::I64, &ids2, &src, 0) {
        AccumulatePlan::Gpu { kernel, .. } => {
            let g = kernel.unwrap();
            assert_eq!(g.launch.function, "scatter_add_i64_f32");
            assert_eq!((g.numel, g.left_size, g.dim_a, g.dim_b, g.right_size), (6, 1, 3, 4, 2));
        }
        other => panic!("unexpected {other:?}"),
    }
    match scatter_add_plan(DType::F32, &dst, DType::U8, &ids2, &src, 0) {
        AccumulatePlan::Gpu { kernel, .. } => assert_eq!(kernel.unwrap_err().message(), "scatter_add: unsupported index type U8"),
        other => panic!("unexpected {other:?}"),
    }
    assert!(matches!(index_add_plan(DType::BF16, &dst, DType::U32, &ids, &src, 0), AccumulatePlan::Host));
}

#[test]
fn matmul_on_the_blas() {
    let lhs = contiguous(&[2, 3]);
    let rhs = contiguous(&[3, 4]);
    match matmul_plan(DType::F32, 1, 2, 4, 3, &lhs, &rhs) {
        MatmulPlan::Gpu(p) => {
            assert_eq!(p.out_bytes, 32);
            assert_eq!(p.out_dtype, DType::F32);
            assert_eq!((p.a_input, p.a_byte_offset, p.b_input, p.b_byte_offset), (Operand::Rhs, 0, Operand::Lhs, 0));
            let g = p.gemm;
            assert_eq!((g.m, g.n, g.k, g.lda, g.ldb, g.ldc), (4, 2, 3, 4, 3, 4));
            assert_eq!(g.strides, None);
        }
        other => panic!("unexpected {other:?}"),
    }
    let lhs = Layout::contiguous_with_offset(vec![5, 2, 3], 6);
    let rhs = contiguous(&[5, 3, 4]);
    match matmul_plan(DType::F32, 5, 2, 4, 3, &lhs, &rhs) {
        MatmulPlan::Gpu(p) => {
            assert_eq!((p.a_input, p.a_byte_offset, p.b_input, p.b_byte_offset), (Operand::Rhs, 0, Operand::Lhs, 24));
            let s = p.gemm.strides.unwrap();
            assert_eq!((s.a, s.b, s.c), (12, 6, 8));
            assert_eq!(p.gemm.batch, 5);
        }
        other => panic!("unexpected {other:?}"),
    }
    let t = Layout::new(vec![3, 2], vec![1, 3], 0);
    assert_eq!(matmul_plan(DType::F32, 1, 2, 2, 3, &t, &rhs), MatmulPlan::Host);
}

#[test]
fn quantized_dequant_plans() {
    let p = match dequant_to_gpu(GgmlDType::Q4_0, 100) {
        DequantPlan::Gpu(p) => p,
        other => panic!("unexpected {other:?}"),
    };
    assert_eq!((p.num_blocks, p.num_blocks_arg, p.out_elements, p.out_bytes), (3, 3, 96, 192));
    assert_eq!(p.launch.function, "dequant_q4_0_f16");
    assert_eq!(p.launch.grid_x, 1);
    match dequant_to_gpu(GgmlDType::Q8_0, 32 * 300) {
        DequantPlan::Gpu(p) => assert_eq!(p.launch.grid_x, 2),
        other => panic!("unexpected {other:?}"),
    }
    assert!(matches!(dequant_to_gpu(GgmlDType::Q6K, 256), DequantPlan::Host));
    assert!(matches!(dequant_to_gpu(GgmlDType::Q4K, 256), DequantPlan::Host));
    assert!(matches!(dequant_to_gpu(GgmlDType::F16, usize::MAX), DequantPlan::Host));
}

#[test]
fn fp8_product_plans() {
    let p = fp8_gemm_f16(&vec![3, 8], &vec![2, 8], vec![1.0f32.to_bits()]).unwrap();
    assert_eq!((p.m, p.n, p.k), (2, 3, 8));
    assert_eq!(p.scale_bytes.len(), 12);
    assert_eq!(&p.scale_bytes[8..12], &1.0f32.to_le_bytes());
    assert_eq!(p.out_bytes, 12);
    assert_eq!((p.launch.grid_x, p.launch.grid_y, p.launch.block_x), (3, 2, 32));
    let e = fp8_gemm_f16(&vec![3, 8], &vec![2, 7], vec![0]).unwrap_err();
    assert_eq!(e.message(), "fp8_gemm_f16: K mismatch: W has K=8, X has K=7");
    let e = fp8_gemm_f16(&vec![3, 8], &vec![2, 8], vec![0, 0]).unwrap_err();
    assert_eq!(e.message(), "fp8_gemm_f16: scale length 2 doesn't match N=3");
    let e = fp8_gemm_f16(&vec![3], &vec![2, 8], vec![0]).unwrap_err();
    assert_eq!(e.message(), "unexpected rank, expected: 2, got: 1");
    let scalar = fp8_gemm_f16(&vec![3, 8], &vec![2, 8], vec![7]).unwrap();
    let vector = fp8_gemm_f16(&vec![3, 8], &vec![2, 8], vec![7, 7, 7]).unwrap();
    assert_eq!(scalar.scale_bytes, vector.scale_bytes);
    assert_eq!((scalar.m, scalar.n, scalar.k, scalar.out_bytes), (vector.m, vector.n, vector.k, vector.out_bytes));
    let e = fp8_gemm_f16(&vec![4_000_000_000, 1], &vec![4_000_000_000, 2], vec![0]).unwrap_err();
    assert_eq!(e.message(), "fp8_gemm_f16: K mismatch: W has K=1, X has K=2");
    let e = fp8_gemm_f16(&vec![usize::MAX, 0], &vec![usize::MAX, 0], vec![0, 0]).unwrap_err();
    assert_eq!(e.message(), format!("fp8_gemm_f16: scale length 2 doesn't match N={}", usize::MAX));
    assert_eq!(dims2(&vec![4, 5]).unwrap(), (4, 5));
}
