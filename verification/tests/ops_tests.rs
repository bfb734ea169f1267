use candle_vulkan::copy::{plan_copy2d, plan_copy_strided, plan_matmul, CopyPlan};
use candle_vulkan::indexing::{plan_gather, plan_index_add, plan_index_select, plan_scatter, plan_scatter_add, ScatterSpans};
use candle_vulkan::kernel::KernelName;
use candle_vulkan::layout::{DType, OpError, Operand, Span, StridedBlocks};
use candle_vulkan::ops::{
    check_rand_dtype, f32_input_span, plan_binary, plan_cmp, plan_const_set, plan_fill, plan_reduce, plan_to_dtype,
    plan_unary, plan_where, BinaryOp, CmpOp, Conversion, ReduceOp, UnaryOp,
};
use candle_vulkan::shape::{check_dims_fit, effective_dims, product};
use candle_vulkan::source::Source;
use candle_vulkan::spatial::{
    bilinear_scale_rule, plan_conv1d, plan_conv2d, plan_pool2d, plan_upsample_bilinear2d, plan_upsample_nearest1d,
    plan_upsample_nearest2d, Conv1dShape, Conv2dShape, PoolKind, ScaleRule,
};

fn single(start: usize, len: usize) -> StridedBlocks {
    StridedBlocks::SingleBlock { start_offset: start, len }
}

fn strided() -> StridedBlocks {
    StridedBlocks::UniformBlocks { start_offset: 0, block_len: 2, count: 3, src_stride: 4 }
}

#[test]
fn shapes() {
    assert!(check_dims_fit(&[2, 3, 0, 5]));
    assert!(!check_dims_fit(&[usize::MAX, 2]));
    assert!(check_dims_fit(&[usize::MAX, 0, 1]));
    assert_eq!(product(&[2, 3, 4, 5], 1, 3), 12);
    assert_eq!(product(&[2, 3], 1, 1), 1);
    assert_eq!(effective_dims(&[4, 3, 2], &[0, 2, 1]), vec![1, 3, 2]);
    assert_eq!(effective_dims(&[4, 3, 2], &[0]), vec![1]);
}

#[test]
fn contiguous_f32_inputs() {
    assert_eq!(f32_input_span(DType::F32, &single(3, 10)), Ok(Span { start: 3, len: 10 }));
    assert_eq!(f32_input_span(DType::F16, &single(3, 10)), Err(OpError::UnsupportedDType(Operand::Input)));
    assert_eq!(f32_input_span(DType::F32, &strided()), Err(OpError::NonContiguous(Operand::Input)));
}

#[test]
fn unary_picks_the_f32_kernel() {
    let p = plan_unary(UnaryOp::GeluErf, DType::F32, &single(0, 6), &[2, 3]).unwrap();
    assert_eq!(p.kernel, KernelName::UnaryGeluErfF32);
    assert_eq!(p.out_len, 6);
    assert_eq!(p.params, vec![6, 0]);
    let p = plan_unary(UnaryOp::Exp, DType::F32, &single(4, 2), &[2]).unwrap();
    assert_eq!((p.kernel, p.input), (KernelName::UnaryExpF32, Span { start: 4, len: 2 }));
    assert_eq!(plan_unary(UnaryOp::Exp, DType::U8, &single(0, 2), &[2]).unwrap_err(), OpError::UnsupportedDType(Operand::Input));
}

#[test]
fn binary_broadcast_params() {
    // (2, 3) + (3,) broadcast as a row: the rhs view has stride 0 on dim 0.
    let p = plan_binary(BinaryOp::Add, DType::F32, DType::F32, &single(0, 6), &[2, 3], &[2, 3], &[0, 1]).unwrap();
    assert_eq!(p.kernel, KernelName::BinaryAddF32);
    assert_eq!(p.out_len, 6);
    assert_eq!(p.params, vec![6, 2, 2, 2, 3, 0, 0, 1, 3, 0, 0]);
    let p = plan_binary(BinaryOp::Minimum, DType::F32, DType::F32, &single(0, 0), &[0, 1, 1, 1, 1], &[1], &[1]).unwrap();
    assert_eq!(p.out_len, 0);
    assert_eq!(
        plan_binary(BinaryOp::Mul, DType::F32, DType::F32, &single(0, 1), &[1, 1, 1, 1, 1], &[1], &[1]).unwrap_err(),
        OpError::TooManyDims
    );
    assert_eq!(
        plan_binary(BinaryOp::Div, DType::F32, DType::F64, &single(0, 1), &[1], &[1], &[1]).unwrap_err(),
        OpError::UnsupportedDType(Operand::Input)
    );
}

#[test]
fn cmp_outputs_one_byte_per_element() {
    let p = plan_cmp(CmpOp::Le, DType::F32, DType::F32, &single(2, 4), &[4], &[1], &[0]).unwrap();
    assert_eq!(p.kernel, KernelName::CmpLeF32);
    assert_eq!(p.out_len, 4);
    assert_eq!(p.params, vec![4, 1, 1, 4, 0, 0, 0, 1, 0, 0, 0]);
    assert_eq!(
        plan_cmp(CmpOp::Eq, DType::F32, DType::F32, &strided(), &[6], &[6], &[1]).unwrap_err(),
        OpError::NonContiguous(Operand::Input)
    );
}

#[test]
fn where_checks_values_then_predicate() {
    let p = plan_where(DType::U8, DType::F32, DType::F32, &single(0, 6), &[2, 3], &[3, 1], &[2, 3], &[0, 1], &[], &[]).unwrap();
    assert_eq!(p.kernel, KernelName::WhereF32);
    assert_eq!(p.params, vec![6, 2, 2, 3, 0, 0, 1, 3, 0, 0, 0, 0, 0, 0]);
    assert_eq!(
        plan_where(DType::F32, DType::F32, DType::F32, &single(0, 6), &[6], &[1], &[6], &[1], &[6], &[1]).unwrap_err(),
        OpError::UnsupportedDType(Operand::Pred)
    );
    assert_eq!(
        plan_where(DType::U8, DType::F32, DType::I32, &single(0, 6), &[6], &[1], &[6], &[1], &[6], &[1]).unwrap_err(),
        OpError::UnsupportedDType(Operand::Values)
    );
    assert_eq!(
        plan_where(DType::U8, DType::F32, DType::F32, &strided(), &[6], &[1], &[6], &[1], &[6], &[1]).unwrap_err(),
        OpError::NonContiguous(Operand::Pred)
    );
}

#[test]
fn const_set_only_f32() {
    assert_eq!(plan_const_set(DType::F32, DType::F32, &single(1, 5)), Ok(Some(Span { start: 1, len: 5 })));
    assert_eq!(plan_const_set(DType::F32, DType::F32, &single(1, 0)), Ok(None));
    assert_eq!(plan_const_set(DType::F32, DType::F16, &single(1, 5)), Err(OpError::UnsupportedScalar));
    assert_eq!(plan_const_set(DType::F32, DType::F32, &strided()), Err(OpError::NonContiguous(Operand::Input)));
}

#[test]
fn conversions_between_half_and_single_precision() {
    assert_eq!(plan_to_dtype(DType::F32, DType::F16, &single(0, 3)), Ok((Span { start: 0, len: 3 }, Conversion::F32ToF16)));
    assert_eq!(plan_to_dtype(DType::BF16, DType::F16, &single(2, 3)), Ok((Span { start: 2, len: 3 }, Conversion::Bf16ToF16)));
    assert_eq!(plan_to_dtype(DType::F32, DType::U8, &single(0, 3)), Err(OpError::UnsupportedConversion(DType::F32, DType::U8)));
    assert_eq!(plan_to_dtype(DType::F32, DType::F16, &strided()), Err(OpError::NonContiguous(Operand::Input)));
}

#[test]
fn random_draws_only_in_float_types() {
    for d in [DType::BF16, DType::F16, DType::F32, DType::F64, DType::F8E4M3] {
        assert!(check_rand_dtype(d).is_ok());
    }
    for d in [DType::U8, DType::U32, DType::I16, DType::I32, DType::I64, DType::F6E2M3, DType::F6E3M2, DType::F4, DType::F8E8M0] {
        assert_eq!(check_rand_dtype(d), Err(OpError::UnsupportedDType(Operand::Input)));
    }
}

#[test]
fn fill_kernels() {
    let f = plan_fill(DType::F16, DType::F16).unwrap();
    assert_eq!((f.source, f.name, f.workgroup_size), (Source::TestFillF16, KernelName::TestFillF16, 64));
    let f = plan_fill(DType::BF16, DType::BF16).unwrap();
    assert_eq!((f.source, f.name, f.workgroup_size), (Source::TestFillBf16Emulated, KernelName::TestFillBf16Emulated, 256));
    let f = plan_fill(DType::F8E8M0, DType::F8E8M0).unwrap();
    assert_eq!(f.name, KernelName::TestFillF8e8m0);
    assert_eq!(plan_fill(DType::U8, DType::U32), Err(OpError::UnsupportedDType(Operand::Input)));
}

#[test]
fn reductions_over_the_last_axis() {
    let p = plan_reduce(ReduceOp::ArgMax, DType::F32, &[2, 3, 5], &single(0, 30), &[2]).unwrap();
    assert_eq!((p.rows, p.cols, p.out_dtype, p.kernel), (6, 5, DType::U32, KernelName::ReduceArgMaxF32));
    assert_eq!(p.params, vec![6, 5]);
    let p = plan_reduce(ReduceOp::Sum, DType::F32, &[4], &single(0, 4), &[0]).unwrap();
    assert_eq!((p.rows, p.cols, p.out_dtype), (1, 4, DType::F32));
    assert_eq!(plan_reduce(ReduceOp::Sum, DType::F32, &[], &single(0, 1), &[]).unwrap_err(), OpError::Scalar);
    assert_eq!(plan_reduce(ReduceOp::Max, DType::F32, &[2, 3], &single(0, 6), &[0]).unwrap_err(), OpError::NotLastAxis);
    assert_eq!(plan_reduce(ReduceOp::Min, DType::F32, &[2, 3], &single(0, 6), &[0, 1]).unwrap_err(), OpError::NotLastAxis);
    assert_eq!(plan_reduce(ReduceOp::Min, DType::F32, &[2, 3], &strided(), &[1]).unwrap_err(), OpError::NonContiguous(Operand::Input));
    assert_eq!(plan_reduce(ReduceOp::Min, DType::F16, &[2, 3], &single(0, 6), &[1]).unwrap_err(), OpError::UnsupportedDType(Operand::Input));
}

#[test]
fn pooling_windows() {
    let p = plan_pool2d(PoolKind::Avg, DType::F32, &[1, 2, 5, 4], &single(0, 40), (2, 2), (2, 1)).unwrap();
    assert_eq!(p.kernel, KernelName::AvgPool2dF32);
    assert_eq!(p.params, vec![2, 5, 4, 2, 2, 2, 1, 2, 3]);
    assert_eq!(p.total, 12);
    assert_eq!(plan_pool2d(PoolKind::Max, DType::F32, &[1, 2, 5], &single(0, 10), (1, 1), (1, 1)).unwrap_err(), OpError::Rank(Operand::Input));
    assert_eq!(plan_pool2d(PoolKind::Max, DType::F32, &[1, 1, 4, 4], &single(0, 16), (0, 1), (1, 1)).unwrap_err(), OpError::ZeroKernelOrStride);
    assert_eq!(plan_pool2d(PoolKind::Max, DType::F32, &[1, 1, 4, 4], &single(0, 16), (5, 1), (1, 1)).unwrap_err(), OpError::InputSmallerThanKernel);
    assert_eq!(plan_pool2d(PoolKind::Max, DType::F32, &[1, 1, 4, 4], &single(0, 15), (2, 2), (1, 1)).unwrap_err(), OpError::SizeMismatch(Operand::Input));
}

#[test]
fn upsampling() {
    let p = plan_upsample_nearest1d(DType::F32, &[2, 3, 4], &single(0, 24), 8).unwrap();
    assert_eq!((p.total, p.params.clone(), p.kernel), (48, vec![6, 4, 8], KernelName::UpsampleNearest1dF32));
    assert_eq!(plan_upsample_nearest1d(DType::F32, &[2, 3, 0], &single(0, 0), 8).unwrap_err(), OpError::EmptySource);
    let p = plan_upsample_nearest2d(DType::F32, &[1, 2, 2, 3], &single(0, 12), 4, 6).unwrap();
    assert_eq!((p.total, p.params.clone()), (48, vec![2, 2, 3, 4, 6]));
    let b = plan_upsample_bilinear2d(DType::F32, &[1, 1, 3, 2], &single(0, 6), 5, 1, true, false, false).unwrap();
    assert_eq!(b.spatial.total, 5);
    assert_eq!(b.scale_h, ScaleRule::Ratio(2, 4));
    assert_eq!(b.scale_w, ScaleRule::Zero);
    assert_eq!(bilinear_scale_rule(false, true, 3, 6), ScaleRule::InverseFactor);
    assert_eq!(bilinear_scale_rule(false, false, 3, 6), ScaleRule::Ratio(3, 6));
    assert_eq!(plan_upsample_nearest2d(DType::F32, &[1, 2, 2, 3], &single(0, 11), 4, 6).unwrap_err(), OpError::SizeMismatch(Operand::Input));
}

#[test]
fn convolutions() {
    let s = Conv1dShape { b_size: 2, c_in: 3, c_out: 4, k_size: 3, l_in: 10, l_out: 8, padding: 0, stride: 1, dilation: 1 };
    let p = plan_conv1d(false, DType::F32, DType::F32, &single(0, 60), &single(5, 36), &s).unwrap();
    assert_eq!((p.total, p.kernel), (64, KernelName::Conv1dF32));
    assert_eq!(p.weights, Span { start: 5, len: 36 });
    assert_eq!(p.params, vec![2, 3, 4, 3, 10, 8, 0, 1, 1]);
    let p = plan_conv1d(true, DType::F32, DType::F32, &single(0, 60), &single(0, 36), &s).unwrap();
    assert_eq!(p.kernel, KernelName::ConvTranspose1dF32);
    assert_eq!(plan_conv1d(false, DType::F32, DType::F32, &single(0, 60), &strided(), &s).unwrap_err(), OpError::NonContiguous(Operand::Kernel));
    assert_eq!(plan_conv1d(false, DType::F32, DType::F32, &single(0, 59), &single(0, 36), &s).unwrap_err(), OpError::SizeMismatch(Operand::Input));
    let s2 = Conv2dShape { b_size: 1, c_in: 2, c_out: 3, k_h: 3, k_w: 3, i_h: 5, i_w: 5, o_h: 3, o_w: 3, padding: 0, stride: 1, dilation: 1 };
    let p = plan_conv2d(false, DType::F32, DType::F32, &single(0, 50), &single(0, 54), &s2).unwrap();
    assert_eq!((p.total, p.kernel), (27, KernelName::Conv2dF32));
    assert_eq!(p.params, vec![1, 2, 3, 3, 3, 5, 5, 3, 3, 0, 1, 1]);
    assert_eq!(plan_conv2d(true, DType::F16, DType::F32, &single(0, 50), &single(0, 54), &s2).unwrap_err(), OpError::UnsupportedDType(Operand::Input));
}

#[test]
fn gathers_and_selects() {
    let p = plan_gather(DType::F32, &[10, 4], &single(0, 40), DType::U32, &[3, 2], &single(1, 6), 0).unwrap();
    assert_eq!((p.total, p.kernel), (6, KernelName::GatherRowsF32));
    assert_eq!(p.params, vec![6, 2, 4, 0]);
    assert_eq!(plan_gather(DType::F32, &[10, 4], &single(0, 40), DType::U32, &[3, 5], &single(0, 15), 0).unwrap_err(), OpError::IdsInnerTooLarge);
    assert_eq!(plan_gather(DType::F32, &[10, 4], &single(0, 40), DType::I64, &[3, 2], &single(0, 6), 0).unwrap_err(), OpError::UnsupportedDType(Operand::Ids));
    assert_eq!(plan_gather(DType::F32, &[10, 4], &single(0, 40), DType::U32, &[3, 2], &single(0, 6), 1).unwrap_err(), OpError::DimNotZero);
    let p = plan_index_select(DType::F32, &[10, 4], &single(0, 40), DType::U32, &[3], &single(0, 3), 0).unwrap();
    assert_eq!((p.total, p.kernel), (12, KernelName::IndexSelectF32));
    assert_eq!(p.params, vec![12, 4, 4, 0]);
    assert_eq!(plan_index_select(DType::F32, &[10, 4], &single(0, 40), DType::U32, &[3, 1], &single(0, 3), 0).unwrap_err(), OpError::Rank(Operand::Ids));
    assert_eq!(plan_index_select(DType::F32, &[40], &single(0, 40), DType::U32, &[3], &single(0, 3), 0).unwrap_err(), OpError::Rank(Operand::Src));
}

#[test]
fn scatters() {
    // dst (2, 5), ids and src (2, 3), along dim 1.
    let p = plan_scatter(DType::F32, DType::F32, DType::U32, &[2, 5], &single(0, 10), &single(10, 6), &[2, 3], &single(20, 6), 1).unwrap();
    assert_eq!(p.total, 6);
    assert_eq!(p.params, vec![5, 1, 3, 1, 2]);
    assert_eq!(p.spans, ScatterSpans { dst: Span { start: 0, len: 10 }, src: Span { start: 10, len: 6 }, ids: Span { start: 20, len: 6 } });
    assert_eq!(plan_scatter(DType::F32, DType::F32, DType::U32, &[2, 5], &single(0, 10), &single(0, 6), &[6], &single(0, 6), 0).unwrap_err(), OpError::RankMismatch);
    assert_eq!(plan_scatter(DType::F32, DType::F32, DType::U32, &[2, 5], &single(0, 10), &single(0, 5), &[2, 3], &single(0, 6), 1).unwrap_err(), OpError::SizeMismatch(Operand::Input));
    assert_eq!(plan_scatter(DType::F32, DType::F32, DType::U8, &[2, 5], &single(0, 10), &single(0, 6), &[2, 3], &single(0, 6), 1).unwrap_err(), OpError::UnsupportedDType(Operand::Ids));
    // scatter-add checks ranks before layouts, and takes u8/i64/u32 indices.
    assert_eq!(plan_scatter_add(DType::F32, DType::F32, DType::U8, &[2, 5], &strided(), &single(0, 6), &[6], &single(0, 6), 0).unwrap_err(), OpError::RankMismatch);
    assert_eq!(plan_scatter(DType::F32, DType::F32, DType::U32, &[2, 5], &strided(), &single(0, 6), &[6], &single(0, 6), 0).unwrap_err(), OpError::NonContiguous(Operand::Dst));
    assert!(plan_scatter_add(DType::F32, DType::F32, DType::I64, &[2, 5], &single(0, 10), &single(0, 6), &[2, 3], &single(0, 6), 1).is_ok());
    assert_eq!(plan_scatter_add(DType::F32, DType::F32, DType::I32, &[2, 5], &single(0, 10), &single(0, 6), &[2, 3], &single(0, 6), 1).unwrap_err(), OpError::UnsupportedDType(Operand::Ids));
    let s = plan_index_add(DType::F32, DType::F32, DType::U32, &[4, 3], &single(0, 12), &[2, 3], &single(12, 6), &[2], &single(0, 2), 0).unwrap();
    assert_eq!(s.src, Span { start: 12, len: 6 });
    assert_eq!(plan_index_add(DType::F32, DType::F32, DType::U32, &[4, 3], &single(0, 12), &[2, 3], &single(12, 6), &[2], &single(0, 2), 2).unwrap_err(), OpError::RankMismatch);
}

#[test]
fn matmul_rhs_layouts() {
    // (2, 3) x (3, 4), rhs contiguous.
    let p = plan_matmul(DType::F32, DType::F32, (1, 2, 4, 3), &single(0, 6), &[3, 4], &[4, 1], 10).unwrap().unwrap();
    assert!(!p.rhs_transposed);
    assert_eq!(p.rhs, Span { start: 10, len: 12 });
    assert_eq!(p.out_len, 8);
    assert_eq!(p.params, vec![1, 2, 4, 3, 0]);
    // rhs stored as (4, 3) and viewed transposed.
    let p = plan_matmul(DType::F32, DType::F32, (2, 2, 4, 3), &single(0, 12), &[2, 3, 4], &[12, 1, 3], 0).unwrap().unwrap();
    assert!(p.rhs_transposed);
    assert_eq!(p.params, vec![2, 2, 4, 3, 1]);
    assert!(plan_matmul(DType::F32, DType::F32, (1, 0, 4, 3), &strided(), &[3, 4], &[4, 1], 0).unwrap().is_none());
    assert_eq!(plan_matmul(DType::F32, DType::F32, (1, 2, 4, 3), &single(0, 6), &[3, 4], &[8, 2], 0).unwrap_err(), OpError::NonContiguous(Operand::Rhs));
    assert_eq!(plan_matmul(DType::F32, DType::F32, (1, 2, 4, 3), &single(0, 6), &[12], &[1], 0).unwrap_err(), OpError::RankBelowTwo);
    assert_eq!(plan_matmul(DType::F32, DType::F32, (1, 2, 4, 3), &single(0, 7), &[3, 4], &[4, 1], 0).unwrap_err(), OpError::SizeMismatch(Operand::Input));
}

#[test]
fn strided_copies() {
    match plan_copy_strided(DType::F32, DType::F32, 5, &single(2, 4)).unwrap() {
        CopyPlan::Contiguous { src, dst_start } => assert_eq!((src, dst_start), (Span { start: 2, len: 4 }, 5)),
        p => panic!("unexpected {p:?}"),
    }
    match plan_copy_strided(DType::F32, DType::F32, 1, &strided()).unwrap() {
        CopyPlan::Strided2d { total, params } => {
            assert_eq!(total, 6);
            assert_eq!(params, vec![3, 2, 4, 2, 0, 1]);
        }
        p => panic!("unexpected {p:?}"),
    }
    let blocks = StridedBlocks::MultipleBlocks { block_start_index: vec![0, 7, 3], block_len: 2 };
    match plan_copy_strided(DType::F32, DType::F32, 0, &blocks).unwrap() {
        CopyPlan::Indexed { total, indices, params } => {
            assert_eq!(total, 6);
            assert_eq!(indices, vec![0, 7, 3]);
            assert_eq!(params, vec![6, 2, 0]);
        }
        p => panic!("unexpected {p:?}"),
    }
    assert!(matches!(plan_copy_strided(DType::F32, DType::F32, 0, &single(0, 0)).unwrap(), CopyPlan::Nothing));
    assert!(plan_copy_strided(DType::F16, DType::F32, 0, &single(0, 1)).is_err());
    assert_eq!(plan_copy2d(DType::F32, DType::F32, 3, 4, 10, 4, 1, 2).unwrap(), Some((12, vec![3, 4, 10, 4, 1, 2])));
    assert_eq!(plan_copy2d(DType::F32, DType::F32, 3, 0, 10, 4, 1, 2).unwrap(), None);
    assert_eq!(plan_copy2d(DType::F32, DType::U8, 3, 4, 10, 4, 1, 2).unwrap_err(), OpError::UnsupportedDType(Operand::Input));
}
