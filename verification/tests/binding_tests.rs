use candle_vulkan::binding::{binding_of, roles_of, run_bindings, BufferRole};
use candle_vulkan::dispatch::{elem_binary_dispatch, elementwise_dispatch, gemm_dispatch, single_buffer_dispatch};
use candle_vulkan::kernel::{descriptor_bindings, KernelName};
use candle_vulkan::source::Source;
use candle_vulkan::trace::{trace_count, trace_counts, trace_reset, TraceTable};

#[test]
fn roles_fill_each_layout() {
    for k in [
        KernelName::WhereF32,
        KernelName::CmpEqF32,
        KernelName::UnaryExpF32,
        KernelName::ConstSetF32,
        KernelName::MaxPool2dF32,
        KernelName::TestFillF16,
        KernelName::Conv2dF32,
        KernelName::ReduceArgMaxF32,
    ] {
        assert_eq!(roles_of(k.op()).len() as u32, descriptor_bindings(k));
    }
}

#[test]
fn bindings_by_role() {
    assert_eq!(binding_of(KernelName::WhereF32, BufferRole::Pred), Some(0));
    assert_eq!(binding_of(KernelName::WhereF32, BufferRole::Output), Some(3));
    assert_eq!(binding_of(KernelName::WhereF32, BufferRole::Params), Some(4));
    assert_eq!(binding_of(KernelName::GemmF32, BufferRole::Rhs), Some(1));
    assert_eq!(binding_of(KernelName::ReduceArgMinF32, BufferRole::OutputIndex), Some(2));
    assert_eq!(binding_of(KernelName::Conv1dF32, BufferRole::Weights), Some(1));
    assert_eq!(binding_of(KernelName::IndexSelectF32, BufferRole::Indices), Some(2));
    assert_eq!(binding_of(KernelName::AffineF32, BufferRole::Rhs), None);
    assert_eq!(binding_of(KernelName::TestFillU8, BufferRole::Input), None);
}

#[test]
fn runs_must_fit_the_layout() {
    let d = elementwise_dispatch(10);
    let roles = [BufferRole::Input, BufferRole::Rhs, BufferRole::Output, BufferRole::Params];
    assert_eq!(run_bindings(Source::BinarySlang, KernelName::BinaryAddF32, &roles, &d).unwrap(), vec![0, 1, 2, 3]);
    let roles = [BufferRole::Params, BufferRole::Input, BufferRole::Output];
    assert_eq!(run_bindings(Source::UnarySlang, KernelName::UnaryExpF32, &roles, &d).unwrap(), vec![2, 0, 1]);
    // A unary kernel has no right-hand side.
    let roles = [BufferRole::Input, BufferRole::Rhs];
    assert!(run_bindings(Source::UnarySlang, KernelName::UnaryExpF32, &roles, &d).is_err());
    // Nothing may be bound to a binding the kernel does not read.
    assert!(run_bindings(Source::ConstSet, KernelName::ConstSetF32, &[BufferRole::Unused], &d).is_err());
    // The layouts declare no push constants.
    let pushed = elem_binary_dispatch(10, &[2, 5], &[5]).unwrap();
    let roles = [BufferRole::Input, BufferRole::Rhs, BufferRole::Output, BufferRole::Params];
    assert!(run_bindings(Source::BinarySlang, KernelName::BinaryAddF32, &roles, &pushed).is_err());
    let g = gemm_dispatch(1, 4, 4);
    assert!(run_bindings(Source::Gemm, KernelName::GemmF32, &roles, &g).is_ok());
    let f = single_buffer_dispatch(64, 100);
    assert_eq!(run_bindings(Source::TestFillF16, KernelName::TestFillF16, &[BufferRole::Output], &f).unwrap(), vec![0]);
}

#[test]
fn module_labels_and_entry_points() {
    let labels = [
        Source::ReduceSlang.as_ref(),
        Source::WhereSlang.as_ref(),
        Source::TestFillBf16Native.as_ref(),
        Source::UnarySlang.as_ref(),
        Source::Affine.as_ref(),
    ];
    assert_eq!(labels, ["reduce", "where", "test_fill_bf16_native", "unary", "affine"]);
    let cmp = [
        KernelName::CmpEqF32,
        KernelName::CmpNeF32,
        KernelName::CmpLtF32,
        KernelName::CmpLeF32,
        KernelName::CmpGtF32,
        KernelName::CmpGeF32,
    ];
    for (i, a) in cmp.iter().enumerate() {
        assert!(a.as_ref().starts_with("main"));
        for b in &cmp[i + 1..] {
            assert_ne!(a.as_ref(), b.as_ref());
        }
    }
}

#[test]
fn drained_counters_hold_only_dispatched_kernels() {
    let mut t = TraceTable::new();
    trace_reset(&mut t);
    trace_count(&mut t, Source::Affine, KernelName::AffineF32);
    trace_count(&mut t, Source::Affine, KernelName::AffineF32);
    trace_count(&mut t, Source::CmpSlang, KernelName::CmpEqF32);
    assert_eq!(t.count_of(Source::Affine, KernelName::AffineF32), 2);
    assert_eq!(t.count_of(Source::Gemm, KernelName::GemmF32), 0);
    let counts = trace_counts(&mut t);
    assert_eq!(
        counts,
        vec![
            ((Source::Affine, KernelName::AffineF32), 2),
            ((Source::CmpSlang, KernelName::CmpEqF32), 1)
        ]
    );
    assert!(trace_counts(&mut t).is_empty());
    assert_eq!(t.count_of(Source::Affine, KernelName::AffineF32), 0);
}
