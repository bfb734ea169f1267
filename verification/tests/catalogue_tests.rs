use candle_vulkan::error::{VulkanError, VulkanKernelError};
use candle_vulkan::kernel::{descriptor_bindings, KernelName, GEMV_T_TILE_N};
use candle_vulkan::pipeline::{pipeline_layout, PipelineCache};
use candle_vulkan::source::Source;
use candle_vulkan::trace::{trace_count, trace_counts, trace_reset, TraceTable};
use std::cell::Cell;

#[test]
fn all_dtypes_of_an_op_share_the_entry_point() {
    for k in [
        KernelName::BinaryMaximumF32,
        KernelName::BinaryMaximumBf16,
        KernelName::BinaryMaximumF16,
        KernelName::BinaryMaximumF64,
        KernelName::BinaryMaximumU8,
        KernelName::BinaryMaximumI64,
    ] {
        assert_eq!(k.as_ref(), "main_maximum");
        assert_eq!(descriptor_bindings(k), 4);
    }
    assert_eq!(KernelName::ReduceArgMaxF16.as_ref(), "main_reduce_argmax");
    assert_eq!(KernelName::ConvTranspose2dF64.as_ref(), "main_conv_transpose2d");
    assert_eq!(KernelName::TestFillBf16Emulated.as_ref(), "main");
}

#[test]
fn binding_layout_by_family() {
    assert_eq!(descriptor_bindings(KernelName::UnaryGeluErfF8e4m3), 3);
    assert_eq!(descriptor_bindings(KernelName::ConstSetF32), 3);
    assert_eq!(descriptor_bindings(KernelName::CmpGeI32), 4);
    assert_eq!(descriptor_bindings(KernelName::Copy2dF16), 3);
    assert_eq!(descriptor_bindings(KernelName::IndexSelectF64), 4);
    assert_eq!(descriptor_bindings(KernelName::ScatterF32), 4);
    assert_eq!(descriptor_bindings(KernelName::WhereBf16), 5);
    assert_eq!(descriptor_bindings(KernelName::TestFillF8e8m0), 1);
    assert_eq!(GEMV_T_TILE_N, 4);
}

#[test]
fn shader_module_names_and_files() {
    assert_eq!(Source::UnarySlang.as_ref(), "unary");
    assert_eq!(Source::UnarySlang.spv_file(), "unary.spv");
    assert_eq!(Source::ReduceSlang.as_ref(), "reduce");
    assert_eq!(Source::TestFillBf16Native.as_ref(), "test_fill_bf16_native");
    assert_eq!(Source::TestFillBf16Native.spv_file(), "test/fill_native_bf16.spv");
    assert_eq!(Source::GatherIdxSlang.spv_file(), "gather_idx.spv");
}

#[test]
fn spv_words_round_trip() {
    let words = [0x0723_0203u32, 0x0001_0000, 0xdead_beef, 0];
    let mut bytes = Vec::new();
    for w in words {
        bytes.extend_from_slice(&w.to_le_bytes());
    }
    assert_eq!(Source::Gemm.spv_words(&bytes), words.to_vec());
    // Bytes that do not fill a word are not part of any word.
    bytes.push(7);
    assert_eq!(Source::Gemm.spv_words(&bytes).len(), 4);
    assert!(Source::Gemm.spv_words(&[1, 2, 3]).is_empty());
}

#[test]
fn no_kernel_has_push_constants() {
    for (s, k) in [
        (Source::Affine, KernelName::AffineF32),
        (Source::ConvSlang, KernelName::Conv2dF16),
        (Source::TestFillF16, KernelName::TestFillF16),
    ] {
        assert_eq!(s.push_constant_size(k), 0);
        let layout = pipeline_layout(s, k);
        assert_eq!(layout.push_constant_size, None);
        assert_eq!(layout.bindings, (0..descriptor_bindings(k)).collect::<Vec<u32>>());
    }
}

#[test]
fn errors_from_messages() {
    match VulkanKernelError::from("boom".to_string()) {
        VulkanKernelError::Message(m) => assert_eq!(m, "boom"),
        e => panic!("unexpected {e:?}"),
    }
    match VulkanError::from("oops".to_string()) {
        VulkanError::Message(m) => assert_eq!(m, "oops"),
        e => panic!("unexpected {e:?}"),
    }
    match VulkanError::from(VulkanKernelError::EntryPoint) {
        VulkanError::KernelError(VulkanKernelError::EntryPoint) => {}
        e => panic!("unexpected {e:?}"),
    }
}

#[test]
fn trace_counts_dispatches_and_drains() {
    let mut t = TraceTable::new();
    trace_count(&mut t, Source::Gemm, KernelName::GemmF32);
    trace_count(&mut t, Source::UnarySlang, KernelName::UnaryExpF32);
    trace_count(&mut t, Source::Gemm, KernelName::GemmF32);
    let counts = trace_counts(&mut t);
    assert_eq!(
        counts,
        vec![
            ((Source::Gemm, KernelName::GemmF32), 2),
            ((Source::UnarySlang, KernelName::UnaryExpF32), 1)
        ]
    );
    assert!(trace_counts(&mut t).is_empty());
    trace_count(&mut t, Source::Affine, KernelName::AffineF32);
    trace_reset(&mut t);
    assert!(trace_counts(&mut t).is_empty());
}

#[test]
fn pipeline_built_once_then_cached() {
    let builds = Cell::new(0usize);
    let mut cache: PipelineCache<String> = PipelineCache::new();
    assert!(cache.get(Source::Gemm, KernelName::GemmF32).is_none());
    let first = cache
        .load_entry_inner(Source::Gemm, KernelName::GemmF32, || {
            builds.set(builds.get() + 1);
            Ok("gemm pipeline".to_string())
        })
        .unwrap();
    let second = cache
        .load_entry_inner(Source::Gemm, KernelName::GemmF32, || {
            builds.set(builds.get() + 1);
            Ok("another pipeline".to_string())
        })
        .unwrap();
    assert_eq!(first, "gemm pipeline");
    assert_eq!(second, "gemm pipeline");
    assert_eq!(builds.get(), 1);
    assert_eq!(cache.get(Source::Gemm, KernelName::GemmF32).map(|s| s.as_str()), Some("gemm pipeline"));
    assert!(cache.get(Source::Gemm, KernelName::GemmF16).is_none());
}

#[test]
fn failed_pipeline_build_is_not_cached() {
    let mut cache: PipelineCache<u32> = PipelineCache::new();
    let r = cache.load_entry_inner(Source::Affine, KernelName::AffineF32, || Err(VulkanKernelError::EntryPoint));
    assert!(matches!(r, Err(VulkanKernelError::EntryPoint)));
    assert!(cache.get(Source::Affine, KernelName::AffineF32).is_none());
    let r = cache.load_entry_inner(Source::Affine, KernelName::AffineF32, || Ok(7));
    assert_eq!(r.unwrap(), 7);
    cache.insert(Source::Affine, KernelName::AffineF32, 9);
    assert_eq!(cache.get(Source::Affine, KernelName::AffineF32), Some(&9));
}
