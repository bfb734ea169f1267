use candle_vulkan::device::{quantized_storage_size, FenceRing, FENCE_RING_SIZE};
use candle_vulkan::dispatch::{
    copy_dispatch, dequant_dispatch, elem_binary_dispatch, elem_unary_dispatch, elementwise_dispatch,
    gather_dispatch, gemm_dispatch, gemv_dispatch, gemv_t_dispatch, linear_groups, q4k_qmatvec_dispatch,
    reduce_sum_dispatch, rms_norm_dispatch, rope_dispatch, rows_dispatch, single_buffer_dispatch,
};

#[test]
fn workgroups_cover_every_item() {
    assert_eq!(linear_groups(0, 256), 0);
    assert_eq!(linear_groups(1, 256), 1);
    assert_eq!(linear_groups(256, 256), 1);
    assert_eq!(linear_groups(257, 256), 2);
    assert_eq!(linear_groups(65536, 64), 1024);
    for total in [1u64, 255, 256, 1000, 65537] {
        let g = linear_groups(total, 256) as u64;
        assert!(g * 256 >= total && (g - 1) * 256 < total);
    }
    // The count is the 32-bit value a dispatch takes.
    assert_eq!(linear_groups(1 << 40, 1), 0);
}

#[test]
fn elementwise_and_fill_grids() {
    let d = elementwise_dispatch(1000);
    assert_eq!((d.x, d.y, d.z), (4, 1, 1));
    assert!(d.push_constants.is_empty());
    let d = single_buffer_dispatch(64, 65536);
    assert_eq!((d.x, d.y, d.z), (1024, 1, 1));
}

#[test]
fn gemm_grid_tiles_of_sixteen() {
    let d = gemm_dispatch(3, 17, 32);
    assert_eq!((d.x, d.y, d.z), (2, 2, 3));
}

#[test]
fn copy_push_constants() {
    let d = copy_dispatch(24, &[2, 3, 4], &[12, 4, 1], &[1, 2], 5, 7).unwrap();
    assert_eq!(d.x, 1);
    assert_eq!(
        d.push_constants,
        vec![24, 3, 2, 3, 4, 0, 12, 4, 1, 0, 1, 2, 0, 0, 5, 7]
    );
    assert!(copy_dispatch(1, &[1, 1, 1, 1, 1], &[], &[], 0, 0).is_err());
}

#[test]
fn broadcast_binary_push_constants() {
    let d = elem_binary_dispatch(600, &[2, 300], &[300]).unwrap();
    assert_eq!(d.x, 3);
    assert_eq!(d.push_constants, vec![600, 2, 1, 2, 300, 0, 0, 300, 0, 0, 0]);
    assert!(elem_binary_dispatch(1, &[1], &[1, 1, 1, 1, 1]).is_err());
    let u = elem_unary_dispatch(10);
    assert_eq!(u.push_constants, vec![10, 0, 0, 0, 0, 0, 0, 0, 0, 0, 0]);
    assert_eq!(u.x, 1);
}

#[test]
fn row_and_matvec_grids() {
    assert_eq!(rows_dispatch(5).x, 5);
    let g = gather_dispatch(513, 64);
    assert_eq!((g.x, g.push_constants.clone()), (3, vec![513, 64]));
    let v = gemv_dispatch(4096, 1000);
    assert_eq!((v.x, v.push_constants.clone()), (4, vec![4096, 1000]));
    let t = gemv_t_dispatch(10, 64, 80);
    assert_eq!((t.x, t.push_constants.clone()), (3, vec![10, 64, 80]));
    let q = q4k_qmatvec_dispatch(256, 3);
    assert_eq!((q.x, q.push_constants.clone()), (768, vec![256, 3]));
    let dq = dequant_dispatch(257);
    assert_eq!((dq.x, dq.push_constants.clone()), (2, vec![257, 0]));
    let r = reduce_sum_dispatch(7, 9);
    assert_eq!((r.x, r.push_constants.clone()), (7, vec![7, 9]));
    let n = rms_norm_dispatch(2, 8, 1e-5f32.to_bits());
    assert_eq!(n.push_constants, vec![2, 8, 1e-5f32.to_bits()]);
    let p = rope_dispatch(2, 4, 3, 64, true);
    assert_eq!((p.x, p.y, p.z), (24, 32, 1));
    assert_eq!(p.push_constants, vec![24, 4, 3, 64, 1]);
}

#[test]
fn fence_ring_takes_slots_in_turn() {
    let mut ring = FenceRing::new();
    let (s0, w0) = ring.claim();
    assert_eq!((s0, w0), (0, false));
    for i in 1..FENCE_RING_SIZE {
        let (s, w) = ring.claim();
        assert_eq!((s, w), (i, false));
    }
    // The ring wrapped: slot 0 holds the first submission and must be
    // waited on.
    assert_eq!(ring.claim(), (0, true));
    assert_eq!(ring.claim(), (1, true));
}

#[test]
fn quantized_sizes_round_up_to_whole_blocks() {
    // Q4_K: 256 elements in 144 bytes.
    assert_eq!(quantized_storage_size(256, 256, 144), 144);
    assert_eq!(quantized_storage_size(300, 256, 144), 288);
    assert_eq!(quantized_storage_size(0, 32, 34), 0);
    // Q8_0: 32 elements in 34 bytes.
    assert_eq!(quantized_storage_size(64, 32, 34), 68);
}
