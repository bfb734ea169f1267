use candle_vulkan::inplace::{InplaceError, Storages};

#[test]
fn inplace_op_shared_storage_errors_instead_of_deadlocking() {
    let mut store: Storages<f32> = Storages::new();
    let t = store.from_vec(vec![1f32, 2., 3., 4.]);
    let dst = t.narrow(0, 2).unwrap();
    let src = t.narrow(2, 2).unwrap();
    let res = store.inplace_op2(dst, src, |a, b| a + b);
    assert!(res.is_err(), "shared-storage inplace_op2 must error");
    let res = store.inplace_op3(dst, src, src, |a, _b, _c| a);
    let _ = res.expect_err("shared-storage inplace_op3 must error");
    // Distinct storages keep working.
    let a = store.from_vec(vec![1f32, 2.]);
    let b = store.from_vec(vec![10f32, 20.]);
    store.inplace_op2(a, b, |x, y| x + y).unwrap();
    assert_eq!(store.to_vec1(a), [11., 22.]);
}

#[test]
fn refused_inplace_op_leaves_storage_unchanged() {
    let mut store: Storages<u32> = Storages::new();
    let t = store.from_vec(vec![1, 2, 3, 4]);
    let dst = t.narrow(1, 2).unwrap();
    let src = t.narrow(0, 2).unwrap();
    assert_eq!(store.inplace_op2(dst, src, |a, b| a * b), Err(InplaceError::SharedStorage));
    assert_eq!(store.to_vec1(t), vec![1, 2, 3, 4]);
}

#[test]
fn inplace_op3_updates_only_the_view() {
    let mut store: Storages<i64> = Storages::new();
    let d = store.from_vec(vec![1, 2, 3, 4, 5]);
    let b = store.from_vec(vec![10, 20]);
    let c = store.from_vec(vec![100, 200, 300]);
    let view = d.narrow(1, 2).unwrap();
    store.inplace_op3(view, b, c, |x, y, z| x + y + z).unwrap();
    assert_eq!(store.to_vec1(d), vec![1, 112, 223, 4, 5]);
    assert!(t_narrow_out_of_range());
}

fn t_narrow_out_of_range() -> bool {
    let mut store: Storages<u8> = Storages::new();
    let t = store.from_vec(vec![0, 1, 2]);
    t.narrow(2, 2).is_none() && t.narrow(3, 0).is_some()
}
