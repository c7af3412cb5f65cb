use kaffee::{
    check_upload, plan_draws, quad_indices, DrawCall, ErrorKind, MAX_INDEX_COUNT, MAX_QUAD_COUNT,
    MAX_VERTEX_COUNT,
};

#[test]
fn buffer_limits() {
    assert_eq!(MAX_QUAD_COUNT, 1000);
    assert_eq!(MAX_VERTEX_COUNT, 4000);
    assert_eq!(MAX_INDEX_COUNT, 6000);
}

#[test]
fn index_buffer_follows_quad_topology() {
    let idx = quad_indices(3);
    assert_eq!(idx, vec![0, 1, 2, 2, 3, 0, 4, 5, 6, 6, 7, 4, 8, 9, 10, 10, 11, 8]);
    assert!(quad_indices(0).is_empty());
}

#[test]
fn full_index_buffer() {
    let idx = quad_indices(MAX_QUAD_COUNT);
    assert_eq!(idx.len(), MAX_INDEX_COUNT as usize);
    assert_eq!(&idx[idx.len() - 6..], &[3996, 3997, 3998, 3998, 3999, 3996]);
    let top = quad_indices(16384);
    assert_eq!(*top.last().unwrap(), 65532);
    assert_eq!(top[top.len() - 2], 65535);
}

#[test]
fn batches_follow_each_other_in_the_vertex_buffer() {
    let plan = plan_draws(&[8, 0, 12, 6], 10).unwrap();
    assert_eq!(
        plan,
        vec![
            DrawCall { base_vertex: 0, vertex_count: 8, index_count: 12 },
            DrawCall { base_vertex: 8, vertex_count: 0, index_count: 0 },
            DrawCall { base_vertex: 8, vertex_count: 12, index_count: 18 },
            DrawCall { base_vertex: 20, vertex_count: 6, index_count: 6 },
        ]
    );
    assert_eq!(plan_draws(&[], 10), Ok(vec![]));
}

#[test]
fn plan_fits_exactly_and_fails_one_quad_over() {
    assert!(plan_draws(&[20, 20], 10).is_ok());
    assert_eq!(plan_draws(&[20, 24], 10), Err(ErrorKind::CapacityExceeded));
    assert_eq!(plan_draws(&[44], 10), Err(ErrorKind::CapacityExceeded));
}

#[test]
fn upload_bounds() {
    assert_eq!(check_upload(0, 4000, 4000), Ok(()));
    assert_eq!(check_upload(1, 4000, 4000), Err(ErrorKind::CapacityExceeded));
    assert_eq!(check_upload(4001, 0, 4000), Err(ErrorKind::CapacityExceeded));
    assert_eq!(check_upload(u64::MAX, 1, u64::MAX), Err(ErrorKind::CapacityExceeded));
}
