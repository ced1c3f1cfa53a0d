use editor::{ArenaError, Buffers, Figure, Ratio, Rectangle};

fn rect(x: i64) -> Rectangle {
    Rectangle::new(Ratio::integer(x), Ratio::integer(0), Ratio::integer(2), Ratio::integer(2))
}

#[test]
fn arena_two_shapes_share_the_vertex_region() {
    let mut buffers = Buffers::new(10, 100);
    let first = rect(0);
    let second = rect(5);

    let (at, uploaded) = buffers.buffer_index(&first.indices()).unwrap();
    assert_eq!(at, 0);
    assert_eq!(uploaded, first.indices());
    assert_eq!(buffers.buffer_vertex(&first.data()), Ok(0));
    assert_eq!(buffers.usage().vertex(), 4);

    let (at, uploaded) = buffers.buffer_index(&second.indices()).unwrap();
    assert_eq!(at, 6);
    let local = second.indices();
    assert_eq!(uploaded.len(), local.len());
    for (u, l) in uploaded.iter().zip(local.iter()) {
        assert_eq!(*u, *l + 4);
    }
    assert_eq!(buffers.buffer_vertex(&second.data()), Ok(4));
    assert_eq!(buffers.usage().vertex(), 8);
    assert_eq!(buffers.usage().index(), 12);
}

#[test]
fn arena_overflow_leaves_cursor() {
    let mut buffers = Buffers::new(10, 100);
    assert_eq!(buffers.buffer_vertex(&rect(0).data()), Ok(0));
    assert_eq!(buffers.buffer_vertex(&rect(1).data()), Ok(4));
    assert_eq!(buffers.buffer_vertex(&rect(2).data()), Err(ArenaError::CapacityExceeded));
    assert_eq!(buffers.usage().vertex(), 8);
    // What is left still takes a smaller upload.
    let two = &rect(3).data()[..2];
    assert_eq!(buffers.buffer_vertex(two), Ok(8));
    assert_eq!(buffers.usage().vertex(), 10);
    assert_eq!(buffers.buffer_vertex(&[]), Ok(10));
}

#[test]
fn arena_index_overflow_leaves_cursor() {
    let mut buffers = Buffers::new(10, 8);
    let ix = rect(0).indices();
    assert!(buffers.buffer_index(&ix).is_ok());
    assert_eq!(buffers.buffer_index(&ix), Err(ArenaError::CapacityExceeded));
    assert_eq!(buffers.usage().index(), 6);
}

#[test]
fn arena_rejects_index_past_16_bits() {
    let mut buffers = Buffers::new(70000, 100);
    let many = vec![rect(0).data()[0]; 65535];
    assert_eq!(buffers.buffer_vertex(&many), Ok(0));
    assert_eq!(buffers.buffer_index(&[0]), Ok((0, vec![65535])));
    assert_eq!(buffers.buffer_index(&[0, 1]), Err(ArenaError::IndexOutOfRange));
    assert_eq!(buffers.usage().index(), 1);
}

#[test]
fn arena_reset_starts_a_new_frame() {
    let mut buffers = Buffers::new(10, 20);
    buffers.buffer_vertex(&rect(0).data()).unwrap();
    buffers.buffer_index(&rect(0).indices()).unwrap();
    buffers.reset();
    assert_eq!(buffers.usage().vertex(), 0);
    assert_eq!(buffers.usage().index(), 0);
    assert_eq!(buffers.vertex(), 10);
    assert_eq!(buffers.index(), 20);
    assert_eq!(buffers.buffer_index(&rect(0).indices()), Ok((0, vec![0, 1, 3, 0, 3, 2])));
}

#[test]
fn index_region_is_aligned() {
    assert_eq!(Buffers::new(0, 65000).index_region_size(4), Some(130000));
    assert_eq!(Buffers::new(0, 3).index_region_size(4), Some(8));
    assert_eq!(Buffers::new(0, 0).index_region_size(4), Some(4));
    assert_eq!(Buffers::new(0, 1).index_region_size(4), Some(4));
    assert_eq!(Buffers::new(0, 5).index_region_size(8), Some(16));
}

#[test]
fn region_sizes_that_do_not_fit() {
    assert_eq!(Buffers::new(0, usize::MAX).index_region_size(4), None);
    assert_eq!(Buffers::new(usize::MAX, 0).vertex_region_size(24), None);
}

#[test]
fn vertex_region_size_is_capacity_times_stride() {
    assert_eq!(Buffers::new(10000, 0).vertex_region_size(24), Some(240000));
    assert_eq!(Buffers::new(0, 0).vertex_region_size(24), Some(0));
}
