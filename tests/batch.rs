use kaffee::{plan_draws, BatchContext, Color, ErrorKind, Rect, Vertex, MAX_QUAD_COUNT, UV_ONE};

fn vertex(x: i32, y: i32, color: Color, u: u32, v: u32) -> Vertex {
    Vertex { x, y, color, u, v }
}

#[test]
fn rect_vertices_are_the_four_corners_in_order() {
    let mut b = BatchContext::with_capacity(4);
    let c = Color::red();
    assert_eq!(b.draw_rect(10, 20, 30, 40, c), Ok(()));
    let vs = b.vertices();
    assert_eq!(vs.len(), 4);
    assert_eq!(vs[0], vertex(40, 60, c, UV_ONE, UV_ONE));
    assert_eq!(vs[1], vertex(40, 20, c, UV_ONE, 0));
    assert_eq!(vs[2], vertex(10, 20, c, 0, 0));
    assert_eq!(vs[3], vertex(10, 60, c, 0, UV_ONE));
    assert!(vs.iter().all(|v| v.color == c));
}

#[test]
fn negative_size_rect_keeps_the_corner_order() {
    let mut b = BatchContext::with_capacity(1);
    let c = Color::blue();
    assert_eq!(b.draw_rect(5, 5, -3, -2, c), Ok(()));
    let pos: Vec<(i32, i32)> = b.vertices().iter().map(|v| (v.x, v.y)).collect();
    assert_eq!(pos, vec![(2, 3), (2, 5), (5, 5), (5, 3)]);
}

#[test]
fn full_region_draw_matches_plain_rect() {
    let c = Color::new(1, 2, 3, 4);
    let mut a = BatchContext::with_capacity(2);
    let mut b = BatchContext::with_capacity(2);
    assert_eq!(a.draw_rect(-7, 3, 12, 9, c), Ok(()));
    assert_eq!(b.draw_texture_region(-7, 3, 12, 9, c, Rect::full()), Ok(()));
    assert_eq!(a.vertices(), b.vertices());
    assert_eq!(Rect::full(), Rect::new(0, 0, UV_ONE, UV_ONE));
}

#[test]
fn texture_region_maps_region_corners() {
    let c = Color::white();
    let mut b = BatchContext::with_capacity(1);
    let uv = Rect::new(100, 200, 300, 400);
    assert_eq!(b.draw_texture_region(0, 0, 8, 8, c, uv), Ok(()));
    let vs = b.vertices();
    assert_eq!((vs[0].u, vs[0].v), (300, 400));
    assert_eq!((vs[1].u, vs[1].v), (300, 200));
    assert_eq!((vs[2].u, vs[2].v), (100, 200));
    assert_eq!((vs[3].u, vs[3].v), (100, 400));
}

#[test]
fn draw_quad_is_a_square_rect() {
    let c = Color::green();
    let mut a = BatchContext::with_capacity(1);
    let mut b = BatchContext::with_capacity(1);
    assert_eq!(a.draw_quad(300, 300, 100, c), Ok(()));
    assert_eq!(b.draw_rect(300, 300, 100, 100, c), Ok(()));
    assert_eq!(a.vertices(), b.vertices());
}

#[test]
fn sequence_fills_four_vertices_per_rect_and_repeats_after_reset() {
    let mut b = BatchContext::with_capacity(5);
    let calls = [(0, 0, 1, 1), (3, 4, 5, 6), (-2, -2, 2, 2), (100, 0, 7, 7), (9, 9, 0, 0)];
    for (i, &(x, y, w, h)) in calls.iter().enumerate() {
        assert_eq!(b.draw_rect(x, y, w, h, Color::new(i as u8, 0, 0, 255)), Ok(()));
    }
    assert_eq!(b.vertices().len(), 4 * calls.len());
    assert_eq!(b.offset(), 20);
    let first: Vec<Vertex> = b.vertices().to_vec();
    b.reset();
    assert_eq!(b.vertices().len(), 0);
    for (i, &(x, y, w, h)) in calls.iter().enumerate() {
        assert_eq!(b.draw_rect(x, y, w, h, Color::new(i as u8, 0, 0, 255)), Ok(()));
    }
    assert_eq!(b.vertices(), &first[..]);
}

#[test]
fn capacity_boundary_rejects_one_quad_too_many() {
    let mut b = BatchContext::with_capacity(3);
    assert_eq!(b.capacity(), 12);
    for i in 0..3 {
        assert_eq!(b.draw_rect(i, i, 1, 1, Color::black()), Ok(()));
    }
    let before: Vec<Vertex> = b.vertices().to_vec();
    assert_eq!(b.draw_rect(50, 50, 1, 1, Color::black()), Err(ErrorKind::CapacityExceeded));
    assert_eq!(b.vertices(), &before[..]);
    assert_eq!(b.offset(), 12);
    b.reset();
    assert_eq!(b.draw_rect(50, 50, 1, 1, Color::black()), Ok(()));
}

#[test]
fn zero_capacity_batch_rejects_every_draw() {
    let mut b = BatchContext::with_capacity(0);
    assert_eq!(b.draw_quad(0, 0, 1, Color::white()), Err(ErrorKind::CapacityExceeded));
    assert_eq!(b.offset(), 0);
}

#[test]
fn end_to_end_batch_of_eight_quads() {
    let mut b = BatchContext::with_capacity(8);
    assert_eq!(b.draw_rect(0, 0, 10, 10, Color::red()), Ok(()));
    assert_eq!(b.draw_rect(20, 0, 10, 10, Color::blue()), Ok(()));
    let plan = plan_draws(&[b.offset()], MAX_QUAD_COUNT).unwrap();
    assert_eq!(b.vertices().len(), 8);
    assert_eq!(plan[0].vertex_count, 8);
    assert_eq!(plan[0].index_count, 12);
    b.reset();
    assert_eq!(b.draw_quad(5, 5, 3, Color::white()), Ok(()));
    assert_eq!(b.vertices().len(), 4);
    assert_eq!(b.quad_count(), 1);
    assert_eq!(b.index_count(), 6);
}
