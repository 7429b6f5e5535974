use quadpaint::batch::{build_quad_indices, Batch, Quad, MAX_QUADS_PER_DRAW_CALL};

fn quad(x: i64, y: i64, size: u32) -> Quad {
    Quad { x, y, size, texture: None }
}

fn total_indices(calls: &[quadpaint::batch::DrawCall]) -> usize {
    calls.iter().map(|c| c.index_count).sum()
}

#[test]
fn index_pattern_per_quad() {
    let indices = build_quad_indices(2);
    assert_eq!(indices, vec![0, 1, 3, 0, 3, 2, 4, 5, 7, 4, 7, 6]);
}

#[test]
fn index_buffer_sized_for_capacity() {
    let indices = build_quad_indices(MAX_QUADS_PER_DRAW_CALL);
    assert_eq!(indices.len(), 6 * MAX_QUADS_PER_DRAW_CALL);
    assert_eq!(indices[6 * MAX_QUADS_PER_DRAW_CALL - 1], (4 * (MAX_QUADS_PER_DRAW_CALL as u32 - 1) + 2));
}

#[test]
fn emission_is_four_vertices_six_indices_per_quad() {
    let mut b = Batch::new();
    b.add_quad(quad(0, 0, 100));
    b.add_quad(quad(10, 10, 100));
    b.add_quad(quad(20, 20, 100));
    let out = b.flush();
    assert_eq!(out.vertices.len(), 4 * 3);
    assert_eq!(total_indices(&out.calls), 6 * 3);
}

#[test]
fn quad_corners_are_exact() {
    let mut b = Batch::new();
    b.add_quad(quad(1000, 2000, 200));
    let out = b.flush();
    let v = &out.vertices;
    assert_eq!((v[0].x, v[0].y), (900, 1900));
    assert_eq!((v[1].x, v[1].y), (1100, 1900));
    assert_eq!((v[2].x, v[2].y), (900, 2100));
    assert_eq!((v[3].x, v[3].y), (1100, 2100));
}

#[test]
fn flushing_an_empty_batch_issues_zero_draw_calls() {
    let mut b = Batch::new();
    let out = b.flush();
    assert_eq!(out.calls.len(), 0);
    assert_eq!(out.vertices.len(), 0);
}

#[test]
fn differing_sizes_form_separate_sub_batches() {
    let mut b = Batch::new();
    b.add_quad(quad(0, 0, 100));
    b.add_quad(quad(1, 1, 300));
    b.add_quad(quad(2, 2, 100));
    let out = b.flush();
    // Two sub-batches: the two quads of size 100, then the one of size 300,
    // each with its own vertex sub-range.
    assert_eq!(out.calls.len(), 2);
    assert_eq!(out.calls[0].size, 100);
    assert_eq!(out.calls[0].index_count, 12);
    assert_eq!(out.calls[0].vertex_count, 8);
    assert_eq!(out.calls[0].first_vertex, 0);
    assert_eq!(out.calls[1].size, 300);
    assert_eq!(out.calls[1].index_count, 6);
    assert_eq!(out.calls[1].vertex_count, 4);
    assert_eq!(out.calls[1].first_vertex, 8);
    // The vertex data is grouped accordingly: both size-100 quads first
    // (at 0 and 2), then the size-300 quad (at 1).
    assert_eq!(out.vertices[4].x, 2 - 50);
    assert_eq!(out.vertices[8].x, 1 - 150);
    assert_eq!(total_indices(&out.calls), 18);
}

#[test]
fn brush_size_change_does_not_lose_order_within_a_size() {
    let mut b = Batch::new();
    b.add_quad(quad(0, 0, 100));
    b.add_quad(quad(100, 0, 200));
    b.add_quad(quad(200, 0, 100));
    let out = b.flush();
    // Within the size-100 sub-batch the two quads keep arrival order.
    assert_eq!(out.vertices[0].x, -50);
    assert_eq!(out.vertices[4].x, 150);
}

#[test]
fn overflow_scenario_capacity_plus_one() {
    let mut b = Batch::new();
    for i in 0..(MAX_QUADS_PER_DRAW_CALL + 1) {
        b.add_quad(quad(i as i64, 0, 100));
    }
    // The batch is at capacity; the extra quad waits in the overflow queue.
    assert_eq!(b.quads.len(), MAX_QUADS_PER_DRAW_CALL);
    assert_eq!(b.overflow.len(), 1);
    let first = b.flush();
    // The current flush renders exactly the capacity.
    assert_eq!(first.vertices.len(), 4 * MAX_QUADS_PER_DRAW_CALL);
    assert_eq!(total_indices(&first.calls), 6 * MAX_QUADS_PER_DRAW_CALL);
    // The deferred quad became the next active batch: rendered on the next
    // pass, with no duplication or loss.
    assert_eq!(b.quads.len(), 1);
    assert_eq!(b.overflow.len(), 0);
    assert_eq!(b.quads[0].x, MAX_QUADS_PER_DRAW_CALL as i64);
    let second = b.flush();
    assert_eq!(second.vertices.len(), 4);
    assert_eq!(total_indices(&second.calls), 6);
    assert_eq!(b.quads.len(), 0);
}

#[test]
fn overflow_preserves_arrival_order() {
    let mut b = Batch::new();
    for i in 0..(MAX_QUADS_PER_DRAW_CALL + 3) {
        b.add_quad(quad(i as i64, 0, 100));
    }
    b.flush();
    assert_eq!(b.quads.len(), 3);
    assert_eq!(b.quads[0].x, MAX_QUADS_PER_DRAW_CALL as i64);
    assert_eq!(b.quads[1].x, MAX_QUADS_PER_DRAW_CALL as i64 + 1);
    assert_eq!(b.quads[2].x, MAX_QUADS_PER_DRAW_CALL as i64 + 2);
}
