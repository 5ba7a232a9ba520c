//! The frame scheduler and the derived vertex buffer.

use shape_editor::frame::FrameScheduler;
use shape_editor::frame::render_frame;
use shape_editor::hit::hit_test;
use shape_editor::geom::Point;
use shape_editor::model::initial_state;
use shape_editor::SCALE;

#[test]
fn initial_frame_buffer_is_exact() {
    let s = initial_state();
    let buf = render_frame(&s);
    let grey: i64 = 300_000;
    let expected: Vec<i64> = vec![
        // Background rectangle of the one quad, fan order.
        -500_000, -500_000, grey, grey, grey,
        500_000, -500_000, grey, grey, grey,
        500_000, 500_000, grey, grey, grey,
        -500_000, 500_000, grey, grey, grey,
        // The four vertices in their stored colours.
        -500_000, -500_000, SCALE, SCALE, 0,
        -500_000, 500_000, SCALE, 0, SCALE,
        500_000, 500_000, 0, SCALE, SCALE,
        500_000, -500_000, 0, SCALE, 0,
        // The cursor's handle corners in red.
        -30_000, -30_000, SCALE, 0, 0,
        30_000, -30_000, SCALE, 0, 0,
        30_000, 30_000, SCALE, 0, 0,
        -30_000, 30_000, SCALE, 0, 0,
    ];
    assert_eq!(buf, expected);
}

#[test]
fn hovered_vertex_is_drawn_highlighted_without_losing_its_colour() {
    let mut s = initial_state();
    hit_test(&mut s, Point { x: 500_000, y: 500_000 });
    assert!(s.quads[0].vertices[2].hovered);
    let buf = render_frame(&s);
    // Vertex 2's entry sits after 4 background and 2 vertex entries.
    let at = 5 * 6;
    assert_eq!(&buf[at..at + 5], &[500_000, 500_000, SCALE, SCALE, SCALE]);
    // The stored colour is untouched: a later pass away from the vertex
    // draws it cyan again.
    hit_test(&mut s, Point { x: 0, y: 0 });
    let buf = render_frame(&s);
    assert_eq!(&buf[at..at + 5], &[500_000, 500_000, 0, SCALE, SCALE]);
}

#[test]
fn buffer_length_is_four_entries_per_drawn_shape() {
    // One quad draws as two fans (background and corners), the cursor as one.
    let mut s = initial_state();
    assert_eq!(render_frame(&s).len(), 3 * 4 * 5);
    let second = s.quads[0].clone();
    s.quads.push(second);
    assert_eq!(render_frame(&s).len(), 5 * 4 * 5);
}

#[test]
fn bounding_rectangle_tracks_dragged_corners() {
    let mut s = initial_state();
    s.pointer_down = true;
    s.selected = Some(shape_editor::model::Selection { quad_index: 0, vertex_id: 2 });
    shape_editor::solver::apply_drag(&mut s, Point { x: 900_000, y: 800_000 });
    let buf = render_frame(&s);
    // Background max corner follows the dragged vertex.
    assert_eq!(&buf[10..12], &[900_000, 800_000]);
    assert_eq!(&buf[0..2], &[-500_000, -500_000]);
}

#[test]
fn scheduler_runs_only_between_start_and_stop() {
    let s = initial_state();
    let mut sched = FrameScheduler::new();
    assert!(sched.on_frame(&s).is_none());
    // Starting from Idle owes the host a frame request.
    assert!(sched.start());
    // Starting again does not: one is already outstanding.
    assert!(!sched.start());
    let first = sched.on_frame(&s);
    assert_eq!(first.unwrap(), render_frame(&s));
    // Pending stays Pending: the loop keeps redrawing.
    assert!(sched.on_frame(&s).is_some());
    sched.stop();
    assert!(sched.on_frame(&s).is_none());
}
