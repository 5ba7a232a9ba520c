//! Hit testing, selection and drag on concrete editor states.

use shape_editor::geom::Point;
use shape_editor::hit::hit_test;
use shape_editor::input::pointer_event;
use shape_editor::mapper::CanvasRect;
use shape_editor::model::{initial_state, EditorState, Quad, Rgb, Selection, Vertex};
use shape_editor::solver::apply_drag;
use shape_editor::SCALE;

fn vertex(id: usize, x: i64, y: i64) -> Vertex {
    Vertex {
        id,
        pos: Point { x, y },
        half_width: 50_000,
        half_height: 50_000,
        colour: Rgb { red: SCALE, green: 0, blue: 0 },
        hovered: false,
    }
}

#[test]
fn initial_state_has_expected_layout() {
    let s = initial_state();
    assert_eq!(s.quads.len(), 1);
    let vs = &s.quads[0].vertices;
    assert_eq!(vs.len(), 4);
    assert_eq!(vs[0].pos, Point { x: -500_000, y: -500_000 });
    assert_eq!(vs[1].pos, Point { x: -500_000, y: 500_000 });
    assert_eq!(vs[2].pos, Point { x: 500_000, y: 500_000 });
    assert_eq!(vs[3].pos, Point { x: 500_000, y: -500_000 });
    for (j, v) in vs.iter().enumerate() {
        assert_eq!(v.id, j);
        assert!(!v.hovered);
    }
    assert_eq!(s.cursor.pos, Point { x: 0, y: 0 });
    assert!(!s.pointer_down);
    assert_eq!(s.selected, None);
}

#[test]
fn drag_corner_zero_to_origin_realigns_neighbours() {
    // The quad of the initial layout; drag id 0 to (0, 0).
    let mut s = initial_state();
    s.pointer_down = true;
    s.selected = Some(Selection { quad_index: 0, vertex_id: 0 });
    apply_drag(&mut s, Point { x: 0, y: 0 });
    let vs = &s.quads[0].vertices;
    assert_eq!(vs[0].pos, Point { x: 0, y: 0 });
    // id 1 inherits the new x and keeps its y.
    assert_eq!(vs[1].pos, Point { x: 0, y: 500_000 });
    // id 3 inherits the new y and keeps its x.
    assert_eq!(vs[3].pos, Point { x: 500_000, y: 0 });
    // The diagonal corner id 2 is untouched.
    assert_eq!(vs[2].pos, Point { x: 500_000, y: 500_000 });
}

#[test]
fn drag_odd_corner_swaps_inherited_axes() {
    let mut s = initial_state();
    s.pointer_down = true;
    s.selected = Some(Selection { quad_index: 0, vertex_id: 1 });
    apply_drag(&mut s, Point { x: -200_000, y: 700_000 });
    let vs = &s.quads[0].vertices;
    assert_eq!(vs[1].pos, Point { x: -200_000, y: 700_000 });
    // Previous neighbour id 0 inherits the new x.
    assert_eq!(vs[0].pos, Point { x: -200_000, y: -500_000 });
    // Next neighbour id 2 inherits the new y.
    assert_eq!(vs[2].pos, Point { x: 500_000, y: 700_000 });
    // The diagonal corner id 3 is untouched.
    assert_eq!(vs[3].pos, Point { x: 500_000, y: -500_000 });
}

#[test]
fn drag_with_no_selection_is_a_no_op() {
    let mut s = initial_state();
    let before = s.clone();
    apply_drag(&mut s, Point { x: 123_456, y: -654_321 });
    assert_eq!(s, before);
}

#[test]
fn hit_test_sets_hover_inside_handle_only() {
    let mut s = initial_state();
    // Just inside the closed boundary of vertex 2's handle.
    hit_test(&mut s, Point { x: 550_000, y: 450_000 });
    let vs = &s.quads[0].vertices;
    assert!(!vs[0].hovered);
    assert!(!vs[1].hovered);
    assert!(vs[2].hovered);
    assert!(!vs[3].hovered);
    // Pointer up: no selection.
    assert_eq!(s.selected, None);
}

#[test]
fn hit_test_twice_gives_identical_hover_flags() {
    let mut s = initial_state();
    let p = Point { x: -500_000, y: 500_000 };
    hit_test(&mut s, p);
    let once = s.clone();
    hit_test(&mut s, p);
    assert_eq!(s, once);
}

#[test]
fn overlapping_handles_select_last_in_iteration_order() {
    // A quad small enough that all four handles contain its center.
    let q = Quad {
        vertices: vec![
            vertex(0, 0, 0),
            vertex(1, 0, 20_000),
            vertex(2, 20_000, 20_000),
            vertex(3, 20_000, 0),
        ],
    };
    let mut s = initial_state();
    s.quads = vec![q];
    s.pointer_down = true;
    hit_test(&mut s, Point { x: 10_000, y: 10_000 });
    let vs = &s.quads[0].vertices;
    assert!(vs.iter().all(|v| v.hovered));
    assert_eq!(s.selected, Some(Selection { quad_index: 0, vertex_id: 3 }));
}

#[test]
fn selection_prefers_later_quad() {
    let mut s = initial_state();
    let second = s.quads[0].clone();
    s.quads.push(second);
    s.pointer_down = true;
    hit_test(&mut s, Point { x: -500_000, y: -500_000 });
    assert_eq!(s.selected, Some(Selection { quad_index: 1, vertex_id: 0 }));
}

#[test]
fn selection_persists_while_down_without_hover() {
    let mut s = initial_state();
    s.pointer_down = true;
    s.selected = Some(Selection { quad_index: 0, vertex_id: 2 });
    hit_test(&mut s, Point { x: 0, y: 0 });
    assert_eq!(s.selected, Some(Selection { quad_index: 0, vertex_id: 2 }));
}

#[test]
fn pointer_event_drives_a_whole_drag() {
    let mut s = initial_state();
    let r = CanvasRect { left: 0, top: 0, width: 1000, height: 1000 };
    // Press on corner 0 at model (-1/2, -1/2): pixel (250, 750).
    pointer_event(&mut s, 250, 750, 1, &r);
    assert_eq!(s.selected, Some(Selection { quad_index: 0, vertex_id: 0 }));
    assert!(s.pointer_down);
    // Move to the canvas center: corner 0 follows to (0, 0).
    pointer_event(&mut s, 500, 500, 1, &r);
    assert_eq!(s.selected, Some(Selection { quad_index: 0, vertex_id: 0 }));
    let vs = &s.quads[0].vertices;
    assert_eq!(vs[0].pos, Point { x: 0, y: 0 });
    assert_eq!(vs[1].pos, Point { x: 0, y: 500_000 });
    assert_eq!(vs[3].pos, Point { x: 500_000, y: 0 });
    assert_eq!(vs[2].pos, Point { x: 500_000, y: 500_000 });
    assert_eq!(s.cursor.pos, Point { x: 0, y: 0 });
}

#[test]
fn releasing_the_button_clears_selection_whatever_is_hovered() {
    let mut s = initial_state();
    let r = CanvasRect { left: 0, top: 0, width: 1000, height: 1000 };
    pointer_event(&mut s, 250, 750, 1, &r);
    assert!(s.selected.is_some());
    // Same position, button released: still hovered, selection gone.
    pointer_event(&mut s, 250, 750, 0, &r);
    assert!(s.quads[0].vertices[0].hovered);
    assert_eq!(s.selected, None);
    assert!(!s.pointer_down);
    // A mask with bit 0 set among other bits still drags.
    pointer_event(&mut s, 250, 750, 5, &r);
    assert!(s.pointer_down);
    assert_eq!(s.selected, Some(Selection { quad_index: 0, vertex_id: 0 }));
    // A mask with only other buttons does not.
    pointer_event(&mut s, 250, 750, 4, &r);
    assert_eq!(s.selected, None);
}

#[test]
fn shared_selection_drags_the_same_corner_of_every_quad() {
    let mut s = initial_state();
    let second = s.quads[0].clone();
    s.quads.push(second);
    s.pointer_down = true;
    s.selected = Some(Selection { quad_index: 1, vertex_id: 2 });
    apply_drag(&mut s, Point { x: 600_000, y: 650_000 });
    for q in &s.quads {
        assert_eq!(q.vertices[2].pos, Point { x: 600_000, y: 650_000 });
        assert_eq!(q.vertices[1].pos, Point { x: -500_000, y: 650_000 });
        assert_eq!(q.vertices[3].pos, Point { x: 600_000, y: -500_000 });
        assert_eq!(q.vertices[0].pos, Point { x: -500_000, y: -500_000 });
    }
}

#[test]
fn cursor_follows_pointer_exactly() {
    let mut s = initial_state();
    let r = CanvasRect { left: 10, top: 10, width: 100, height: 100 };
    pointer_event(&mut s, 10, 10, 0, &r);
    assert_eq!(s.cursor.pos, Point { x: -SCALE, y: SCALE });
    pointer_event(&mut s, 110, 110, 0, &r);
    assert_eq!(s.cursor.pos, Point { x: SCALE, y: -SCALE });
}

fn aligned(s: &EditorState) -> bool {
    s.quads.iter().all(|q| {
        let v = &q.vertices;
        v[0].pos.x == v[1].pos.x
            && v[1].pos.y == v[2].pos.y
            && v[2].pos.x == v[3].pos.x
            && v[3].pos.y == v[0].pos.y
    })
}

#[test]
fn quads_stay_axis_aligned_over_a_sequence_of_drags() {
    let mut s = initial_state();
    let r = CanvasRect { left: 0, top: 0, width: 800, height: 600 };
    let moves: [(i64, i64, u32); 8] = [
        (200, 450, 1),
        (400, 300, 1),
        (700, 100, 1),
        (700, 100, 0),
        (600, 150, 1),
        (100, 500, 1),
        (-50, 700, 1),
        (123, 456, 0),
    ];
    for (px, py, mask) in moves {
        pointer_event(&mut s, px, py, mask, &r);
        assert!(aligned(&s));
    }
}
