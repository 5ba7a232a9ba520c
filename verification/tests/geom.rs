//! Boxes, handles and containment on concrete values.

use shape_editor::geom::{AxisAlignedBox, Point};
use shape_editor::model::{Rgb, Vertex};
use shape_editor::SCALE;

#[test]
fn containment_is_closed_on_all_four_sides() {
    let b = AxisAlignedBox {
        origin: Point { x: -10, y: 20 },
        width: 30,
        height: 40,
    };
    assert!(b.contains(Point { x: -10, y: 20 }));
    assert!(b.contains(Point { x: 20, y: 60 }));
    assert!(b.contains(Point { x: 5, y: 33 }));
    assert!(!b.contains(Point { x: -11, y: 20 }));
    assert!(!b.contains(Point { x: 21, y: 60 }));
    assert!(!b.contains(Point { x: 5, y: 61 }));
}

#[test]
fn a_degenerate_box_contains_exactly_its_origin() {
    let b = AxisAlignedBox {
        origin: Point { x: 7, y: -3 },
        width: 0,
        height: 0,
    };
    assert!(b.contains(Point { x: 7, y: -3 }));
    assert!(!b.contains(Point { x: 7, y: -2 }));
    assert!(!b.contains(Point { x: 8, y: -3 }));
}

#[test]
fn vertex_handle_is_centered_on_its_position() {
    let v = Vertex {
        id: 2,
        pos: Point { x: 100_000, y: -200_000 },
        half_width: 50_000,
        half_height: 30_000,
        colour: Rgb { red: 0, green: SCALE, blue: 0 },
        hovered: false,
    };
    let b = v.handle();
    assert_eq!(b.origin, Point { x: 50_000, y: -230_000 });
    assert_eq!(b.width, 100_000);
    assert_eq!(b.height, 60_000);
    // The handle and the vertex's own hit test agree on the boundary.
    assert!(v.hit(Point { x: 150_000, y: -170_000 }));
    assert!(b.contains(Point { x: 150_000, y: -170_000 }));
    assert!(!v.hit(Point { x: 150_001, y: -170_000 }));
    assert!(!b.contains(Point { x: 150_001, y: -170_000 }));
}
