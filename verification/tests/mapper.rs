//! The coordinate mapper on concrete canvases.

use shape_editor::geom::Point;
use shape_editor::mapper::{map_pixel_to_model, CanvasRect};
use shape_editor::SCALE;

fn rect(left: i64, top: i64, width: i64, height: i64) -> CanvasRect {
    CanvasRect { left, top, width, height }
}

#[test]
fn top_left_pixel_maps_to_minus_one_plus_one() {
    let r = rect(100, 50, 640, 480);
    let p = map_pixel_to_model(100, 50, &r);
    assert_eq!(p, Point { x: -SCALE, y: SCALE });
}

#[test]
fn bottom_right_pixel_maps_to_plus_one_minus_one() {
    let r = rect(100, 50, 640, 480);
    let p = map_pixel_to_model(100 + 640, 50 + 480, &r);
    assert_eq!(p, Point { x: SCALE, y: -SCALE });
}

#[test]
fn center_pixel_maps_to_origin() {
    let r = rect(-20, 8, 800, 600);
    let p = map_pixel_to_model(-20 + 400, 8 + 300, &r);
    assert_eq!(p, Point { x: 0, y: 0 });
}

#[test]
fn quarter_point_maps_to_minus_half_plus_half() {
    let r = rect(100, 50, 200, 100);
    let p = map_pixel_to_model(150, 75, &r);
    assert_eq!(p, Point { x: -500_000, y: 500_000 });
}

#[test]
fn pointer_left_of_canvas_maps_outside_range_unclamped() {
    let r = rect(100, 50, 200, 100);
    let p = map_pixel_to_model(50, 25, &r);
    assert_eq!(p, Point { x: -1_500_000, y: 1_500_000 });
}

#[test]
fn non_divisible_offset_rounds_toward_negative_infinity() {
    let r = rect(0, 0, 3, 3);
    let p = map_pixel_to_model(1, 2, &r);
    // 2*SCALE*1/3 floors to 666_666; 2*SCALE*2/3 floors to 1_333_333.
    assert_eq!(p.x, -SCALE + 666_666);
    assert_eq!(p.y, SCALE - 1_333_333);
}
