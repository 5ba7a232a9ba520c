//! The coordinate mapper: device pixels to model space.
//!
//! Device coordinates have their origin at the top left of the screen with y
//! growing downwards; model space runs over [-1, 1] on both axes with the
//! origin at the canvas center and y growing upwards.  In fixed-point units
//! the mapping is `mx = -SCALE + 2*SCALE*(px - left) / width` and
//! `my = SCALE - 2*SCALE*(py - top) / height`, with division rounding toward
//! negative infinity.  It is linear and does no clamping: a pointer outside
//! the canvas maps outside [-SCALE, SCALE].

use vstd::prelude::*;
use vstd::arithmetic::div_mod::{
    lemma_div_nonincreasing, lemma_div_pos_is_pos, lemma_fundamental_div_mod,
    lemma_fundamental_div_mod_converse_div, lemma_div_multiples_vanish,
};
use crate::geom::Point;
use crate::SCALE;

verus! {

/// Largest magnitude accepted for a device pixel coordinate or a canvas
/// extent, comfortably past any real screen.
pub const PIXEL_LIMIT: i64 = 0x8000_0000;

/// True of every device coordinate the mapper accepts.
pub open spec fn valid_pixel(v: int) -> bool {
    -PIXEL_LIMIT <= v <= PIXEL_LIMIT
}

/// The canvas's bounding rectangle in device pixels.
#[derive(Clone, Copy, PartialEq, Eq, Structural, Debug)]
pub struct CanvasRect {
    pub left: i64,
    pub top: i64,
    pub width: i64,
    pub height: i64,
}

impl CanvasRect {
    /// Positive extent (a zero extent makes the mapping meaningless, and is
    /// a caller error), and all fields within the device range.
    pub open spec fn wf(self) -> bool {
        &&& valid_pixel(self.left as int)
        &&& valid_pixel(self.top as int)
        &&& 1 <= self.width <= PIXEL_LIMIT
        &&& 1 <= self.height <= PIXEL_LIMIT
    }
}

/// The model-space x for device x `px`, as a mathematical integer.
pub open spec fn spec_map_x(px: int, left: int, width: int) -> int {
    -SCALE + (2 * SCALE * (px - left)) / width
}

/// The model-space y for device y `py`, as a mathematical integer.
pub open spec fn spec_map_y(py: int, top: int, height: int) -> int {
    SCALE - (2 * SCALE * (py - top)) / height
}

/// Dividing by a positive integer moves a value toward zero: the quotient
/// lies between zero and the dividend.
pub proof fn lemma_floor_div_bounds(n: int, d: int)
    requires
        1 <= d,
    ensures
        n >= 0 ==> 0 <= n / d <= n,
        n < 0 ==> n <= n / d < 0,
{
    if n >= 0 {
        lemma_div_pos_is_pos(n, d);
        lemma_div_nonincreasing(n, d);
    } else {
        lemma_fundamental_div_mod(n, d);
        vstd::arithmetic::div_mod::lemma_mod_division_less_than_divisor(n, d);
        let q = n / d;
        let r = n % d;
        assert(n <= q < 0) by (nonlinear_arith)
            requires
                n == d * q + r,
                0 <= r < d,
                1 <= d,
                n < 0;
    }
}

/// Quotient of `n` by `d`, rounded toward negative infinity.
fn floor_div(n: i64, d: i64) -> (q: i64)
    requires
        1 <= d,
        -0x4000_0000_0000_0000 <= n <= 0x4000_0000_0000_0000,
    ensures
        q == n as int / d as int,
        n >= 0 ==> 0 <= q <= n,
        n < 0 ==> n <= q < 0,
{
    let ud: u64 = d as u64;
    if n >= 0 {
        let uq: u64 = (n as u64) / ud;
        proof {
            lemma_div_pos_is_pos(n as int, d as int);
            lemma_div_nonincreasing(n as int, d as int);
        }
        uq as i64
    } else {
        let m: i64 = -n;
        let c: u64 = ((m - 1) as u64) / ud;
        proof {
            lemma_div_pos_is_pos(m - 1, d as int);
            lemma_div_nonincreasing(m - 1, d as int);
        }
        let q: i64 = -((c as i64) + 1);
        proof {
            let mi = m as int;
            let di = d as int;
            let ci = c as int;
            let r = (mi - 1) % di;
            lemma_fundamental_div_mod(mi - 1, di);
            assert(n as int == (-(ci + 1)) * di + (di - 1 - r)) by (nonlinear_arith)
                requires
                    mi - 1 == di * ci + r,
                    n as int == -mi;
            lemma_fundamental_div_mod_converse_div(n as int, di, -(ci + 1), di - 1 - r);
        }
        q
    }
}

/// Map a device pixel position to model space, given the canvas rectangle in
/// the same device space.
pub fn map_pixel_to_model(px: i64, py: i64, rect: &CanvasRect) -> (p: Point)
    requires
        rect.wf(),
        valid_pixel(px as int),
        valid_pixel(py as int),
    ensures
        p.x == spec_map_x(px as int, rect.left as int, rect.width as int),
        p.y == spec_map_y(py as int, rect.top as int, rect.height as int),
        p.pos_wf(),
{
    let dx: i64 = 2 * SCALE * (px - rect.left);
    let dy: i64 = 2 * SCALE * (py - rect.top);
    let qx: i64 = floor_div(dx, rect.width);
    let qy: i64 = floor_div(dy, rect.height);
    Point { x: -SCALE + qx, y: SCALE - qy }
}

/// The mapper sends the canvas's top-left pixel to the model corner
/// (-1, 1), and the bottom-right pixel `(left + width, top + height)` to
/// (1, -1): the two round trips that anchor the linear map.
pub proof fn lemma_map_corners(rect: CanvasRect)
    requires
        rect.wf(),
    ensures
        spec_map_x(rect.left as int, rect.left as int, rect.width as int) == -SCALE,
        spec_map_y(rect.top as int, rect.top as int, rect.height as int) == SCALE,
        spec_map_x(rect.left + rect.width, rect.left as int, rect.width as int) == SCALE,
        spec_map_y(rect.top + rect.height, rect.top as int, rect.height as int) == -SCALE,
{
    let w = rect.width as int;
    let h = rect.height as int;
    assert((2 * SCALE * 0) / w == 0) by (nonlinear_arith)
        requires w >= 1;
    assert((2 * SCALE * 0) / h == 0) by (nonlinear_arith)
        requires h >= 1;
    lemma_div_multiples_vanish(2 * SCALE, w);
    assert((2 * SCALE * (rect.left + rect.width - rect.left)) / w == 2 * SCALE) by {
        assert(2 * SCALE * (rect.left + rect.width - rect.left) == 2 * SCALE * w)
            by (nonlinear_arith)
            requires rect.left + rect.width - rect.left == w;
    }
    lemma_div_multiples_vanish(2 * SCALE, h);
    assert((2 * SCALE * (rect.top + rect.height - rect.top)) / h == 2 * SCALE) by {
        assert(2 * SCALE * (rect.top + rect.height - rect.top) == 2 * SCALE * h)
            by (nonlinear_arith)
            requires rect.top + rect.height - rect.top == h;
    }
}

/// A pointer at the canvas center pixel maps to the model origin, for a
/// canvas whose extent splits into two equal halves of pixels.
pub proof fn lemma_map_center(rect: CanvasRect)
    requires
        rect.wf(),
        rect.width as int % 2 == 0,
        rect.height as int % 2 == 0,
    ensures
        spec_map_x(rect.left + rect.width as int / 2, rect.left as int, rect.width as int) == 0,
        spec_map_y(rect.top + rect.height as int / 2, rect.top as int, rect.height as int) == 0,
{
    let w = rect.width as int;
    let h = rect.height as int;
    assert(2 * SCALE * (rect.left + w / 2 - rect.left) == SCALE * w) by (nonlinear_arith)
        requires w % 2 == 0, w >= 1;
    lemma_div_multiples_vanish(SCALE as int, w);
    assert(2 * SCALE * (rect.top + h / 2 - rect.top) == SCALE * h) by (nonlinear_arith)
        requires h % 2 == 0, h >= 1;
    lemma_div_multiples_vanish(SCALE as int, h);
}

} // verus!
