//! Core of a direct-manipulation 2D shape editor.
//!
//! A pointer drags the corners of axis-aligned quadrilaterals drawn on a
//! canvas.  The library owns everything with an invariant in it: the mapping
//! from device pixels to model space, the shape model and its axis-alignment
//! invariant, hit testing and selection, the constraint solver that keeps a
//! quad rectangular while a corner moves, and the frame scheduler that derives
//! the per-frame vertex buffers.  The host glue (DOM events, WebGL calls,
//! the animation-frame loop) stays outside and talks to the library in plain
//! integer values.
//!
//! All geometry lives in a fixed-point model space: a coordinate is an `i64`
//! count of millionths, so the model range [-1, 1] is [-SCALE, SCALE].

use vstd::prelude::*;

pub mod frame;
pub mod geom;
pub mod hit;
pub mod input;
pub mod mapper;
pub mod model;
pub mod solver;

verus! {

/// Number of fixed-point units in one model-space unit.
pub const SCALE: i64 = 1_000_000;

/// Largest magnitude a model-space coordinate may take.  Generous enough for
/// any pointer position a canvas can produce, small enough that sums and
/// differences of a few coordinates stay well inside `i64`.
pub const MAX_COORD: i64 = 0x40_0000_0000_0000;

/// True of every coordinate the model accepts.
pub open spec fn in_coord_range(x: int) -> bool {
    -MAX_COORD <= x <= MAX_COORD
}

/// Largest magnitude a vertex or cursor position may take: one handle
/// half-extent short of the coordinate range, so a handle centered on any
/// accepted position still lies within the range.
pub const MAX_POS: i64 = MAX_COORD - SCALE;

/// True of every position a vertex or the cursor may hold.
pub open spec fn in_pos_range(x: int) -> bool {
    -MAX_POS <= x <= MAX_POS
}

} // verus!
