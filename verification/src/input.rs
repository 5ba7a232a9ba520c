//! One pointer event, end to end.
//!
//! A pointer-move event arrives as device pixel coordinates and a button
//! mask; bit 0 of the mask — the primary button — is the sole drag-enable
//! signal.  The event is mapped to model space, the cursor follows the
//! mapped point exactly, the hit tester refreshes hover flags and the
//! selection, and, while a selection is active, the constraint solver drags
//! the selected corner of every quad to the point.

use vstd::prelude::*;
use crate::geom::Point;
use crate::hit::{
    hover_all, lemma_hover_preserves_quad_wf, lemma_last_hit_in_range, selection_after,
};
use crate::mapper::{
    lemma_floor_div_bounds, map_pixel_to_model, spec_map_x, spec_map_y, valid_pixel, CanvasRect,
};
use crate::model::{model_wf, quad_wf, Cursor, EditorModel, EditorState, Vertex};
use crate::solver::{apply_drag, drag_quad, lemma_drag_preserves_quad_wf};
use crate::SCALE;

verus! {

/// A pointer-move event as the host delivers it: a device pixel position, a
/// button mask, and the canvas rectangle the position is relative to.
pub struct PointerEvent {
    pub px: int,
    pub py: int,
    pub button_mask: u32,
    pub rect: CanvasRect,
}

/// An event the mapper accepts: a well-formed canvas and in-range pixels.
pub open spec fn event_valid(e: PointerEvent) -> bool {
    &&& e.rect.wf()
    &&& valid_pixel(e.px)
    &&& valid_pixel(e.py)
}

/// The model-space point a pointer event maps to.
pub open spec fn event_point(px: int, py: int, rect: CanvasRect) -> Point {
    Point {
        x: spec_map_x(px, rect.left as int, rect.width as int) as i64,
        y: spec_map_y(py, rect.top as int, rect.height as int) as i64,
    }
}

/// The editor state after one pointer event: cursor on the mapped point,
/// the button mask's bit 0 as the pointer-down flag, hover flags refreshed,
/// the selection rule applied, and — while a selection is active — a solver
/// step on every quad.
pub open spec fn event_step(
    m: EditorModel,
    px: int,
    py: int,
    button_mask: u32,
    rect: CanvasRect,
) -> EditorModel {
    let p = event_point(px, py, rect);
    let down = button_mask & 1 == 1;
    let sel = selection_after(m.quads, p, down, m.selected);
    let hovered = hover_all(m.quads, p);
    let dragged = match sel {
        Some(s) => hovered.map_values(|vs: Seq<Vertex>| drag_quad(vs, s.vertex_id as int, p)),
        None => hovered,
    };
    EditorModel {
        quads: dragged,
        cursor: Cursor { pos: p, ..m.cursor },
        pointer_down: down,
        selected: sel,
    }
}

/// The mapped point of a valid event lies in the position range, so it can
/// become a vertex or cursor position.
pub proof fn lemma_event_point_wf(px: int, py: int, rect: CanvasRect)
    requires
        rect.wf(),
        valid_pixel(px),
        valid_pixel(py),
    ensures
        event_point(px, py, rect).pos_wf(),
        event_point(px, py, rect).x == spec_map_x(px, rect.left as int, rect.width as int),
        event_point(px, py, rect).y == spec_map_y(py, rect.top as int, rect.height as int),
{
    let nx = 2 * SCALE * (px - rect.left);
    let ny = 2 * SCALE * (py - rect.top);
    assert(-0x20_0000_0000_0000 <= nx <= 0x20_0000_0000_0000) by (nonlinear_arith)
        requires
            nx == 2 * SCALE * (px - rect.left),
            SCALE == 1_000_000,
            -0x1_0000_0000 <= px - rect.left <= 0x1_0000_0000;
    assert(-0x20_0000_0000_0000 <= ny <= 0x20_0000_0000_0000) by (nonlinear_arith)
        requires
            ny == 2 * SCALE * (py - rect.top),
            SCALE == 1_000_000,
            -0x1_0000_0000 <= py - rect.top <= 0x1_0000_0000;
    lemma_floor_div_bounds(nx, rect.width as int);
    lemma_floor_div_bounds(ny, rect.height as int);
    assert(crate::in_pos_range(-SCALE + nx / (rect.width as int)));
    assert(crate::in_pos_range(SCALE - ny / (rect.height as int)));
}

/// Feed one pointer event to the editor.
pub fn pointer_event(
    state: &mut EditorState,
    px: i64,
    py: i64,
    button_mask: u32,
    rect: &CanvasRect,
)
    requires
        old(state).wf(),
        rect.wf(),
        valid_pixel(px as int),
        valid_pixel(py as int),
    ensures
        final(state)@ == event_step(old(state)@, px as int, py as int, button_mask, *rect),
        final(state).wf(),
{
    proof {
        lemma_event_point_wf(px as int, py as int, *rect);
    }
    let p = map_pixel_to_model(px, py, rect);
    state.cursor.pos = p;
    state.pointer_down = button_mask & 1 == 1;
    crate::hit::hit_test(state, p);
    apply_drag(state, p);
    proof {
        let m = event_step(old(state)@, px as int, py as int, button_mask, *rect);
        assert(state@.quads =~= m.quads);
        assert(state@ == m);
    }
}

/// One valid pointer event takes a well-formed model to a well-formed
/// model; in particular every quad's four corners still satisfy the
/// axis-alignment adjacency equalities after the completed solver step.
pub proof fn lemma_event_step_preserves_wf(
    m: EditorModel,
    px: int,
    py: int,
    button_mask: u32,
    rect: CanvasRect,
)
    requires
        model_wf(m),
        rect.wf(),
        valid_pixel(px),
        valid_pixel(py),
    ensures
        model_wf(event_step(m, px, py, button_mask, rect)),
{
    lemma_event_point_wf(px, py, rect);
    let p = event_point(px, py, rect);
    let down = button_mask & 1 == 1;
    let sel = selection_after(m.quads, p, down, m.selected);
    let hovered = hover_all(m.quads, p);
    lemma_last_hit_in_range(m.quads, p);
    assert forall|i: int| 0 <= i < hovered.len() implies quad_wf(#[trigger] hovered[i]) by {
        lemma_hover_preserves_quad_wf(m.quads[i], p);
    }
    match sel {
        Some(s) => {
            let dragged = hovered.map_values(
                |vs: Seq<Vertex>| drag_quad(vs, s.vertex_id as int, p),
            );
            assert forall|i: int| 0 <= i < dragged.len() implies quad_wf(
                #[trigger] dragged[i],
            ) by {
                lemma_drag_preserves_quad_wf(hovered[i], s.vertex_id as int, p);
            }
        },
        None => {},
    }
}

/// The states a model passes through under a whole sequence of pointer
/// events, applied oldest first.
pub open spec fn apply_events(m: EditorModel, events: Seq<PointerEvent>) -> EditorModel
    decreases events.len(),
{
    if events.len() == 0 {
        m
    } else {
        let e = events.last();
        event_step(apply_events(m, events.drop_last()), e.px, e.py, e.button_mask, e.rect)
    }
}

/// After any sequence of valid pointer events — so after any sequence of
/// completed drag operations — every quad of the model is still a
/// well-formed axis-aligned rectangle.
pub proof fn lemma_events_preserve_wf(m: EditorModel, events: Seq<PointerEvent>)
    requires
        model_wf(m),
        forall|i: int| 0 <= i < events.len() ==> event_valid(#[trigger] events[i]),
    ensures
        model_wf(apply_events(m, events)),
    decreases events.len(),
{
    if events.len() > 0 {
        lemma_events_preserve_wf(m, events.drop_last());
        let e = events.last();
        lemma_event_step_preserves_wf(
            apply_events(m, events.drop_last()),
            e.px,
            e.py,
            e.button_mask,
            e.rect,
        );
    }
}

/// The selection clears exactly on the button: after an event whose mask
/// has bit 0 unset the selection is none, whatever is hovered; after an
/// event whose mask has bit 0 set, an existing selection never clears.
pub proof fn lemma_selection_follows_button(
    m: EditorModel,
    px: int,
    py: int,
    button_mask: u32,
    rect: CanvasRect,
)
    ensures
        button_mask & 1 == 0 ==> event_step(m, px, py, button_mask, rect).selected is None,
        button_mask & 1 == 1 && m.selected is Some ==> event_step(
            m,
            px,
            py,
            button_mask,
            rect,
        ).selected is Some,
{
    assert(button_mask & 1 == 0 || button_mask & 1 == 1) by (bit_vector);
}

} // verus!
