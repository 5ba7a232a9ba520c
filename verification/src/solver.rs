//! The constraint solver: keep a quad axis-aligned while one corner moves.
//!
//! Under the fixed 4-cycle ordering, vertex `k` and vertex `(k+2) % 4` are
//! diagonal opposites.  When vertex `k` moves to the pointer, the previous
//! neighbour `(k+3) % 4` and the next neighbour `(k+1) % 4` each inherit the
//! one coordinate they share with `k`, and the diagonal corner is never
//! touched: the minimal update that restores axis-alignment.
//!
//! Every quad tracks the same selected vertex id at once — shared control
//! across quads is deliberate behaviour, not per-quad independence.

use vstd::prelude::*;
use crate::geom::Point;
use crate::model::{aligned, quad_wf, EditorState, Vertex};

verus! {

/// One quad's vertices after a solver step that drags vertex `k` to `p`.
pub open spec fn drag_quad(vs: Seq<Vertex>, k: int, p: Point) -> Seq<Vertex>
    recommends
        vs.len() == 4,
        0 <= k < 4,
{
    let prev_i = (k + 3) % 4;
    let next_i = (k + 1) % 4;
    let moved = Vertex { pos: p, ..vs[k] };
    let prev = if k % 2 == 0 {
        Vertex { pos: Point { x: vs[prev_i].pos.x, y: p.y }, ..vs[prev_i] }
    } else {
        Vertex { pos: Point { x: p.x, y: vs[prev_i].pos.y }, ..vs[prev_i] }
    };
    let next = if k % 2 == 0 {
        Vertex { pos: Point { x: p.x, y: vs[next_i].pos.y }, ..vs[next_i] }
    } else {
        Vertex { pos: Point { x: vs[next_i].pos.x, y: p.y }, ..vs[next_i] }
    };
    vs.update(k, moved).update(prev_i, prev).update(next_i, next)
}

/// The diagonal corner `(k+2) % 4` comes out of a solver step bit for bit
/// unchanged.
pub proof fn lemma_drag_diagonal_untouched(vs: Seq<Vertex>, k: int, p: Point)
    requires
        vs.len() == 4,
        0 <= k < 4,
    ensures
        drag_quad(vs, k, p)[(k + 2) % 4] == vs[(k + 2) % 4],
{
}

/// A solver step restores axis-alignment: if the quad was aligned before the
/// step, it is aligned after it, whichever corner was dragged.
pub proof fn lemma_drag_restores_alignment(vs: Seq<Vertex>, k: int, p: Point)
    requires
        vs.len() == 4,
        0 <= k < 4,
        aligned(vs),
    ensures
        aligned(drag_quad(vs, k, p)),
{
}

/// A solver step keeps the whole quad well-formed, for any pointer position
/// in the accepted range.
pub proof fn lemma_drag_preserves_quad_wf(vs: Seq<Vertex>, k: int, p: Point)
    requires
        quad_wf(vs),
        p.pos_wf(),
        0 <= k < 4,
    ensures
        quad_wf(drag_quad(vs, k, p)),
{
    lemma_drag_restores_alignment(vs, k, p);
}

/// Apply one solver step to every quad: the selected vertex id of each quad
/// moves to `p` and its neighbours realign.  With no active selection this
/// is a no-op, as the callers in release builds expect.
pub fn apply_drag(state: &mut EditorState, p: Point)
    requires
        old(state).wf(),
        p.pos_wf(),
    ensures
        match old(state).selected {
            Some(sel) => {
                &&& final(state)@.quads.len() == old(state)@.quads.len()
                &&& forall|i: int| 0 <= i < old(state)@.quads.len()
                    ==> #[trigger] final(state)@.quads[i]
                        == drag_quad(old(state)@.quads[i], sel.vertex_id as int, p)
            },
            None => final(state)@.quads == old(state)@.quads,
        },
        final(state).cursor == old(state).cursor,
        final(state).pointer_down == old(state).pointer_down,
        final(state).selected == old(state).selected,
        final(state).wf(),
{
    let sel = match state.selected {
        Some(sel) => sel,
        None => {
            return ;
        },
    };
    let k = sel.vertex_id;
    let prev_i = (k + 3) % 4;
    let next_i = (k + 1) % 4;
    let n = state.quads.len();
    let mut i: usize = 0;
    while i < n
        invariant
            old(state).wf(),
            old(state).selected == Some(sel),
            sel.vertex_id < 4,
            k == sel.vertex_id,
            prev_i == (k + 3) % 4,
            next_i == (k + 1) % 4,
            p.pos_wf(),
            n == state.quads.len(),
            i <= n,
            old(state)@.quads.len() == n,
            forall|j: int| 0 <= j < i ==> #[trigger] state.quads@[j].vertices@
                == drag_quad(old(state)@.quads[j], k as int, p),
            forall|j: int| i <= j < n ==> #[trigger] state.quads@[j]
                == old(state).quads@[j],
            state.cursor == old(state).cursor,
            state.pointer_down == old(state).pointer_down,
            state.selected == old(state).selected,
        decreases n - i,
    {
        proof {
            assert(quad_wf(old(state)@.quads[i as int]));
        }
        let ghost vs = old(state)@.quads[i as int];
        state.quads[i].vertices[k].pos = p;
        if k % 2 == 0 {
            state.quads[i].vertices[prev_i].pos.y = p.y;
            state.quads[i].vertices[next_i].pos.x = p.x;
        } else {
            state.quads[i].vertices[prev_i].pos.x = p.x;
            state.quads[i].vertices[next_i].pos.y = p.y;
        }
        proof {
            assert(state.quads@[i as int].vertices@ =~= drag_quad(vs, k as int, p));
        }
        i = i + 1;
    }
    proof {
        assert forall|j: int| 0 <= j < n implies quad_wf(#[trigger] state@.quads[j]) by {
            lemma_drag_preserves_quad_wf(old(state)@.quads[j], k as int, p);
        }
    }
}

} // verus!
