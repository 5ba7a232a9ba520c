//! The hit tester: hover flags and the selection rule.
//!
//! For every vertex of every quad it tests whether the pointer lies in the
//! vertex's handle and stores the result in the vertex's hover flag.  If the
//! pointer is down and at least one vertex is hit, the last hit vertex in
//! iteration order (quad-major, vertex-id-minor) becomes the selection; if
//! the pointer is down and nothing is hit the previous selection stands; if
//! the pointer is not down the selection is cleared.

use vstd::prelude::*;
use crate::geom::Point;
use crate::model::{quad_wf, EditorState, Selection, Vertex};

verus! {

/// `v` with its hover flag set to whether `p` lies in its handle.
pub open spec fn vertex_after_hover(v: Vertex, p: Point) -> Vertex {
    Vertex { hovered: v.spec_hit(p), ..v }
}

/// One quad's vertices after a hover pass for pointer `p`.
pub open spec fn hover_quad(vs: Seq<Vertex>, p: Point) -> Seq<Vertex> {
    vs.map_values(|v: Vertex| vertex_after_hover(v, p))
}

/// All quads after a hover pass for pointer `p`.
pub open spec fn hover_all(quads: Seq<Seq<Vertex>>, p: Point) -> Seq<Seq<Vertex>> {
    quads.map_values(|vs: Seq<Vertex>| hover_quad(vs, p))
}

/// The id of the last vertex of one quad whose handle contains `p`, if any.
pub open spec fn last_hit_in_quad(vs: Seq<Vertex>, p: Point) -> Option<usize> {
    if vs[3].spec_hit(p) {
        Some(3usize)
    } else if vs[2].spec_hit(p) {
        Some(2usize)
    } else if vs[1].spec_hit(p) {
        Some(1usize)
    } else if vs[0].spec_hit(p) {
        Some(0usize)
    } else {
        None
    }
}

/// The last vertex over all quads, in quad-major then vertex-id-minor order,
/// whose handle contains `p`.
pub open spec fn last_hit(quads: Seq<Seq<Vertex>>, p: Point) -> Option<Selection>
    decreases quads.len(),
{
    if quads.len() == 0 {
        None
    } else {
        match last_hit_in_quad(quads.last(), p) {
            Some(j) => Some(
                Selection { quad_index: (quads.len() - 1) as usize, vertex_id: j },
            ),
            None => last_hit(quads.drop_last(), p),
        }
    }
}

/// The selection rule: cleared when the pointer is up; the last hit vertex
/// when the pointer is down and some handle contains `p`; otherwise whatever
/// was selected before.
pub open spec fn selection_after(
    quads: Seq<Seq<Vertex>>,
    p: Point,
    down: bool,
    prev: Option<Selection>,
) -> Option<Selection> {
    if !down {
        None
    } else {
        match last_hit(quads, p) {
            Some(s) => Some(s),
            None => prev,
        }
    }
}

/// Run the hit test for pointer position `p`: refresh every hover flag and
/// apply the selection rule.
pub fn hit_test(state: &mut EditorState, p: Point)
    requires
        old(state).wf(),
    ensures
        final(state)@.quads == hover_all(old(state)@.quads, p),
        final(state)@.selected == selection_after(
            old(state)@.quads,
            p,
            old(state).pointer_down,
            old(state).selected,
        ),
        final(state).cursor == old(state).cursor,
        final(state).pointer_down == old(state).pointer_down,
        final(state).wf(),
{
    let ghost oq = old(state)@.quads;
    let down = state.pointer_down;
    let mut sel: Option<Selection> = state.selected;
    let n = state.quads.len();
    let mut i: usize = 0;
    while i < n
        invariant
            old(state).wf(),
            n == state.quads.len(),
            i <= n,
            oq == old(state)@.quads,
            oq.len() == n,
            forall|k: int| 0 <= k < i ==> #[trigger] state.quads@[k].vertices@
                == hover_quad(oq[k], p),
            forall|k: int| i <= k < n ==> #[trigger] state.quads@[k]
                == old(state).quads@[k],
            state.cursor == old(state).cursor,
            state.pointer_down == old(state).pointer_down,
            state.selected == old(state).selected,
            down == old(state).pointer_down,
            down ==> sel == selection_after(oq.take(i as int), p, true, old(state).selected),
        decreases n - i,
    {
        proof {
            assert(quad_wf(oq[i as int]));
            assert(state.quads@[i as int] == old(state).quads@[i as int]);
        }
        let ghost vs = oq[i as int];
        let h0 = state.quads[i].vertices[0].hit(p);
        let h1 = state.quads[i].vertices[1].hit(p);
        let h2 = state.quads[i].vertices[2].hit(p);
        let h3 = state.quads[i].vertices[3].hit(p);
        state.quads[i].vertices[0].hovered = h0;
        state.quads[i].vertices[1].hovered = h1;
        state.quads[i].vertices[2].hovered = h2;
        state.quads[i].vertices[3].hovered = h3;
        if down {
            if h3 {
                sel = Some(Selection { quad_index: i, vertex_id: 3 });
            } else if h2 {
                sel = Some(Selection { quad_index: i, vertex_id: 2 });
            } else if h1 {
                sel = Some(Selection { quad_index: i, vertex_id: 1 });
            } else if h0 {
                sel = Some(Selection { quad_index: i, vertex_id: 0 });
            }
        }
        proof {
            assert(state.quads@[i as int].vertices@ =~= hover_quad(vs, p));
            assert(oq.take(i + 1).drop_last() =~= oq.take(i as int));
            assert(oq.take(i + 1).last() == vs);
        }
        i = i + 1;
    }
    state.selected = if down { sel } else { None };
    proof {
        assert(oq.take(n as int) =~= oq);
        assert(final(state)@.quads =~= hover_all(oq, p));
        lemma_hit_preserves_wf(old(state)@.quads, p, old(state).selected, state@);
    }
}

/// A hover pass changes nothing but hover flags, so it keeps a quad
/// well-formed.
pub proof fn lemma_hover_preserves_quad_wf(vs: Seq<Vertex>, p: Point)
    requires
        quad_wf(vs),
    ensures
        quad_wf(hover_quad(vs, p)),
{
    let h = hover_quad(vs, p);
    assert forall|j: int| 0 <= j < 4 implies (#[trigger] h[j]).wf() && h[j].id == j by {
        assert(h[j] == vertex_after_hover(vs[j], p));
    }
    assert(h[0] == vertex_after_hover(vs[0], p));
    assert(h[1] == vertex_after_hover(vs[1], p));
    assert(h[2] == vertex_after_hover(vs[2], p));
    assert(h[3] == vertex_after_hover(vs[3], p));
}

/// The hit tester is idempotent: a second hover pass for the same point
/// leaves every hover flag as the first pass set it, because the flags it
/// writes play no part in the containment test it performs.
pub proof fn lemma_hover_idempotent(quads: Seq<Seq<Vertex>>, p: Point)
    ensures
        hover_all(hover_all(quads, p), p) == hover_all(quads, p),
{
    let h = hover_all(quads, p);
    assert forall|i: int| 0 <= i < h.len() implies #[trigger] hover_all(h, p)[i] == h[i] by {
        assert(h[i] == hover_quad(quads[i], p));
        assert forall|j: int| 0 <= j < h[i].len() implies #[trigger] hover_quad(h[i], p)[j]
            == h[i][j] by {
            assert(h[i][j] == vertex_after_hover(quads[i][j], p));
        }
        assert(hover_quad(h[i], p) =~= h[i]);
    }
    assert(hover_all(h, p) =~= h);
}

/// Hover flags play no part in the containment test, so the last hit is the
/// same whether it is read off the quads before or after a hover pass.
pub proof fn lemma_last_hit_ignores_hover(quads: Seq<Seq<Vertex>>, p: Point)
    requires
        forall|i: int| 0 <= i < quads.len() ==> (#[trigger] quads[i]).len() == 4,
    ensures
        last_hit(hover_all(quads, p), p) == last_hit(quads, p),
    decreases quads.len(),
{
    if quads.len() > 0 {
        let vs = quads.last();
        let h = hover_quad(vs, p);
        assert(h[0] == vertex_after_hover(vs[0], p));
        assert(h[1] == vertex_after_hover(vs[1], p));
        assert(h[2] == vertex_after_hover(vs[2], p));
        assert(h[3] == vertex_after_hover(vs[3], p));
        assert(last_hit_in_quad(h, p) == last_hit_in_quad(vs, p));
        assert(hover_all(quads, p).drop_last() =~= hover_all(quads.drop_last(), p));
        lemma_last_hit_ignores_hover(quads.drop_last(), p);
    }
}

/// The whole hit test is idempotent: run twice for the same point with no
/// state change in between, the second pass reproduces both the hover flags
/// and the selection of the first.
pub proof fn lemma_hit_test_idempotent(
    quads: Seq<Seq<Vertex>>,
    p: Point,
    down: bool,
    prev: Option<Selection>,
)
    requires
        forall|i: int| 0 <= i < quads.len() ==> (#[trigger] quads[i]).len() == 4,
    ensures
        hover_all(hover_all(quads, p), p) == hover_all(quads, p),
        selection_after(
            hover_all(quads, p),
            p,
            down,
            selection_after(quads, p, down, prev),
        ) == selection_after(quads, p, down, prev),
{
    lemma_hover_idempotent(quads, p);
    lemma_last_hit_ignores_hover(quads, p);
}

/// After a hit test the state is still well-formed: hover flags do not take
/// part in any invariant, and a fresh selection always points at an existing
/// quad and a vertex id below four.
proof fn lemma_hit_preserves_wf(
    oq: Seq<Seq<Vertex>>,
    p: Point,
    prev: Option<Selection>,
    m: crate::model::EditorModel,
)
    requires
        forall|i: int| 0 <= i < oq.len() ==> quad_wf(#[trigger] oq[i]),
        m.cursor.wf(),
        match prev {
            Some(s) => s.quad_index < oq.len() && s.vertex_id < 4,
            None => true,
        },
        m.quads == hover_all(oq, p),
        m.selected == selection_after(oq, p, m.pointer_down, prev),
    ensures
        crate::model::model_wf(m),
{
    assert forall|i: int| 0 <= i < m.quads.len() implies quad_wf(#[trigger] m.quads[i]) by {
        assert(m.quads[i] == hover_quad(oq[i], p));
        lemma_hover_preserves_quad_wf(oq[i], p);
    }
    lemma_last_hit_in_range(oq, p);
}

/// A hit returned by [`last_hit`] always names an existing quad and a vertex
/// id below four.
pub proof fn lemma_last_hit_in_range(quads: Seq<Seq<Vertex>>, p: Point)
    ensures
        match last_hit(quads, p) {
            Some(s) => s.quad_index < quads.len() && s.vertex_id < 4,
            None => true,
        },
    decreases quads.len(),
{
    if quads.len() > 0 {
        lemma_last_hit_in_range(quads.drop_last(), p);
    }
}

} // verus!
