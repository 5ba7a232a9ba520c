//! The shape model: vertices, quads, the cursor and the editor state.

use vstd::prelude::*;
use crate::geom::{AxisAlignedBox, Point};
use crate::SCALE;

verus! {

/// A colour with components in fixed-point units, `0 ..= SCALE` each.
#[derive(Clone, Copy, PartialEq, Eq, Structural, Debug)]
pub struct Rgb {
    pub red: i64,
    pub green: i64,
    pub blue: i64,
}

impl Rgb {
    pub open spec fn wf(self) -> bool {
        &&& 0 <= self.red <= SCALE
        &&& 0 <= self.green <= SCALE
        &&& 0 <= self.blue <= SCALE
    }
}

/// One corner of a quad: an id fixed within its quad, a model-space
/// position, the half-extents of the hit-test handle centered on that
/// position, a stored colour and the per-frame hover flag.
#[derive(Clone, Copy, PartialEq, Eq, Structural, Debug)]
pub struct Vertex {
    pub id: usize,
    pub pos: Point,
    pub half_width: i64,
    pub half_height: i64,
    pub colour: Rgb,
    pub hovered: bool,
}

impl Vertex {
    pub open spec fn wf(self) -> bool {
        &&& self.id < 4
        &&& self.pos.pos_wf()
        &&& 0 <= self.half_width <= SCALE
        &&& 0 <= self.half_height <= SCALE
        &&& self.colour.wf()
    }

    /// Closed-interval containment of `p` in the vertex's handle.
    pub open spec fn spec_hit(self, p: Point) -> bool {
        &&& self.pos.x - self.half_width <= p.x <= self.pos.x + self.half_width
        &&& self.pos.y - self.half_height <= p.y <= self.pos.y + self.half_height
    }

    /// Whether `p` lies in the handle, boundary included.
    pub fn hit(&self, p: Point) -> (r: bool)
        requires
            self.wf(),
        ensures
            r == self.spec_hit(p),
    {
        self.pos.x - self.half_width <= p.x && p.x <= self.pos.x + self.half_width
            && self.pos.y - self.half_height <= p.y && p.y <= self.pos.y + self.half_height
    }

    /// The hit-test handle as a box, centered on the position.
    pub fn handle(&self) -> (b: AxisAlignedBox)
        requires
            self.wf(),
        ensures
            b.wf(),
            b.origin.x == self.pos.x - self.half_width,
            b.origin.y == self.pos.y - self.half_height,
            b.width == 2 * self.half_width,
            b.height == 2 * self.half_height,
            forall|p: Point| b.spec_contains(p) == self.spec_hit(p),
    {
        AxisAlignedBox {
            origin: Point { x: self.pos.x - self.half_width, y: self.pos.y - self.half_height },
            width: 2 * self.half_width,
            height: 2 * self.half_height,
        }
    }
}

/// The four vertex positions form an axis-aligned rectangle, under the fixed
/// cycle ordering: each corner shares its x-coordinate with one neighbour in
/// the cycle and its y-coordinate with the other.
pub open spec fn aligned(vs: Seq<Vertex>) -> bool {
    &&& vs[0].pos.x == vs[1].pos.x
    &&& vs[1].pos.y == vs[2].pos.y
    &&& vs[2].pos.x == vs[3].pos.x
    &&& vs[3].pos.y == vs[0].pos.y
}

/// The alignment invariant in its per-corner form: an even corner shares its
/// x-coordinate with the next corner in the cycle and its y-coordinate with
/// the previous one; an odd corner the other way around.
pub proof fn lemma_aligned_adjacency(vs: Seq<Vertex>, k: int)
    requires
        vs.len() == 4,
        0 <= k < 4,
        aligned(vs),
    ensures
        k % 2 == 0 ==> vs[k].pos.x == vs[(k + 1) % 4].pos.x
            && vs[k].pos.y == vs[(k + 3) % 4].pos.y,
        k % 2 == 1 ==> vs[k].pos.y == vs[(k + 1) % 4].pos.y
            && vs[k].pos.x == vs[(k + 3) % 4].pos.x,
{
}

/// Well-formed contents of one quad: exactly four vertices, ids `0 ..= 3` in
/// order, each vertex well-formed, positions axis-aligned.
pub open spec fn quad_wf(vs: Seq<Vertex>) -> bool {
    &&& vs.len() == 4
    &&& forall|i: int| 0 <= i < 4 ==> (#[trigger] vs[i]).wf()
    &&& forall|i: int| 0 <= i < 4 ==> (#[trigger] vs[i]).id == i
    &&& aligned(vs)
}

/// A quad: an ordered sequence of exactly four corner vertices.
#[derive(Clone, PartialEq, Eq, Debug)]
pub struct Quad {
    pub vertices: Vec<Vertex>,
}

impl Quad {
    pub open spec fn wf(self) -> bool {
        quad_wf(self.vertices@)
    }
}

/// The free-floating marker that tracks the pointer exactly.
#[derive(Clone, Copy, PartialEq, Eq, Structural, Debug)]
pub struct Cursor {
    pub pos: Point,
    pub half_width: i64,
    pub half_height: i64,
    pub colour: Rgb,
}

impl Cursor {
    pub open spec fn wf(self) -> bool {
        &&& self.pos.pos_wf()
        &&& 0 <= self.half_width <= SCALE
        &&& 0 <= self.half_height <= SCALE
        &&& self.colour.wf()
    }
}

/// Which vertex is being dragged: the quad it was picked in, and the vertex
/// id that every quad tracks while the drag lasts.
#[derive(Clone, Copy, PartialEq, Eq, Structural, Debug)]
pub struct Selection {
    pub quad_index: usize,
    pub vertex_id: usize,
}

/// The whole editor state.
#[derive(Clone, PartialEq, Eq, Debug)]
pub struct EditorState {
    pub quads: Vec<Quad>,
    pub cursor: Cursor,
    pub pointer_down: bool,
    pub selected: Option<Selection>,
}

/// The mathematical shape of an [`EditorState`]: quads as plain sequences of
/// vertices.  Contracts and laws speak of this form.
pub struct EditorModel {
    pub quads: Seq<Seq<Vertex>>,
    pub cursor: Cursor,
    pub pointer_down: bool,
    pub selected: Option<Selection>,
}

/// Well-formedness at the model level.
pub open spec fn model_wf(m: EditorModel) -> bool {
    &&& forall|i: int| 0 <= i < m.quads.len() ==> quad_wf(#[trigger] m.quads[i])
    &&& m.cursor.wf()
    &&& match m.selected {
        Some(sel) => sel.quad_index < m.quads.len() && sel.vertex_id < 4,
        None => true,
    }
}

impl View for EditorState {
    type V = EditorModel;

    open spec fn view(&self) -> EditorModel {
        EditorModel {
            quads: self.quads@.map_values(|q: Quad| q.vertices@),
            cursor: self.cursor,
            pointer_down: self.pointer_down,
            selected: self.selected,
        }
    }
}

impl EditorState {
    pub open spec fn wf(self) -> bool {
        model_wf(self@)
    }
}

/// The fixed initial layout: one quad with corners at (-1/2, -1/2),
/// (-1/2, 1/2), (1/2, 1/2), (1/2, -1/2), handle extent 1/10 on each axis, and
/// a red cursor of extent 3/50 at the origin.
pub open spec fn initial_model() -> EditorModel {
    EditorModel {
        quads: seq![
            seq![
                (Vertex {
                    id: 0,
                    pos: Point { x: -500_000i64, y: -500_000i64 },
                    half_width: 50_000,
                    half_height: 50_000,
                    colour: Rgb { red: SCALE, green: SCALE, blue: 0 },
                    hovered: false,
                }),
                (Vertex {
                    id: 1,
                    pos: Point { x: -500_000i64, y: 500_000 },
                    half_width: 50_000,
                    half_height: 50_000,
                    colour: Rgb { red: SCALE, green: 0, blue: SCALE },
                    hovered: false,
                }),
                (Vertex {
                    id: 2,
                    pos: Point { x: 500_000, y: 500_000 },
                    half_width: 50_000,
                    half_height: 50_000,
                    colour: Rgb { red: 0, green: SCALE, blue: SCALE },
                    hovered: false,
                }),
                (Vertex {
                    id: 3,
                    pos: Point { x: 500_000, y: -500_000i64 },
                    half_width: 50_000,
                    half_height: 50_000,
                    colour: Rgb { red: 0, green: SCALE, blue: 0 },
                    hovered: false,
                }),
            ],
        ],
        cursor: Cursor {
            pos: Point { x: 0, y: 0 },
            half_width: 30_000,
            half_height: 30_000,
            colour: Rgb { red: SCALE, green: 0, blue: 0 },
        },
        pointer_down: false,
        selected: None,
    }
}

/// Build the state the editor starts in.
pub fn initial_state() -> (s: EditorState)
    ensures
        s@ == initial_model(),
        s.wf(),
{
    let v0 = Vertex {
        id: 0,
        pos: Point { x: -500_000, y: -500_000 },
        half_width: 50_000,
        half_height: 50_000,
        colour: Rgb { red: SCALE, green: SCALE, blue: 0 },
        hovered: false,
    };
    let v1 = Vertex {
        id: 1,
        pos: Point { x: -500_000, y: 500_000 },
        half_width: 50_000,
        half_height: 50_000,
        colour: Rgb { red: SCALE, green: 0, blue: SCALE },
        hovered: false,
    };
    let v2 = Vertex {
        id: 2,
        pos: Point { x: 500_000, y: 500_000 },
        half_width: 50_000,
        half_height: 50_000,
        colour: Rgb { red: 0, green: SCALE, blue: SCALE },
        hovered: false,
    };
    let v3 = Vertex {
        id: 3,
        pos: Point { x: 500_000, y: -500_000 },
        half_width: 50_000,
        half_height: 50_000,
        colour: Rgb { red: 0, green: SCALE, blue: 0 },
        hovered: false,
    };
    let quad = Quad { vertices: vec![v0, v1, v2, v3] };
    let s = EditorState {
        quads: vec![quad],
        cursor: Cursor {
            pos: Point { x: 0, y: 0 },
            half_width: 30_000,
            half_height: 30_000,
            colour: Rgb { red: SCALE, green: 0, blue: 0 },
        },
        pointer_down: false,
        selected: None,
    };
    proof {
        assert(s@.quads =~= initial_model().quads);
        assert(s@ == initial_model());
        assert(quad_wf(s@.quads[0]));
    }
    s
}

} // verus!
