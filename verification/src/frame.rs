//! The frame scheduler and the per-frame vertex buffer.
//!
//! The scheduler is a two-state machine: Idle (no frame pending) and
//! Pending (a redraw requested for the next display refresh).  `start` moves
//! Idle to Pending and asks the host for one frame callback; on delivery the
//! scheduler derives the vertex-and-colour buffer for the whole model and
//! stays Pending, owing the host one more request — an unbounded sequence of
//! redraws.  `stop` is the explicit way out of the loop.
//!
//! The buffer is flat: five values per entry, `x, y, red, green, blue`,
//! four entries per drawn shape (a triangle fan).  Each quad contributes a
//! synthetic bounding rectangle in a fixed grey for background fill, then
//! its four vertices — a hovered vertex trades its stored colour for a
//! fixed highlight for that frame only — and the cursor contributes the
//! four corners of its own handle box.

use vstd::prelude::*;
use crate::model::{Cursor, EditorModel, EditorState, Rgb, Vertex};
use crate::SCALE;

verus! {

/// Grey used for each quad's background rectangle: 3/10 on each channel.
pub const BACKGROUND_CHANNEL: i64 = 300_000;

/// The highlight colour a hovered vertex is drawn in: full white.
pub open spec fn highlight_colour() -> Rgb {
    Rgb { red: SCALE, green: SCALE, blue: SCALE }
}

/// The colour a vertex is drawn in this frame: the highlight while hovered,
/// its stored colour otherwise.  The stored colour is never mutated.
pub open spec fn display_colour(v: Vertex) -> Rgb {
    if v.hovered {
        highlight_colour()
    } else {
        v.colour
    }
}

/// One buffer entry: a position and a colour, five values.
pub open spec fn entry(x: i64, y: i64, c: Rgb) -> Seq<i64> {
    seq![x, y, c.red, c.green, c.blue]
}

/// The smaller of two coordinates.
pub open spec fn min_coord(a: i64, b: i64) -> i64 {
    if a <= b {
        a
    } else {
        b
    }
}

/// The larger of two coordinates.
pub open spec fn max_coord(a: i64, b: i64) -> i64 {
    if a <= b {
        b
    } else {
        a
    }
}

/// The four corners of a quad's bounding rectangle — min and max over its
/// four vertex positions, computed fresh each frame — in fan order, in the
/// background grey.
pub open spec fn quad_background(vs: Seq<Vertex>) -> Seq<i64> {
    let min_x = min_coord(min_coord(vs[0].pos.x, vs[1].pos.x), min_coord(vs[2].pos.x, vs[3].pos.x));
    let min_y = min_coord(min_coord(vs[0].pos.y, vs[1].pos.y), min_coord(vs[2].pos.y, vs[3].pos.y));
    let max_x = max_coord(max_coord(vs[0].pos.x, vs[1].pos.x), max_coord(vs[2].pos.x, vs[3].pos.x));
    let max_y = max_coord(max_coord(vs[0].pos.y, vs[1].pos.y), max_coord(vs[2].pos.y, vs[3].pos.y));
    let grey = Rgb { red: BACKGROUND_CHANNEL, green: BACKGROUND_CHANNEL, blue: BACKGROUND_CHANNEL };
    entry(min_x, min_y, grey) + entry(max_x, min_y, grey) + entry(max_x, max_y, grey)
        + entry(min_x, max_y, grey)
}

/// One quad's contribution to the frame: its background rectangle, then its
/// four vertices, each at its position in its display colour.
pub open spec fn quad_frame(vs: Seq<Vertex>) -> Seq<i64> {
    quad_background(vs) + entry(vs[0].pos.x, vs[0].pos.y, display_colour(vs[0]))
        + entry(vs[1].pos.x, vs[1].pos.y, display_colour(vs[1]))
        + entry(vs[2].pos.x, vs[2].pos.y, display_colour(vs[2]))
        + entry(vs[3].pos.x, vs[3].pos.y, display_colour(vs[3]))
}

/// The cursor's contribution: the four corners of its handle box, centered
/// on its position, in its own colour, in fan order.
pub open spec fn cursor_frame(c: Cursor) -> Seq<i64> {
    entry((c.pos.x - c.half_width) as i64, (c.pos.y - c.half_height) as i64, c.colour)
        + entry((c.pos.x + c.half_width) as i64, (c.pos.y - c.half_height) as i64, c.colour)
        + entry((c.pos.x + c.half_width) as i64, (c.pos.y + c.half_height) as i64, c.colour)
        + entry((c.pos.x - c.half_width) as i64, (c.pos.y + c.half_height) as i64, c.colour)
}

/// All quads' contributions, in model order.
pub open spec fn frames_of_quads(quads: Seq<Seq<Vertex>>) -> Seq<i64>
    decreases quads.len(),
{
    if quads.len() == 0 {
        Seq::empty()
    } else {
        frames_of_quads(quads.drop_last()) + quad_frame(quads.last())
    }
}

/// The whole frame: every quad, then the cursor.
pub open spec fn frame_buffer(m: EditorModel) -> Seq<i64> {
    frames_of_quads(m.quads) + cursor_frame(m.cursor)
}

/// Each quad contributes eight entries of five values and the cursor four:
/// the buffer's length is always a whole number of four-entry triangle
/// fans, as the renderer expects.
pub proof fn lemma_frame_buffer_length(m: EditorModel)
    ensures
        frame_buffer(m).len() == 40 * m.quads.len() + 20,
{
    lemma_frames_of_quads_length(m.quads);
}

proof fn lemma_frames_of_quads_length(quads: Seq<Seq<Vertex>>)
    ensures
        frames_of_quads(quads).len() == 40 * quads.len(),
    decreases quads.len(),
{
    if quads.len() > 0 {
        lemma_frames_of_quads_length(quads.drop_last());
    }
}

/// Append one buffer entry.
fn push_entry(buf: &mut Vec<i64>, x: i64, y: i64, c: Rgb)
    ensures
        final(buf)@ == old(buf)@ + entry(x, y, c),
{
    buf.push(x);
    buf.push(y);
    buf.push(c.red);
    buf.push(c.green);
    buf.push(c.blue);
    proof {
        assert(final(buf)@ =~= old(buf)@ + entry(x, y, c));
    }
}

/// The smaller of two coordinates.
fn min_exec(a: i64, b: i64) -> (r: i64)
    ensures
        r == min_coord(a, b),
{
    if a <= b {
        a
    } else {
        b
    }
}

/// The larger of two coordinates.
fn max_exec(a: i64, b: i64) -> (r: i64)
    ensures
        r == max_coord(a, b),
{
    if a <= b {
        b
    } else {
        a
    }
}

/// Derive the flat vertex-and-colour buffer for the current model.
pub fn render_frame(state: &EditorState) -> (buf: Vec<i64>)
    requires
        state.wf(),
    ensures
        buf@ == frame_buffer(state@),
{
    let mut buf: Vec<i64> = Vec::new();
    let n = state.quads.len();
    let mut i: usize = 0;
    while i < n
        invariant
            state.wf(),
            n == state.quads.len(),
            i <= n,
            buf@ == frames_of_quads(state@.quads.take(i as int)),
        decreases n - i,
    {
        proof {
            assert(crate::model::quad_wf(state@.quads[i as int]));
        }
        let ghost vs = state@.quads[i as int];
        let ghost before = buf@;
        let v0 = state.quads[i].vertices[0];
        let v1 = state.quads[i].vertices[1];
        let v2 = state.quads[i].vertices[2];
        let v3 = state.quads[i].vertices[3];
        let min_x = min_exec(min_exec(v0.pos.x, v1.pos.x), min_exec(v2.pos.x, v3.pos.x));
        let min_y = min_exec(min_exec(v0.pos.y, v1.pos.y), min_exec(v2.pos.y, v3.pos.y));
        let max_x = max_exec(max_exec(v0.pos.x, v1.pos.x), max_exec(v2.pos.x, v3.pos.x));
        let max_y = max_exec(max_exec(v0.pos.y, v1.pos.y), max_exec(v2.pos.y, v3.pos.y));
        let grey = Rgb {
            red: BACKGROUND_CHANNEL,
            green: BACKGROUND_CHANNEL,
            blue: BACKGROUND_CHANNEL,
        };
        push_entry(&mut buf, min_x, min_y, grey);
        push_entry(&mut buf, max_x, min_y, grey);
        push_entry(&mut buf, max_x, max_y, grey);
        push_entry(&mut buf, min_x, max_y, grey);
        let c0 = if v0.hovered { Rgb { red: SCALE, green: SCALE, blue: SCALE } } else { v0.colour };
        let c1 = if v1.hovered { Rgb { red: SCALE, green: SCALE, blue: SCALE } } else { v1.colour };
        let c2 = if v2.hovered { Rgb { red: SCALE, green: SCALE, blue: SCALE } } else { v2.colour };
        let c3 = if v3.hovered { Rgb { red: SCALE, green: SCALE, blue: SCALE } } else { v3.colour };
        push_entry(&mut buf, v0.pos.x, v0.pos.y, c0);
        push_entry(&mut buf, v1.pos.x, v1.pos.y, c1);
        push_entry(&mut buf, v2.pos.x, v2.pos.y, c2);
        push_entry(&mut buf, v3.pos.x, v3.pos.y, c3);
        proof {
            assert(buf@ =~= before + quad_frame(vs));
            assert(state@.quads.take(i + 1).drop_last() =~= state@.quads.take(i as int));
            assert(state@.quads.take(i + 1).last() == vs);
            assert(buf@ =~= frames_of_quads(state@.quads.take(i + 1)));
        }
        i = i + 1;
    }
    proof {
        assert(state@.quads.take(n as int) =~= state@.quads);
    }
    let cur = state.cursor;
    let ghost before_cursor = buf@;
    push_entry(&mut buf, cur.pos.x - cur.half_width, cur.pos.y - cur.half_height, cur.colour);
    push_entry(&mut buf, cur.pos.x + cur.half_width, cur.pos.y - cur.half_height, cur.colour);
    push_entry(&mut buf, cur.pos.x + cur.half_width, cur.pos.y + cur.half_height, cur.colour);
    push_entry(&mut buf, cur.pos.x - cur.half_width, cur.pos.y + cur.half_height, cur.colour);
    proof {
        assert(buf@ =~= before_cursor + cursor_frame(cur));
    }
    buf
}

/// The redraw driver: Idle until started, then Pending once per display
/// frame for as long as the host keeps delivering callbacks.
pub struct FrameScheduler {
    pub pending: bool,
}

impl FrameScheduler {
    /// A scheduler that has not been started: Idle.
    pub fn new() -> (s: FrameScheduler)
        ensures
            !s.pending,
    {
        FrameScheduler { pending: false }
    }

    /// Ask for the redraw loop to run.  The result says whether the caller
    /// now owes the host one frame request: true on Idle, false when a
    /// request is already outstanding.
    pub fn start(&mut self) -> (request: bool)
        ensures
            final(self).pending,
            request == !old(self).pending,
    {
        let request = !self.pending;
        self.pending = true;
        request
    }

    /// Leave the redraw loop: the next delivered frame is ignored and no
    /// further frame is requested.
    pub fn stop(&mut self)
        ensures
            !final(self).pending,
    {
        self.pending = false;
    }

    /// One frame callback.  While Pending, derive the buffer for the
    /// current model and stay Pending — the caller draws the buffer and
    /// requests the next frame.  While Idle, do nothing: no buffer, no
    /// further request.
    pub fn on_frame(&mut self, state: &EditorState) -> (buf: Option<Vec<i64>>)
        requires
            state.wf(),
        ensures
            final(self).pending == old(self).pending,
            match buf {
                Some(b) => old(self).pending && b@ == frame_buffer(state@),
                None => !old(self).pending,
            },
    {
        if self.pending {
            Some(render_frame(state))
        } else {
            None
        }
    }
}

} // verus!
