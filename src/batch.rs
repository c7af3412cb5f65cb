use crate::color::Color;
use crate::error::ErrorKind;
use crate::geometry::{
    corner_positions, full_uv, position, quad_fits, rect_quad, region_quad, Rect, Vertex,
};
use vstd::prelude::*;

verus! {

/// Accumulates the vertices of axis-aligned quads, four per quad, in a buffer of
/// fixed capacity. Between frames it is reset, not reallocated.
pub struct BatchContext {
    vertices: Vec<Vertex>,
    vertex_capacity: usize,
}

impl View for BatchContext {
    type V = Seq<Vertex>;

    /// The vertices written since the last reset, in order.
    closed spec fn view(&self) -> Seq<Vertex> {
        self.vertices@
    }
}

impl BatchContext {
    /// How many vertices the batch can hold: four per quad.
    pub closed spec fn vertex_capacity_spec(&self) -> nat {
        self.vertex_capacity as nat
    }

    /// The write offset is a whole number of quads and within the capacity,
    /// and the capacity is a whole number of quads whose indices fit a `usize`.
    pub closed spec fn wf(&self) -> bool {
        &&& self.vertices@.len() % 4 == 0
        &&& self.vertices@.len() <= self.vertex_capacity
        &&& self.vertex_capacity % 4 == 0
        &&& self.vertex_capacity / 4 <= usize::MAX / 6
    }

    /// An empty batch with room for `quad_capacity` quads.
    pub fn with_capacity(quad_capacity: usize) -> (b: BatchContext)
        requires
            quad_capacity <= usize::MAX / 6,
        ensures
            b.wf(),
            b@ == Seq::<Vertex>::empty(),
            b.vertex_capacity_spec() == 4 * quad_capacity,
    {
        let vertex_capacity: usize = 4 * quad_capacity;
        BatchContext { vertices: Vec::with_capacity(vertex_capacity), vertex_capacity }
    }

    /// Appends the quad `[x, x+w] x [y, y+h]` whose corners sample the matching
    /// corners of the texture region `uv`, all four in `color`. Fails, and leaves
    /// the batch as it was, when no room is left for four more vertices.
    pub fn draw_texture_region(
        &mut self,
        x: i32,
        y: i32,
        w: i32,
        h: i32,
        color: Color,
        uv: Rect,
    ) -> (r: Result<(), ErrorKind>)
        requires
            old(self).wf(),
            quad_fits(x, y, w, h),
        ensures
            final(self).wf(),
            final(self).vertex_capacity_spec() == old(self).vertex_capacity_spec(),
            r is Ok <==> old(self)@.len() + 4 <= old(self).vertex_capacity_spec(),
            r is Ok ==> final(self)@ == old(self)@ + region_quad(x, y, w, h, color, uv),
            r is Err ==> r == Err::<(), ErrorKind>(ErrorKind::CapacityExceeded) && final(self)@
                == old(self)@,
    {
        if self.vertex_capacity - self.vertices.len() < 4 {
            return Err(ErrorKind::CapacityExceeded);
        }
        let right: i32 = x + w;
        let bottom: i32 = y + h;
        self.vertices.push(Vertex { x: right, y: bottom, color, u: uv.max_x, v: uv.max_y });
        self.vertices.push(Vertex { x: right, y: y, color, u: uv.max_x, v: uv.min_y });
        self.vertices.push(Vertex { x: x, y: y, color, u: uv.min_x, v: uv.min_y });
        self.vertices.push(Vertex { x: x, y: bottom, color, u: uv.min_x, v: uv.max_y });
        assert(self.vertices@ =~= old(self).vertices@ + region_quad(x, y, w, h, color, uv));
        Ok(())
    }

    /// Appends the quad `[x, x+w] x [y, y+h]` in `color`, sampling the whole
    /// texture. Fails, and leaves the batch as it was, when it is full.
    pub fn draw_rect(&mut self, x: i32, y: i32, w: i32, h: i32, color: Color) -> (r: Result<
        (),
        ErrorKind,
    >)
        requires
            old(self).wf(),
            quad_fits(x, y, w, h),
        ensures
            final(self).wf(),
            final(self).vertex_capacity_spec() == old(self).vertex_capacity_spec(),
            r is Ok <==> old(self)@.len() + 4 <= old(self).vertex_capacity_spec(),
            r is Ok ==> final(self)@ == old(self)@ + rect_quad(x, y, w, h, color),
            r is Err ==> r == Err::<(), ErrorKind>(ErrorKind::CapacityExceeded) && final(self)@
                == old(self)@,
    {
        proof {
            lemma_full_region_is_rect(x, y, w, h, color);
        }
        self.draw_texture_region(x, y, w, h, color, Rect::full())
    }

    /// Appends a square anchored at its corner `(x, y)`: the same as
    /// `draw_rect(x, y, size, size, color)`.
    pub fn draw_quad(&mut self, x: i32, y: i32, size: i32, color: Color) -> (r: Result<
        (),
        ErrorKind,
    >)
        requires
            old(self).wf(),
            quad_fits(x, y, size, size),
        ensures
            final(self).wf(),
            final(self).vertex_capacity_spec() == old(self).vertex_capacity_spec(),
            r is Ok <==> old(self)@.len() + 4 <= old(self).vertex_capacity_spec(),
            r is Ok ==> final(self)@ == old(self)@ + rect_quad(x, y, size, size, color),
            r is Err ==> r == Err::<(), ErrorKind>(ErrorKind::CapacityExceeded) && final(self)@
                == old(self)@,
    {
        self.draw_rect(x, y, size, size, color)
    }

    /// The vertices written since the last reset: the prefix that is uploaded.
    pub fn vertices(&self) -> (r: &[Vertex])
        ensures
            r@ == self@,
    {
        self.vertices.as_slice()
    }

    /// Starts the batch over: the write offset goes back to zero. The buffer
    /// keeps its allocation.
    pub fn reset(&mut self)
        requires
            old(self).wf(),
        ensures
            final(self).wf(),
            final(self)@ == Seq::<Vertex>::empty(),
            final(self).vertex_capacity_spec() == old(self).vertex_capacity_spec(),
    {
        self.vertices.clear();
    }

    /// The write offset: how many vertices were written since the last reset.
    pub fn offset(&self) -> (r: usize)
        ensures
            r == self@.len(),
    {
        self.vertices.len()
    }

    /// How many vertices the batch can hold.
    pub fn capacity(&self) -> (r: usize)
        ensures
            r == self.vertex_capacity_spec(),
    {
        self.vertex_capacity
    }

    /// How many quads were written since the last reset.
    pub fn quad_count(&self) -> (r: usize)
        requires
            self.wf(),
        ensures
            4 * r == self@.len(),
    {
        self.vertices.len() / 4
    }

    /// How many indices draw the quads written since the last reset: six per quad.
    pub fn index_count(&self) -> (r: usize)
        requires
            self.wf(),
        ensures
            r == 6 * (self@.len() / 4),
    {
        let quads: usize = self.vertices.len() / 4;
        6 * quads
    }
}

/// Sampling the region that covers the whole texture gives exactly the quad of
/// a plain rectangle.
pub proof fn lemma_full_region_is_rect(x: i32, y: i32, w: i32, h: i32, color: Color)
    ensures
        region_quad(x, y, w, h, color, full_uv()) == rect_quad(x, y, w, h, color),
{
    assert(region_quad(x, y, w, h, color, full_uv()) =~= rect_quad(x, y, w, h, color));
}

/// The four vertices of a rectangle lie at its four corners, in the documented
/// order, and all of them carry the rectangle's color.
pub proof fn lemma_rect_geometry(x: i32, y: i32, w: i32, h: i32, color: Color)
    requires
        quad_fits(x, y, w, h),
    ensures
        rect_quad(x, y, w, h, color).len() == 4,
        forall|k: int|
            0 <= k < 4 ==> #[trigger] rect_quad(x, y, w, h, color)[k].color == color && position(
                rect_quad(x, y, w, h, color)[k],
            ) == corner_positions(x as int, y as int, w as int, h as int)[k],
{
}

/// The arguments of one `draw_rect` call: x, y, width, height and color.
pub type RectCall = (i32, i32, i32, i32, Color);

pub open spec fn call_quad(c: RectCall) -> Seq<Vertex> {
    rect_quad(c.0, c.1, c.2, c.3, c.4)
}

/// What a batch holds after `draw_rect` is called with each of `calls` in turn,
/// starting from the contents `vs` and the vertex capacity `capacity`, by the
/// rule that `draw_rect` states; `None` once a call fails.
pub open spec fn draw_rects(vs: Seq<Vertex>, capacity: nat, calls: Seq<RectCall>) -> Option<
    Seq<Vertex>,
>
    decreases calls.len(),
{
    if calls.len() == 0 {
        Some(vs)
    } else if vs.len() + 4 <= capacity {
        draw_rects(vs + call_quad(calls[0]), capacity, calls.skip(1))
    } else {
        None
    }
}

/// The quads of `calls`, one after another.
pub open spec fn rects_vertices(calls: Seq<RectCall>) -> Seq<Vertex>
    decreases calls.len(),
{
    if calls.len() == 0 {
        Seq::empty()
    } else {
        call_quad(calls[0]) + rects_vertices(calls.skip(1))
    }
}

proof fn lemma_draw_rects_fit(vs: Seq<Vertex>, capacity: nat, calls: Seq<RectCall>)
    requires
        vs.len() + 4 * calls.len() <= capacity,
    ensures
        draw_rects(vs, capacity, calls) == Some(vs + rects_vertices(calls)),
        rects_vertices(calls).len() == 4 * calls.len(),
    decreases calls.len(),
{
    if calls.len() == 0 {
        assert(vs + rects_vertices(calls) =~= vs);
    } else {
        let q = call_quad(calls[0]);
        lemma_draw_rects_fit(vs + q, capacity, calls.skip(1));
        assert(vs + q + rects_vertices(calls.skip(1)) =~= vs + rects_vertices(calls));
    }
}

proof fn lemma_draw_rects_overflow(vs: Seq<Vertex>, capacity: nat, calls: Seq<RectCall>)
    requires
        vs.len() <= capacity,
        vs.len() + 4 * calls.len() > capacity,
    ensures
        draw_rects(vs, capacity, calls) is None,
    decreases calls.len(),
{
    if vs.len() + 4 <= capacity {
        lemma_draw_rects_overflow(vs + call_quad(calls[0]), capacity, calls.skip(1));
    }
}

/// Drawing N rectangles into an empty batch whose capacity holds 4*N vertices
/// succeeds at every call and leaves exactly 4*N vertices: the quads of the
/// calls, in order. `reset` empties the batch, so the same calls after a reset
/// reproduce the same vertices, whatever the batch held before.
pub proof fn lemma_draw_sequence(capacity: nat, calls: Seq<RectCall>)
    requires
        4 * calls.len() <= capacity,
    ensures
        draw_rects(Seq::empty(), capacity, calls) == Some(rects_vertices(calls)),
        rects_vertices(calls).len() == 4 * calls.len(),
{
    lemma_draw_rects_fit(Seq::empty(), capacity, calls);
    assert(Seq::<Vertex>::empty() + rects_vertices(calls) =~= rects_vertices(calls));
}

/// In an empty batch with room for `quads` quads, a sequence of rectangle draws
/// succeeds throughout exactly when it has at most `quads` calls: the call after
/// the last that fits fails.
pub proof fn lemma_capacity_boundary(quads: nat, calls: Seq<RectCall>)
    ensures
        draw_rects(Seq::empty(), 4 * quads, calls) is Some <==> calls.len() <= quads,
{
    if calls.len() <= quads {
        lemma_draw_sequence(4 * quads, calls);
    } else {
        lemma_draw_rects_overflow(Seq::empty(), 4 * quads, calls);
    }
}

} // verus!
