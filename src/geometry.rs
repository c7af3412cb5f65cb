use crate::color::Color;
use vstd::prelude::*;

verus! {

/// Texture coordinates are fixed-point: `UV_ONE` stands for 1.0, the far edge of
/// the texture, and 0 for its near edge.
pub const UV_ONE: u32 = 65536;

/// A region of a texture in fixed-point texture coordinates (see `UV_ONE`).
#[derive(Clone, Copy, PartialEq, Eq, Structural, Debug)]
pub struct Rect {
    pub min_x: u32,
    pub min_y: u32,
    pub max_x: u32,
    pub max_y: u32,
}

/// The region that covers a whole texture.
pub open spec fn full_uv() -> Rect {
    Rect { min_x: 0, min_y: 0, max_x: UV_ONE, max_y: UV_ONE }
}

impl Rect {
    pub fn new(min_x: u32, min_y: u32, max_x: u32, max_y: u32) -> (r: Rect)
        ensures
            r == (Rect { min_x, min_y, max_x, max_y }),
    {
        Rect { min_x, min_y, max_x, max_y }
    }

    /// The region that covers the whole texture.
    pub fn full() -> (r: Rect)
        ensures
            r == full_uv(),
    {
        Rect { min_x: 0, min_y: 0, max_x: UV_ONE, max_y: UV_ONE }
    }
}

/// One corner of a quad: a position in pixels, a color and a texture coordinate.
/// Every vertex lies in the plane z = 0.
#[derive(Clone, Copy, PartialEq, Eq, Structural, Debug)]
pub struct Vertex {
    pub x: i32,
    pub y: i32,
    pub color: Color,
    pub u: u32,
    pub v: u32,
}

pub open spec fn fits_i32(v: int) -> bool {
    i32::MIN <= v <= i32::MAX
}

/// The far corner of the rectangle at `(x, y)` of size `w` by `h` has coordinates
/// that an `i32` holds.
pub open spec fn quad_fits(x: i32, y: i32, w: i32, h: i32) -> bool {
    fits_i32(x + w) && fits_i32(y + h)
}

/// The four corner positions of a quad, in the order in which its vertices are
/// stored: `(x+w, y+h)`, `(x+w, y)`, `(x, y)`, `(x, y+h)`.
/// The shared index buffer draws the triangles 0-1-2 and 2-3-0 of each quad.
pub open spec fn corner_positions(x: int, y: int, w: int, h: int) -> Seq<(int, int)> {
    seq![(x + w, y + h), (x + w, y), (x, y), (x, y + h)]
}

/// The four vertices of a quad that samples the texture region `uv`:
/// each corner of the rectangle gets the matching corner of the region.
pub open spec fn region_quad(x: i32, y: i32, w: i32, h: i32, color: Color, uv: Rect) -> Seq<
    Vertex,
> {
    seq![
        Vertex { x: (x + w) as i32, y: (y + h) as i32, color, u: uv.max_x, v: uv.max_y },
        Vertex { x: (x + w) as i32, y: y, color, u: uv.max_x, v: uv.min_y },
        Vertex { x: x, y: y, color, u: uv.min_x, v: uv.min_y },
        Vertex { x: x, y: (y + h) as i32, color, u: uv.min_x, v: uv.max_y },
    ]
}

/// The four vertices of a quad that samples the whole texture.
pub open spec fn rect_quad(x: i32, y: i32, w: i32, h: i32, color: Color) -> Seq<Vertex> {
    seq![
        Vertex { x: (x + w) as i32, y: (y + h) as i32, color, u: UV_ONE, v: UV_ONE },
        Vertex { x: (x + w) as i32, y: y, color, u: UV_ONE, v: 0 },
        Vertex { x: x, y: y, color, u: 0, v: 0 },
        Vertex { x: x, y: (y + h) as i32, color, u: 0, v: UV_ONE },
    ]
}

/// The position of a vertex, as a pair of integers.
pub open spec fn position(v: Vertex) -> (int, int) {
    (v.x as int, v.y as int)
}

} // verus!
