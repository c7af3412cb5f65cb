use crate::geometry::{Rect, UV_ONE};
use vstd::arithmetic::div_mod::{lemma_div_is_ordered, lemma_fundamental_div_mod_converse};
use vstd::prelude::*;

verus! {

/// The texture coordinate of texel column (or row) `texel` of a texture `size`
/// texels wide (or high), rounded down.
pub open spec fn uv_of(texel: int, size: int) -> int {
    texel * UV_ONE / size
}

/// The region of the tile at `row` and `col` of a grid of tiles of `tile_w` by
/// `tile_h` texels that starts at the texture's origin.
pub open spec fn tile_region(
    tex_w: u32,
    tex_h: u32,
    tile_w: u32,
    tile_h: u32,
    row: int,
    col: int,
) -> Rect {
    Rect {
        min_x: uv_of(col * tile_w, tex_w as int) as u32,
        min_y: uv_of(row * tile_h, tex_h as int) as u32,
        max_x: uv_of((col + 1) * tile_w, tex_w as int) as u32,
        max_y: uv_of((row + 1) * tile_h, tex_h as int) as u32,
    }
}

fn uv_at(texel: u32, size: u32) -> (r: u32)
    requires
        texel <= size,
        size > 0,
    ensures
        r == uv_of(texel as int, size as int),
{
    proof {
        lemma_div_is_ordered(texel * UV_ONE, size * UV_ONE, size as int);
        lemma_fundamental_div_mod_converse(size * UV_ONE, size as int, UV_ONE as int, 0);
    }
    ((texel as u64 * UV_ONE as u64) / size as u64) as u32
}

proof fn lemma_tile_of(cols: int, row: int, col: int)
    requires
        0 <= row,
        0 <= col < cols,
    ensures
        (row * cols + col) / cols == row,
        (row * cols + col) % cols == col,
{
    lemma_fundamental_div_mod_converse(row * cols + col, cols, row, col);
}

/// A texture split into a grid of equal tiles, numbered row by row from the
/// top left, each addressed by its texture region.
pub struct TextureAtlas {
    cols: u16,
    rows: u16,
    regions: Vec<Rect>,
}

impl TextureAtlas {
    pub closed spec fn cols_spec(&self) -> u16 {
        self.cols
    }

    pub closed spec fn rows_spec(&self) -> u16 {
        self.rows
    }

    /// The regions of the tiles, row by row.
    pub closed spec fn regions_spec(&self) -> Seq<Rect> {
        self.regions@
    }

    /// The grid of `cols` by `rows` tiles of `tile_w` by `tile_h` texels on a
    /// texture of `tex_w` by `tex_h` texels. The grid lies within the texture.
    pub fn new(tex_w: u32, tex_h: u32, cols: u16, rows: u16, tile_w: u32, tile_h: u32) -> (a:
        TextureAtlas)
        requires
            tex_w > 0,
            tex_h > 0,
            cols * tile_w <= tex_w,
            rows * tile_h <= tex_h,
        ensures
            a.cols_spec() == cols,
            a.rows_spec() == rows,
            a.regions_spec().len() == cols * rows,
            forall|j: int|
                0 <= j < a.regions_spec().len() ==> #[trigger] a.regions_spec()[j] == tile_region(
                    tex_w,
                    tex_h,
                    tile_w,
                    tile_h,
                    j / cols as int,
                    j % cols as int,
                ),
    {
        let mut regions: Vec<Rect> = Vec::new();
        let mut row: u16 = 0;
        while row < rows
            invariant
                row <= rows,
                tex_w > 0,
                tex_h > 0,
                cols * tile_w <= tex_w,
                rows * tile_h <= tex_h,
                regions@.len() == row * cols,
                forall|j: int|
                    0 <= j < regions@.len() ==> #[trigger] regions@[j] == tile_region(
                        tex_w,
                        tex_h,
                        tile_w,
                        tile_h,
                        j / cols as int,
                        j % cols as int,
                    ),
            decreases rows - row,
        {
            assert((row + 1) * tile_h <= rows * tile_h) by (nonlinear_arith)
                requires
                    row < rows,
            ;
            let mut col: u16 = 0;
            while col < cols
                invariant
                    row < rows,
                    col <= cols,
                    tex_w > 0,
                    tex_h > 0,
                    cols * tile_w <= tex_w,
                    (row + 1) * tile_h <= tex_h,
                    regions@.len() == row * cols + col,
                    forall|j: int|
                        0 <= j < regions@.len() ==> #[trigger] regions@[j] == tile_region(
                            tex_w,
                            tex_h,
                            tile_w,
                            tile_h,
                            j / cols as int,
                            j % cols as int,
                        ),
                decreases cols - col,
            {
                assert((col + 1) * tile_w <= cols * tile_w) by (nonlinear_arith)
                    requires
                        col < cols,
                ;
                assert(row * tile_h <= (row + 1) * tile_h) by (nonlinear_arith);
                assert(col * tile_w <= (col + 1) * tile_w) by (nonlinear_arith);
                let x0: u32 = col as u32 * tile_w;
                let x1: u32 = (col as u32 + 1) * tile_w;
                let y0: u32 = row as u32 * tile_h;
                let y1: u32 = (row as u32 + 1) * tile_h;
                let region = Rect {
                    min_x: uv_at(x0, tex_w),
                    min_y: uv_at(y0, tex_h),
                    max_x: uv_at(x1, tex_w),
                    max_y: uv_at(y1, tex_h),
                };
                proof {
                    lemma_tile_of(cols as int, row as int, col as int);
                }
                regions.push(region);
                col = col + 1;
            }
            assert(regions@.len() == (row + 1) * cols) by (nonlinear_arith)
                requires
                    regions@.len() == row * cols + cols,
            ;
            row = row + 1;
        }
        assert(row * cols == cols * rows) by (nonlinear_arith)
            requires
                row == rows,
        ;
        TextureAtlas { cols, rows, regions }
    }

    pub fn cols(&self) -> (r: u16)
        ensures
            r == self.cols_spec(),
    {
        self.cols
    }

    pub fn rows(&self) -> (r: u16)
        ensures
            r == self.rows_spec(),
    {
        self.rows
    }

    /// The region of tile `idx`, counted row by row.
    pub fn get_region(&self, idx: u16) -> (r: Rect)
        requires
            idx < self.regions_spec().len(),
        ensures
            r == self.regions_spec()[idx as int],
    {
        self.regions[idx as usize]
    }
}

} // verus!
