//! The Frame Rasterizer: resamples a decoded RGB frame to a target
//! character-grid size and runs the Glyph Mapper over every sample.
//!
//! The grid height is always `floor(target_width * (height / width) * 0.5)`:
//! the factor of one half corrects for terminal characters being roughly
//! twice as tall as they are wide. Resampling is nearest-neighbor: output
//! cell `i` of a row (or column) of length `dst` reads the source sample at
//! `floor((i + 1/2) * src / dst)`.

use vstd::prelude::*;

use crate::glyph::{glyph_spec, map_pixel, GlyphCell, Rgb};
use crate::RenderError;

verus! {

/// One decoded video frame or still image: a `width * height` grid of color
/// samples, stored row-major as packed RGB triples (3 bytes per sample).
pub struct Frame {
    pub width: u32,
    pub height: u32,
    pub data: Vec<u8>,
}

impl Frame {
    /// The byte buffer holds exactly one RGB triple per sample.
    pub open spec fn wf(&self) -> bool {
        self.data@.len() == self.width * self.height * 3
    }

    /// Wraps a packed RGB24 buffer, rejecting one whose length does not
    /// match the claimed dimensions.
    pub fn new(width: u32, height: u32, data: Vec<u8>) -> (r: Option<Frame>)
        ensures
            match r {
                Some(f) => {
                    &&& f.wf()
                    &&& f.width == width
                    &&& f.height == height
                    &&& f.data@ == data@
                },
                None => data@.len() != width * height * 3,
            },
    {
        proof {
            assert((width as int) * (height as int) <= 0xffffffff * 0xffffffff)
                by (nonlinear_arith)
                requires
                    0 <= width as int <= 0xffffffff,
                    0 <= height as int <= 0xffffffff,
            ;
        }
        let expected: u128 = (width as u128) * (height as u128) * 3;
        let n: usize = data.len();
        if n as u128 == expected {
            Some(Frame { width, height, data })
        } else {
            None
        }
    }
}

/// The color sample of a frame at column `x`, row `y`.
pub open spec fn frame_pixel(f: &Frame, x: int, y: int) -> Rgb {
    Rgb {
        r: f.data@[3 * (y * f.width + x)],
        g: f.data@[3 * (y * f.width + x) + 1],
        b: f.data@[3 * (y * f.width + x) + 2],
    }
}

/// Nearest-neighbor source index for output position `i` when resampling a
/// line of `src_len` samples to `dst_len`: `floor((2i + 1) * src / (2 dst))`.
pub open spec fn nearest_index_spec(src_len: int, dst_len: int, i: int) -> int {
    ((2 * i + 1) * src_len) / (2 * dst_len)
}

/// The derived grid height: `floor(tw * (src_h / src_w) * 0.5)`.
pub open spec fn target_height_spec(src_w: int, src_h: int, tw: int) -> int {
    (tw * src_h) / (2 * src_w)
}

/// Nearest-neighbor sampling never reads outside the source line.
pub proof fn lemma_nearest_index_in_range(src_len: int, dst_len: int, i: int)
    requires
        0 < src_len,
        0 < dst_len,
        0 <= i < dst_len,
    ensures
        0 <= nearest_index_spec(src_len, dst_len, i) < src_len,
{
    assert((2 * i + 1) * src_len < (2 * dst_len) * src_len) by (nonlinear_arith)
        requires
            0 < src_len,
            0 <= i < dst_len,
    ;
    vstd::arithmetic::div_mod::lemma_multiply_divide_lt(
        (2 * i + 1) * src_len,
        2 * dst_len,
        src_len,
    );
    vstd::arithmetic::div_mod::lemma_div_pos_is_pos((2 * i + 1) * src_len, 2 * dst_len);
}

/// The full contents of the grid that rasterizing `f` to width `tw`
/// produces: row `y`, column `x` holds the Glyph Cell of the
/// nearest-neighbor source sample.
pub open spec fn rasterized_cells_spec(f: &Frame, tw: int) -> Seq<Seq<GlyphCell>> {
    Seq::new(
        target_height_spec(f.width as int, f.height as int, tw) as nat,
        |y: int|
            Seq::new(
                tw as nat,
                |x: int|
                    glyph_spec(
                        frame_pixel(
                            f,
                            nearest_index_spec(f.width as int, tw, x),
                            nearest_index_spec(
                                f.height as int,
                                target_height_spec(f.width as int, f.height as int, tw),
                                y,
                            ),
                        ),
                    ),
            ),
    )
}

/// A Rasterized Grid: the character-and-color representation of one frame,
/// an ordered sequence of rows of Glyph Cells, every row `width` cells wide.
pub struct Grid {
    pub cells: Vec<Vec<GlyphCell>>,
    pub width: u32,
}

impl View for Grid {
    type V = Seq<Seq<GlyphCell>>;

    open spec fn view(&self) -> Seq<Seq<GlyphCell>> {
        self.cells@.map_values(|row: Vec<GlyphCell>| row@)
    }
}

impl Grid {
    /// Every row holds exactly `width` cells.
    pub open spec fn wf(&self) -> bool {
        forall|y: int| 0 <= y < self@.len() ==> (#[trigger] self@[y]).len() == self.width
    }

    /// Number of rows.
    pub fn rows(&self) -> (n: usize)
        ensures
            n == self@.len(),
    {
        self.cells.len()
    }
}

/// The color sample a frame's pixel accessor hands to the Glyph Mapper.
fn pixel_at(f: &Frame, x: u32, y: u32) -> (p: Rgb)
    requires
        f.wf(),
        x < f.width,
        y < f.height,
    ensures
        p == frame_pixel(f, x as int, y as int),
{
    let n: usize = f.data.len();
    proof {
        assert((y as int) * (f.width as int) + (x as int) < (f.width as int) * (f.height as int))
            by (nonlinear_arith)
            requires
                (x as int) < (f.width as int),
                (y as int) < (f.height as int),
                0 <= x as int,
                0 <= y as int,
        ;
    }
    let base: usize = 3 * ((y as usize) * (f.width as usize) + (x as usize));
    Rgb { r: f.data[base], g: f.data[base + 1], b: f.data[base + 2] }
}

/// The Frame Rasterizer: resamples `f` to a grid `target_width` cells wide
/// whose height follows the aspect-correcting invariant, and maps every
/// sample to its Glyph Cell. Fails with `InvalidDimensions` exactly when the
/// target width or the derived height resolves to zero (a source with no
/// columns cannot resolve a height either).
pub fn rasterize(f: &Frame, target_width: u32) -> (r: Result<Grid, RenderError>)
    requires
        f.wf(),
        f.width > 0 ==> target_height_spec(
            f.width as int,
            f.height as int,
            target_width as int,
        ) <= usize::MAX,
    ensures
        match r {
            Ok(g) => {
                &&& target_width > 0
                &&& f.width > 0
                &&& f.height > 0
                &&& target_height_spec(f.width as int, f.height as int, target_width as int) > 0
                &&& g.wf()
                &&& g.width == target_width
                &&& g@.len() == target_height_spec(
                    f.width as int,
                    f.height as int,
                    target_width as int,
                )
                &&& forall|y: int, x: int|
                    0 <= y < g@.len() && 0 <= x < target_width ==> (#[trigger] g@[y][x])
                        == glyph_spec(
                        frame_pixel(
                            f,
                            nearest_index_spec(f.width as int, target_width as int, x),
                            nearest_index_spec(f.height as int, g@.len() as int, y),
                        ),
                    )
                &&& g@ == rasterized_cells_spec(f, target_width as int)
            },
            Err(e) => {
                &&& e == RenderError::InvalidDimensions
                &&& (target_width == 0 || f.width == 0 || target_height_spec(
                    f.width as int,
                    f.height as int,
                    target_width as int,
                ) == 0)
            },
        },
{
    if f.width == 0 {
        return Err(RenderError::InvalidDimensions);
    }
    if f.height == 0 {
        proof {
            assert(((target_width as int) * (f.height as int)) / (2 * (f.width as int)) == 0)
                by (nonlinear_arith)
                requires
                    f.height as int == 0,
                    f.width as int > 0,
                    0 <= target_width as int,
            ;
        }
        return Err(RenderError::InvalidDimensions);
    }
    proof {
        assert((target_width as int) * (f.height as int) < 0x10000000000000000)
            by (nonlinear_arith)
            requires
                0 <= target_width as int <= 0xffffffff,
                0 <= f.height as int <= 0xffffffff,
        ;
    }
    let th64: u64 = ((target_width as u64) * (f.height as u64)) / (2 * (f.width as u64));
    if target_width == 0 || th64 == 0 {
        return Err(RenderError::InvalidDimensions);
    }
    let th: usize = th64 as usize;
    let tw: usize = target_width as usize;
    let ghost th_spec: int = target_height_spec(f.width as int, f.height as int, target_width as int);
    assert(th == th_spec);

    let mut cells: Vec<Vec<GlyphCell>> = Vec::new();
    let mut y: usize = 0;
    while y < th
        invariant
            f.wf(),
            f.width > 0,
            f.height > 0,
            target_width > 0,
            tw == target_width,
            0 < th <= usize::MAX,
            th == th_spec,
            th_spec == target_height_spec(f.width as int, f.height as int, target_width as int),
            y <= th,
            cells@.len() == y,
            forall|yy: int| 0 <= yy < y ==> (#[trigger] cells@[yy])@.len() == target_width,
            forall|yy: int, x: int|
                0 <= yy < y && 0 <= x < target_width ==> (#[trigger] cells@[yy]@[x])
                    == glyph_spec(
                    frame_pixel(
                        f,
                        nearest_index_spec(f.width as int, target_width as int, x),
                        nearest_index_spec(f.height as int, th as int, yy),
                    ),
                ),
        decreases th - y,
    {
        proof {
            lemma_nearest_index_in_range(f.height as int, th as int, y as int);
            assert((2 * (y as int) + 1) * (f.height as int)
                <= 0x1ffffffffffffffff * 0xffffffff)
                by (nonlinear_arith)
                requires
                    0 <= y as int <= 0xffffffffffffffff,
                    0 <= f.height as int <= 0xffffffff,
            ;
        }
        let sy64: u128 = ((2 * (y as u128) + 1) * (f.height as u128)) / (2 * (th as u128));
        assert(sy64 == nearest_index_spec(f.height as int, th as int, y as int));
        let src_y: u32 = sy64 as u32;

        let mut row: Vec<GlyphCell> = Vec::new();
        let mut x: usize = 0;
        while x < tw
            invariant
                f.wf(),
                f.width > 0,
                f.height > 0,
                target_width > 0,
                tw == target_width,
                0 < th <= usize::MAX,
                y < th,
                src_y == nearest_index_spec(f.height as int, th as int, y as int),
                src_y < f.height,
                x <= tw,
                row@.len() == x,
                forall|xx: int|
                    0 <= xx < x ==> (#[trigger] row@[xx]) == glyph_spec(
                        frame_pixel(
                            f,
                            nearest_index_spec(f.width as int, target_width as int, xx),
                            nearest_index_spec(f.height as int, th as int, y as int),
                        ),
                    ),
            decreases tw - x,
        {
            proof {
                lemma_nearest_index_in_range(f.width as int, target_width as int, x as int);
                assert((2 * (x as int) + 1) * (f.width as int)
                    <= 0x1ffffffffffffffff * 0xffffffff)
                    by (nonlinear_arith)
                    requires
                        0 <= x as int <= 0xffffffffffffffff,
                        0 <= f.width as int <= 0xffffffff,
                ;
            }
            let sx64: u128 = ((2 * (x as u128) + 1) * (f.width as u128)) / (2 * (tw as u128));
            assert(sx64 == nearest_index_spec(f.width as int, target_width as int, x as int));
            let src_x: u32 = sx64 as u32;
            let p = pixel_at(f, src_x, src_y);
            row.push(map_pixel(p));
            x = x + 1;
        }
        cells.push(row);
        y = y + 1;
    }
    let g = Grid { cells, width: target_width };
    proof {
        assert forall|yy: int| 0 <= yy < g@.len() implies g@[yy]
            =~= rasterized_cells_spec(f, target_width as int)[yy] by {
        }
        assert(g@ =~~= rasterized_cells_spec(f, target_width as int));
    }
    Ok(g)
}

} // verus!
