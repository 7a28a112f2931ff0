//! The Terminal Painter: turns a Rasterized Grid into the minimal batch of
//! terminal operations that replaces the previously painted content.
//!
//! The painter owns the only piece of display state, the row count of the
//! previous paint. Each paint homes the cursor, clears the trailing rows a
//! taller previous frame left behind (and only those), then rewrites every
//! row: clear the line, one color-set and one character per cell (the color
//! carries between cells, so no per-cell reset is needed), a color reset and
//! an explicit cursor-return line break. The caller executes the returned
//! operations as one flushed batch per frame.

use vstd::prelude::*;

use crate::glyph::{GlyphCell, Rgb};
use crate::raster::Grid;

verus! {

/// One terminal-control operation, executed by the caller against the live
/// terminal.
#[derive(Clone, Copy, PartialEq, Eq, Structural, Debug)]
pub enum TermOp {
    /// Move the cursor to a column and row, both zero-based.
    MoveTo { col: u16, row: u16 },
    /// Clear the line the cursor is on.
    ClearLine,
    /// Clear the whole screen.
    ClearAll,
    /// Set the foreground color to a 24-bit RGB value.
    SetColor { color: Rgb },
    /// Write one character at the cursor.
    PrintChar { ch: char },
    /// Reset the foreground color to the terminal default.
    ResetColor,
    /// End the current row: explicit carriage return and line feed.
    LineBreak,
    /// Switch to the alternate screen.
    EnterAltScreen,
    /// Leave the alternate screen.
    LeaveAltScreen,
    /// Hide the cursor.
    HideCursor,
    /// Show the cursor.
    ShowCursor,
    /// Enable raw input mode.
    EnableRawMode,
    /// Disable raw input mode.
    DisableRawMode,
}

/// The two operations that draw one Glyph Cell: set its color, print its
/// character.
pub open spec fn cell_ops(c: GlyphCell) -> Seq<TermOp> {
    seq![TermOp::SetColor { color: c.color }, TermOp::PrintChar { ch: c.ch }]
}

/// The operations that draw the cells of one row, left to right.
pub open spec fn row_cells_ops(row: Seq<GlyphCell>) -> Seq<TermOp>
    decreases row.len(),
{
    if row.len() == 0 {
        Seq::empty()
    } else {
        row_cells_ops(row.drop_last()) + cell_ops(row.last())
    }
}

/// The operations that paint one full row at line `y`: move to its start,
/// clear the line, draw the cells, reset the color, end the line.
pub open spec fn row_ops(row: Seq<GlyphCell>, y: u16) -> Seq<TermOp> {
    seq![TermOp::MoveTo { col: 0, row: y }, TermOp::ClearLine] + row_cells_ops(row)
        + seq![TermOp::ResetColor, TermOp::LineBreak]
}

/// The operations that clear the stale rows `[new_rows, prev_rows)` left
/// behind by a taller previous paint, lowest row first; empty when the new
/// grid is at least as tall as the previous one.
pub open spec fn clear_rows_ops(new_rows: int, prev_rows: int) -> Seq<TermOp>
    decreases prev_rows - new_rows,
{
    if prev_rows <= new_rows {
        Seq::empty()
    } else {
        clear_rows_ops(new_rows, prev_rows - 1)
            + seq![
            TermOp::MoveTo { col: 0, row: (prev_rows - 1) as u16 },
            TermOp::ClearLine,
        ]
    }
}

/// The operations that paint every row of a grid, top to bottom.
pub open spec fn grid_rows_ops(cells: Seq<Seq<GlyphCell>>) -> Seq<TermOp>
    decreases cells.len(),
{
    if cells.len() == 0 {
        Seq::empty()
    } else {
        grid_rows_ops(cells.drop_last()) + row_ops(cells.last(), (cells.len() - 1) as u16)
    }
}

/// Everything one paint emits: home the cursor, clear the stale trailing
/// rows, repaint every row of the new grid.
pub open spec fn paint_ops_spec(cells: Seq<Seq<GlyphCell>>, prev_rows: int) -> Seq<TermOp> {
    seq![TermOp::MoveTo { col: 0, row: 0 }] + clear_rows_ops(cells.len() as int, prev_rows)
        + grid_rows_ops(cells)
}

/// The Terminal Painter's state: the row count of the previous paint, so
/// that a shorter new grid clears exactly the rows it no longer covers.
pub struct Painter {
    pub prev_rows: u16,
}

impl Painter {
    /// A painter for a fresh screen: nothing painted yet.
    pub fn new() -> (p: Painter)
        ensures
            p.prev_rows == 0,
    {
        Painter { prev_rows: 0 }
    }

    /// Emits the batch of operations that displays `g`, leaving no stale
    /// characters from a taller previous frame, and records the new row
    /// count.
    pub fn paint(&mut self, g: &Grid) -> (ops: Vec<TermOp>)
        requires
            g@.len() <= u16::MAX,
        ensures
            final(self).prev_rows == g@.len(),
            ops@ == paint_ops_spec(g@, old(self).prev_rows as int),
    {
        let prev: u16 = self.prev_rows;
        let n: usize = g.cells.len();
        let new_rows: u16 = n as u16;
        let mut ops: Vec<TermOp> = Vec::new();
        ops.push(TermOp::MoveTo { col: 0, row: 0 });
        assert(ops@ =~= seq![TermOp::MoveTo { col: 0, row: 0 }]
            + clear_rows_ops(n as int, new_rows as int));

        let mut y: u16 = new_rows;
        while y < prev
            invariant
                new_rows <= y,
                y <= prev || y == new_rows,
                ops@ == seq![TermOp::MoveTo { col: 0, row: 0 }]
                    + clear_rows_ops(new_rows as int, y as int),
            decreases prev as int - y as int,
        {
            ops.push(TermOp::MoveTo { col: 0, row: y });
            ops.push(TermOp::ClearLine);
            assert(ops@ =~= seq![TermOp::MoveTo { col: 0, row: 0 }]
                + clear_rows_ops(new_rows as int, y as int + 1));
            y = y + 1;
        }
        assert(clear_rows_ops(new_rows as int, y as int)
            == clear_rows_ops(new_rows as int, prev as int));

        let ghost base: Seq<TermOp> = ops@;
        assert(g@.take(0) =~= Seq::<Seq<GlyphCell>>::empty());

        let mut yi: usize = 0;
        while yi < n
            invariant
                yi <= n,
                n == g@.len(),
                n <= u16::MAX,
                ops@ == base + grid_rows_ops(g@.take(yi as int)),
            decreases n - yi,
        {
            let ghost row_base: Seq<TermOp> = ops@;
            ops.push(TermOp::MoveTo { col: 0, row: yi as u16 });
            ops.push(TermOp::ClearLine);
            let row: &Vec<GlyphCell> = &g.cells[yi];
            assert(row@ == g@[yi as int]);

            let m: usize = row.len();
            let ghost cells_base: Seq<TermOp> = ops@;
            assert(row@.take(0) =~= Seq::<GlyphCell>::empty());
            let mut xi: usize = 0;
            while xi < m
                invariant
                    xi <= m,
                    m == row@.len(),
                    ops@ == cells_base + row_cells_ops(row@.take(xi as int)),
                decreases m - xi,
            {
                let c: GlyphCell = row[xi];
                ops.push(TermOp::SetColor { color: c.color });
                ops.push(TermOp::PrintChar { ch: c.ch });
                proof {
                    let t = row@.take(xi as int + 1);
                    assert(t.drop_last() =~= row@.take(xi as int));
                    assert(t.last() == row@[xi as int]);
                    assert(ops@ =~= cells_base + row_cells_ops(t));
                }
                xi = xi + 1;
            }
            assert(row@.take(m as int) =~= row@);

            ops.push(TermOp::ResetColor);
            ops.push(TermOp::LineBreak);
            proof {
                let t = g@.take(yi as int + 1);
                assert(t.drop_last() =~= g@.take(yi as int));
                assert(t.last() == g@[yi as int]);
                assert(ops@ =~= row_base + row_ops(g@[yi as int], yi as u16));
                assert(ops@ =~= base + grid_rows_ops(t));
            }
            yi = yi + 1;
        }
        assert(g@.take(n as int) =~= g@);
        self.prev_rows = new_rows;
        assert(ops@ =~= paint_ops_spec(g@, prev as int));
        ops
    }
}

/// Painting a grid is deterministic in the grid and the previous row count,
/// and a repaint of the same grid (previous row count equal to its own row
/// count) emits no clearing operations: it is the cursor-home move followed
/// by exactly the row operations that every paint of this grid emits, so
/// two paints in a row differ only in the clear segment.
pub proof fn lemma_repaint_emits_same_rows(cells: Seq<Seq<GlyphCell>>, prev_rows: int)
    ensures
        paint_ops_spec(cells, cells.len() as int) == seq![TermOp::MoveTo { col: 0, row: 0 }]
            + grid_rows_ops(cells),
        paint_ops_spec(cells, prev_rows).skip(
            1 + clear_rows_ops(cells.len() as int, prev_rows).len() as int,
        ) == grid_rows_ops(cells),
{
    assert(clear_rows_ops(cells.len() as int, cells.len() as int) =~= Seq::<TermOp>::empty());
    assert(paint_ops_spec(cells, cells.len() as int) =~= seq![TermOp::MoveTo { col: 0, row: 0 }]
        + grid_rows_ops(cells));
    assert(paint_ops_spec(cells, prev_rows).skip(
        1 + clear_rows_ops(cells.len() as int, prev_rows).len() as int,
    ) =~= grid_rows_ops(cells));
}

} // verus!
