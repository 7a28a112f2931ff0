use asciivid::glyph::{GlyphCell, Rgb};
use asciivid::painter::{Painter, TermOp};
use asciivid::raster::Grid;

fn uniform_grid(rows: usize, cols: usize, ch: char, rgb: (u8, u8, u8)) -> Grid {
    let cell = GlyphCell { ch, color: Rgb { r: rgb.0, g: rgb.1, b: rgb.2 } };
    Grid { cells: vec![vec![cell; cols]; rows], width: cols as u32 }
}

fn expected_row_ops(row: &[GlyphCell], y: u16) -> Vec<TermOp> {
    let mut ops = vec![TermOp::MoveTo { col: 0, row: y }, TermOp::ClearLine];
    for c in row {
        ops.push(TermOp::SetColor { color: c.color });
        ops.push(TermOp::PrintChar { ch: c.ch });
    }
    ops.push(TermOp::ResetColor);
    ops.push(TermOp::LineBreak);
    ops
}

#[test]
fn single_cell_paint_emits_exact_batch() {
    let g = uniform_grid(1, 1, '@', (5, 6, 7));
    let mut p = Painter::new();
    let ops = p.paint(&g);
    assert_eq!(
        ops,
        vec![
            TermOp::MoveTo { col: 0, row: 0 },
            TermOp::MoveTo { col: 0, row: 0 },
            TermOp::ClearLine,
            TermOp::SetColor { color: Rgb { r: 5, g: 6, b: 7 } },
            TermOp::PrintChar { ch: '@' },
            TermOp::ResetColor,
            TermOp::LineBreak,
        ]
    );
    assert_eq!(p.prev_rows, 1);
}

#[test]
fn shrinking_paint_clears_stale_trailing_rows() {
    let tall = uniform_grid(10, 2, '#', (1, 1, 1));
    let short = uniform_grid(3, 2, '+', (2, 2, 2));
    let mut p = Painter::new();
    p.paint(&tall);
    assert_eq!(p.prev_rows, 10);

    let ops = p.paint(&short);
    // cursor home, then rows 3..=9 cleared individually, lowest first
    assert_eq!(ops[0], TermOp::MoveTo { col: 0, row: 0 });
    for (k, y) in (3u16..10).enumerate() {
        assert_eq!(ops[1 + 2 * k], TermOp::MoveTo { col: 0, row: y });
        assert_eq!(ops[2 + 2 * k], TermOp::ClearLine);
    }
    // then every row of the new grid is painted in full
    let mut expected_tail = Vec::new();
    for y in 0..3u16 {
        expected_tail.extend(expected_row_ops(&short.cells[y as usize], y));
    }
    assert_eq!(&ops[15..], &expected_tail[..]);
    assert_eq!(p.prev_rows, 3);
}

#[test]
fn growing_paint_clears_nothing() {
    let short = uniform_grid(2, 2, '#', (1, 1, 1));
    let tall = uniform_grid(5, 2, '+', (2, 2, 2));
    let mut p = Painter::new();
    p.paint(&short);
    let ops = p.paint(&tall);
    assert_eq!(ops[0], TermOp::MoveTo { col: 0, row: 0 });
    // no clear pass: the second operation already starts row 0 of the grid
    assert_eq!(ops[1], TermOp::MoveTo { col: 0, row: 0 });
    assert_eq!(ops[2], TermOp::ClearLine);
    assert_eq!(ops.len(), 1 + 5 * (2 + 2 * 2 + 2));
}

#[test]
fn repainting_same_grid_is_deterministic() {
    let g = uniform_grid(4, 3, '*', (9, 8, 7));
    let mut p = Painter::new();
    let first = p.paint(&g);
    let second = p.paint(&g);
    // prior row count was 0, then 4: neither paint clears anything, so the
    // emitted batches are identical
    assert_eq!(first, second);
    assert_eq!(p.prev_rows, 4);
}

#[test]
fn repaint_after_shrink_differs_only_in_clear_segment() {
    let tall = uniform_grid(6, 1, '#', (1, 1, 1));
    let g = uniform_grid(2, 1, '*', (2, 2, 2));
    let mut p = Painter::new();
    p.paint(&tall);
    let with_clears = p.paint(&g);
    let repaint = p.paint(&g);
    // first paint of g clears rows 2..=5: 1 home move + 4 clear pairs
    let clear_len = 2 * 4;
    assert_eq!(with_clears[1 + clear_len..], repaint[1..]);
    assert_eq!(repaint[0], TermOp::MoveTo { col: 0, row: 0 });
}
