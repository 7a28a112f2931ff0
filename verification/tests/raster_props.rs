use asciivid::raster::{rasterize, Frame};
use asciivid::RenderError;

fn solid_frame(width: u32, height: u32, rgb: (u8, u8, u8)) -> Frame {
    let mut data = Vec::new();
    for _ in 0..(width * height) {
        data.push(rgb.0);
        data.push(rgb.1);
        data.push(rgb.2);
    }
    Frame::new(width, height, data).expect("buffer length matches dimensions")
}

#[test]
fn frame_new_rejects_wrong_buffer_length() {
    assert!(Frame::new(2, 2, vec![0u8; 11]).is_none());
    assert!(Frame::new(2, 2, vec![0u8; 12]).is_some());
}

#[test]
fn two_by_two_black_to_width_two() {
    // height = floor(2 * (2/2) * 0.5) = 1 row of 2 columns, both cells the
    // densest character in black
    let f = solid_frame(2, 2, (0, 0, 0));
    let g = rasterize(&f, 2).expect("valid dimensions");
    assert_eq!(g.cells.len(), 1);
    assert_eq!(g.width, 2);
    assert_eq!(g.cells[0].len(), 2);
    for cell in &g.cells[0] {
        assert_eq!(cell.ch, '@');
        assert_eq!((cell.color.r, cell.color.g, cell.color.b), (0, 0, 0));
    }
}

#[test]
fn grid_dimensions_follow_aspect_invariant() {
    // 4x4 source at width 4: height = floor(4 * (4/4) * 0.5) = 2
    let f = solid_frame(4, 4, (10, 10, 10));
    let g = rasterize(&f, 4).expect("valid dimensions");
    assert_eq!(g.cells.len(), 2);
    for row in &g.cells {
        assert_eq!(row.len(), 4);
    }

    // 6x2 source at width 3: height = floor(3 * (2/6) * 0.5) = 0 -> error
    let f = solid_frame(6, 2, (10, 10, 10));
    assert!(matches!(rasterize(&f, 3), Err(RenderError::InvalidDimensions)));

    // 100x50 source at width 20: height = floor(20 * (50/100) * 0.5) = 5
    let f = solid_frame(100, 50, (1, 2, 3));
    let g = rasterize(&f, 20).expect("valid dimensions");
    assert_eq!(g.cells.len(), 5);
    for row in &g.cells {
        assert_eq!(row.len(), 20);
    }
}

#[test]
fn zero_width_target_is_invalid_dimensions() {
    let f = solid_frame(2, 2, (0, 0, 0));
    assert!(matches!(rasterize(&f, 0), Err(RenderError::InvalidDimensions)));
}

#[test]
fn zero_height_target_is_invalid_dimensions() {
    // 1x1 source at width 1: height = floor(1 * 1 * 0.5) = 0
    let f = solid_frame(1, 1, (0, 0, 0));
    assert!(matches!(rasterize(&f, 1), Err(RenderError::InvalidDimensions)));
}

#[test]
fn nearest_neighbor_picks_center_samples() {
    // 2x2 source with four distinct colors, resampled to one row of two:
    // row sample index is floor((2*0+1)*2 / (2*1)) = 1 (the bottom row),
    // column indices floor(1*2/4) = 0 and floor(3*2/4) = 1
    let data = vec![
        10, 10, 10, /* (0,0) */ 20, 20, 20, /* (1,0) */
        30, 30, 30, /* (0,1) */ 40, 40, 40, /* (1,1) */
    ];
    let f = Frame::new(2, 2, data).unwrap();
    let g = rasterize(&f, 2).unwrap();
    assert_eq!(g.cells.len(), 1);
    assert_eq!(g.cells[0][0].color.r, 30);
    assert_eq!(g.cells[0][1].color.r, 40);
}
