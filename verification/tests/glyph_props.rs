use asciivid::glyph::{luma, map_pixel, ramp_char, Rgb, RAMP_LEN};

const RAMP: [char; 11] = ['@', '#', '$', '%', '?', '*', '+', ';', ':', ',', '.'];

fn ramp_index(c: char) -> usize {
    RAMP.iter().position(|&r| r == c).expect("character not on the ramp")
}

#[test]
fn black_selects_densest_glyph() {
    let g = map_pixel(Rgb { r: 0, g: 0, b: 0 });
    assert_eq!(g.ch, '@');
    assert_eq!(g.color, Rgb { r: 0, g: 0, b: 0 });
}

#[test]
fn white_selects_sparsest_glyph() {
    let g = map_pixel(Rgb { r: 255, g: 255, b: 255 });
    assert_eq!(g.ch, '.');
    assert_eq!(g.color, Rgb { r: 255, g: 255, b: 255 });
}

#[test]
fn color_passes_through_unmodified() {
    let p = Rgb { r: 17, g: 200, b: 96 };
    let g = map_pixel(p);
    assert_eq!(g.color, p);
}

#[test]
fn pure_red_luma_and_glyph() {
    // luma = floor(2126 * 255 / 10000) = 54; index = floor(54 * 10 / 255) = 2
    let p = Rgb { r: 255, g: 0, b: 0 };
    assert_eq!(luma(p), 54);
    assert_eq!(map_pixel(p).ch, '$');
}

#[test]
fn gray_luma_is_identity() {
    for v in 0..=255u8 {
        // weights sum to 10000, so a gray sample keeps its channel value
        assert_eq!(luma(Rgb { r: v, g: v, b: v }), v);
    }
}

#[test]
fn ramp_index_monotone_and_in_bounds_over_all_brightness() {
    let mut prev = 0usize;
    for v in 0..=255u8 {
        let g = map_pixel(Rgb { r: v, g: v, b: v });
        let idx = ramp_index(g.ch);
        assert!(idx < RAMP_LEN);
        assert!(idx >= prev, "ramp index decreased as brightness rose");
        prev = idx;
    }
    assert_eq!(prev, RAMP_LEN - 1);
}

#[test]
fn ramp_char_matches_fixed_ramp() {
    for (i, &c) in RAMP.iter().enumerate() {
        assert_eq!(ramp_char(i), c);
    }
}
