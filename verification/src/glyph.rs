//! The Glyph Mapper: a pure map from one color sample to one displayed
//! character tinted with that color.
//!
//! Brightness is the sRGB-weighted luminance of the sample, scaled to
//! `0..=255`. The character is picked from a fixed ramp ordered from
//! visually densest to sparsest: darker samples select denser characters.

use vstd::prelude::*;

verus! {

/// One color sample: 8-bit red, green and blue channel intensities.
#[derive(Clone, Copy, PartialEq, Eq, Structural, Debug)]
pub struct Rgb {
    pub r: u8,
    pub g: u8,
    pub b: u8,
}

/// One displayed character together with its foreground color.
#[derive(Clone, Copy, PartialEq, Eq, Structural, Debug)]
pub struct GlyphCell {
    pub ch: char,
    pub color: Rgb,
}

/// Number of characters in the brightness ramp.
pub const RAMP_LEN: usize = 11;

/// The fixed character ramp, ordered from visually heaviest (index 0,
/// darkest samples) to sparsest (last index, brightest samples).
pub open spec fn ramp() -> Seq<char> {
    seq!['@', '#', '$', '%', '?', '*', '+', ';', ':', ',', '.']
}

/// Luminance of a sample on the scale `0..=255`, using the sRGB channel
/// weights 2126/10000, 7152/10000 and 722/10000.
pub open spec fn luma_spec(p: Rgb) -> int {
    (2126 * p.r + 7152 * p.g + 722 * p.b) / 10000
}

/// Ramp index selected by a luminance on the scale `0..=255`:
/// `floor(brightness * (RAMP_LEN - 1))` with `brightness = l / 255`,
/// the ramp holding 11 characters.
pub open spec fn glyph_index_spec(l: int) -> int {
    (l * 10) / 255
}

/// The Glyph Cell produced for a sample: the ramp character selected by its
/// luminance, tinted with the sample's own color.
pub open spec fn glyph_spec(p: Rgb) -> GlyphCell {
    GlyphCell { ch: ramp()[glyph_index_spec(luma_spec(p))], color: p }
}

/// Luminance of a sample, on the scale `0..=255`.
pub fn luma(p: Rgb) -> (l: u8)
    ensures
        l as int == luma_spec(p),
{
    let weighted: u32 = 2126 * (p.r as u32) + 7152 * (p.g as u32) + 722 * (p.b as u32);
    assert(weighted <= 2_550_000);
    (weighted / 10000) as u8
}

/// The ramp index stays within the ramp for every luminance on the scale.
pub proof fn lemma_glyph_index_in_bounds(l: int)
    requires
        0 <= l <= 255,
    ensures
        0 <= glyph_index_spec(l) < ramp().len(),
{
}

/// As brightness increases the selected ramp index never decreases.
pub proof fn lemma_glyph_index_monotonic(l1: int, l2: int)
    requires
        0 <= l1 <= l2 <= 255,
    ensures
        glyph_index_spec(l1) <= glyph_index_spec(l2),
{
    vstd::arithmetic::div_mod::lemma_div_is_ordered(l1 * 10, l2 * 10, 255);
}

/// The ramp character at a valid index.
pub fn ramp_char(i: usize) -> (c: char)
    requires
        i < RAMP_LEN,
    ensures
        c == ramp()[i as int],
{
    match i {
        0 => '@',
        1 => '#',
        2 => '$',
        3 => '%',
        4 => '?',
        5 => '*',
        6 => '+',
        7 => ';',
        8 => ':',
        9 => ',',
        _ => '.',
    }
}

/// The Glyph Mapper: returns the Glyph Cell for one color sample.
pub fn map_pixel(p: Rgb) -> (g: GlyphCell)
    ensures
        g == glyph_spec(p),
{
    let l = luma(p);
    let idx: usize = (l as usize * 10) / 255;
    proof {
        lemma_glyph_index_in_bounds(l as int);
    }
    GlyphCell { ch: ramp_char(idx), color: p }
}

} // verus!
