//! Renders decoded video frames as grids of colored characters and paces
//! their display against wall-clock time.
//!
//! The crate holds the pure core of a terminal media player: mapping color
//! samples to glyphs, rasterizing a frame to a character grid, computing the
//! pacing wait for each frame, diffing the terminal repaint, and the playback
//! session state machine. All I/O (decoding, terminal control) stays outside;
//! callers hand in plain values and execute the returned terminal operations.

use vstd::prelude::*;

pub mod clock;
pub mod glyph;
pub mod painter;
pub mod raster;
pub mod session;

verus! {

/// The error taxonomy of a playback session. Every kind is fatal to the
/// session that raised it.
#[derive(Clone, Copy, PartialEq, Eq, Structural, Debug)]
pub enum RenderError {
    /// The media file cannot be opened or has no usable video channel.
    SourceError,
    /// A packet of the selected video channel cannot be decoded.
    DecodeError,
    /// The rasterization target width or height resolves to zero.
    InvalidDimensions,
    /// A terminal-control operation failed.
    TerminalError,
}

} // verus!
