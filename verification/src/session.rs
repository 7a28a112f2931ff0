//! The Playback Driver's decisions: one Playback Session, stepped from
//! outside.
//!
//! The caller owns the decode loop and the live terminal; this module owns
//! every decision in it. A session moves `Active -> Draining -> Closed`,
//! with `Failed` reachable from any state but `Closed`; terminal-state
//! restoration (the teardown operations) is emitted exactly once, by the one
//! `finish` or `fail` call the state machine admits. The frame index counter
//! increments exactly once per displayed frame and never decrements or
//! skips: late frames are paced by a zero wait, never dropped.

use vstd::prelude::*;

use crate::clock::{
    effective_den, effective_num, normalize_rate, wait_nanos, wait_nanos_spec,
};
use crate::painter::{paint_ops_spec, Painter, TermOp};
use crate::raster::{rasterize, rasterized_cells_spec, target_height_spec, Frame};
use crate::RenderError;

verus! {

/// The phase a Playback Session is in. A session value exists only once
/// playback has started; `begin` is the transition out of the implicit
/// uninitialized phase.
#[derive(Clone, Copy, PartialEq, Eq, Structural, Debug)]
pub enum SessionState {
    /// Frames are being decoded and displayed.
    Active,
    /// The input stream is exhausted; the terminal is not yet restored.
    Draining,
    /// The terminal has been restored; the session is over.
    Closed,
    /// An unrecoverable error ended the session; the terminal teardown has
    /// been emitted.
    Failed,
}

/// What the driver must do for one displayed frame: sleep for the pacing
/// wait, then execute the paint batch against the terminal.
pub struct FrameOutput {
    pub wait_nanos: u64,
    pub ops: Vec<TermOp>,
}

/// The mutable state of one video-rendering run.
pub struct Session {
    pub state: SessionState,
    /// Source frame index counter: monotonic, starts at 0.
    pub frame_index: u64,
    /// Target frame rate, normalized at session start: numerator.
    pub rate_num: u32,
    /// Target frame rate, normalized at session start: denominator.
    pub rate_den: u32,
    /// Target character width, fixed at session start.
    pub width: u32,
    /// The Terminal Painter's previously-painted-row bookkeeping.
    pub painter: Painter,
}

/// The terminal operations that start a session's screen: raw mode on,
/// alternate screen, cursor hidden.
pub open spec fn setup_ops_spec() -> Seq<TermOp> {
    seq![TermOp::EnableRawMode, TermOp::EnterAltScreen, TermOp::HideCursor]
}

/// The terminal operations that restore the screen: color reset, screen
/// cleared, alternate screen left, cursor shown, raw mode off.
pub open spec fn teardown_ops_spec() -> Seq<TermOp> {
    seq![
        TermOp::ResetColor,
        TermOp::MoveTo { col: 0, row: 0 },
        TermOp::ClearAll,
        TermOp::LeaveAltScreen,
        TermOp::ShowCursor,
        TermOp::DisableRawMode,
    ]
}

/// The operations that enter the alternate-screen/raw-mode session.
pub fn setup_ops() -> (ops: Vec<TermOp>)
    ensures
        ops@ == setup_ops_spec(),
{
    let mut ops: Vec<TermOp> = Vec::new();
    ops.push(TermOp::EnableRawMode);
    ops.push(TermOp::EnterAltScreen);
    ops.push(TermOp::HideCursor);
    assert(ops@ =~= setup_ops_spec());
    ops
}

fn teardown_ops() -> (ops: Vec<TermOp>)
    ensures
        ops@ == teardown_ops_spec(),
{
    let mut ops: Vec<TermOp> = Vec::new();
    ops.push(TermOp::ResetColor);
    ops.push(TermOp::MoveTo { col: 0, row: 0 });
    ops.push(TermOp::ClearAll);
    ops.push(TermOp::LeaveAltScreen);
    ops.push(TermOp::ShowCursor);
    ops.push(TermOp::DisableRawMode);
    assert(ops@ =~= teardown_ops_spec());
    ops
}

/// A decode error on the selected video channel is fatal unless the decoder
/// signals that it merely needs more input, which is an expected condition,
/// not a failure.
pub fn decode_error_is_fatal(needs_more_input: bool) -> (fatal: bool)
    ensures
        fatal == !needs_more_input,
{
    !needs_more_input
}

impl Session {
    /// The rate was normalized at session start.
    pub open spec fn wf(&self) -> bool {
        self.rate_num > 0 && self.rate_den > 0
    }

    /// Starts playback: the `Uninitialized -> Active` transition. The caller
    /// reports whether the opened source offers a video channel (without
    /// one the session cannot start: `SourceError`), the channel's average
    /// frame rate, and the terminal width that caps the requested character
    /// width. The frame index starts at 0 and nothing is painted yet.
    pub fn begin(
        requested_width: u32,
        term_width: u16,
        has_video_channel: bool,
        rate_num: i32,
        rate_den: i32,
    ) -> (r: Result<Session, RenderError>)
        ensures
            match r {
                Ok(s) => {
                    &&& has_video_channel
                    &&& s.state == SessionState::Active
                    &&& s.frame_index == 0
                    &&& s.painter.prev_rows == 0
                    &&& s.rate_num == effective_num(rate_num as int, rate_den as int)
                    &&& s.rate_den == effective_den(rate_num as int, rate_den as int)
                    &&& s.width == if requested_width <= term_width as u32 {
                        requested_width as int
                    } else {
                        term_width as int
                    }
                    &&& s.wf()
                },
                Err(e) => !has_video_channel && e == RenderError::SourceError,
            },
    {
        if !has_video_channel {
            return Err(RenderError::SourceError);
        }
        let rate = normalize_rate(rate_num, rate_den);
        let tw: u32 = term_width as u32;
        let width: u32 = if requested_width <= tw {
            requested_width
        } else {
            tw
        };
        Ok(
            Session {
                state: SessionState::Active,
                frame_index: 0,
                rate_num: rate.0,
                rate_den: rate.1,
                width,
                painter: Painter::new(),
            },
        )
    }

    /// One `Active -> Active` step: rasterize the decoded frame, consult
    /// the Playback Clock against the wall-clock time elapsed since
    /// playback start, and diff-paint, incrementing the frame index exactly
    /// once. A frame whose rasterization target resolves to zero is
    /// unrecoverable: the session fails and the index does not move.
    pub fn on_frame(&mut self, frame: &Frame, elapsed_nanos: u64) -> (r: Result<
        FrameOutput,
        RenderError,
    >)
        requires
            old(self).state == SessionState::Active,
            old(self).wf(),
            old(self).frame_index < u64::MAX,
            frame.wf(),
            frame.width > 0 ==> target_height_spec(
                frame.width as int,
                frame.height as int,
                old(self).width as int,
            ) <= u16::MAX,
        ensures
            final(self).rate_num == old(self).rate_num,
            final(self).rate_den == old(self).rate_den,
            final(self).width == old(self).width,
            final(self).wf(),
            match r {
                Ok(out) => {
                    &&& old(self).width > 0
                    &&& frame.width > 0
                    &&& frame.height > 0
                    &&& target_height_spec(
                        frame.width as int,
                        frame.height as int,
                        old(self).width as int,
                    ) > 0
                    &&& final(self).state == SessionState::Active
                    &&& final(self).frame_index == old(self).frame_index + 1
                    &&& out.wait_nanos == wait_nanos_spec(
                        old(self).frame_index as int,
                        old(self).rate_num as int,
                        old(self).rate_den as int,
                        elapsed_nanos as int,
                    )
                    &&& out.ops@ == paint_ops_spec(
                        rasterized_cells_spec(frame, old(self).width as int),
                        old(self).painter.prev_rows as int,
                    )
                    &&& final(self).painter.prev_rows == target_height_spec(
                        frame.width as int,
                        frame.height as int,
                        old(self).width as int,
                    )
                },
                Err(e) => {
                    &&& e == RenderError::InvalidDimensions
                    &&& (old(self).width == 0 || frame.width == 0 || target_height_spec(
                        frame.width as int,
                        frame.height as int,
                        old(self).width as int,
                    ) == 0)
                    &&& final(self).state == SessionState::Failed
                    &&& final(self).frame_index == old(self).frame_index
                    &&& final(self).painter == old(self).painter
                },
            },
    {
        match rasterize(frame, self.width) {
            Ok(grid) => {
                let wait = wait_nanos(
                    self.frame_index,
                    self.rate_num,
                    self.rate_den,
                    elapsed_nanos,
                );
                let ops = self.painter.paint(&grid);
                self.frame_index = self.frame_index + 1;
                Ok(FrameOutput { wait_nanos: wait, ops })
            },
            Err(e) => {
                self.state = SessionState::Failed;
                Err(e)
            },
        }
    }

    /// The `Active -> Draining` transition: the input stream is exhausted.
    pub fn on_input_exhausted(&mut self)
        requires
            old(self).state == SessionState::Active,
        ensures
            final(self).state == SessionState::Draining,
            final(self).frame_index == old(self).frame_index,
            final(self).rate_num == old(self).rate_num,
            final(self).rate_den == old(self).rate_den,
            final(self).width == old(self).width,
            final(self).painter == old(self).painter,
    {
        self.state = SessionState::Draining;
    }

    /// The `Draining -> Closed` transition: emits the terminal restoration
    /// exactly once. The state machine admits no second call.
    pub fn finish(&mut self) -> (ops: Vec<TermOp>)
        requires
            old(self).state == SessionState::Draining,
        ensures
            final(self).state == SessionState::Closed,
            final(self).frame_index == old(self).frame_index,
            final(self).rate_num == old(self).rate_num,
            final(self).rate_den == old(self).rate_den,
            final(self).width == old(self).width,
            final(self).painter == old(self).painter,
            ops@ == teardown_ops_spec(),
    {
        self.state = SessionState::Closed;
        teardown_ops()
    }

    /// The `any non-Closed state -> Failed` transition: an unrecoverable
    /// error surfaced, and the same terminal restoration runs before it is
    /// reported to the caller.
    pub fn fail(&mut self) -> (ops: Vec<TermOp>)
        requires
            old(self).state != SessionState::Closed,
        ensures
            final(self).state == SessionState::Failed,
            final(self).frame_index == old(self).frame_index,
            final(self).rate_num == old(self).rate_num,
            final(self).rate_den == old(self).rate_den,
            final(self).width == old(self).width,
            final(self).painter == old(self).painter,
            ops@ == teardown_ops_spec(),
    {
        self.state = SessionState::Failed;
        teardown_ops()
    }
}

} // verus!
