//! The Playback Clock: drift-correcting pacing of frame display.
//!
//! Frame `n` has the wall-clock deadline `n / fps` (in nanoseconds) relative
//! to the playback start instant; the clock reports how long the caller must
//! still wait before that deadline, and zero once it has passed. The clock
//! never accumulates wait debt: late frames are displayed at once, keeping
//! long-run playback synchronized with wall-clock time. A zero or malformed
//! frame rate falls back to 30 frames per second instead of failing.

use vstd::prelude::*;

verus! {

/// A frame rate reported as the rational `num / den` is usable only when
/// both parts are positive.
pub open spec fn rate_is_valid(num: int, den: int) -> bool {
    num > 0 && den > 0
}

/// Numerator of the rate actually used: the reported one, or the 30/1
/// fallback when the report is zero or malformed.
pub open spec fn effective_num(num: int, den: int) -> int {
    if rate_is_valid(num, den) {
        num
    } else {
        30
    }
}

/// Denominator of the rate actually used (1 under the fallback).
pub open spec fn effective_den(num: int, den: int) -> int {
    if rate_is_valid(num, den) {
        den
    } else {
        1
    }
}

/// Wall-clock deadline of frame `idx` in nanoseconds since playback start:
/// `idx / fps` with `fps = num / den`, rounded down.
pub open spec fn target_nanos_spec(idx: int, num: int, den: int) -> int {
    (idx * effective_den(num, den) * 1_000_000_000) / effective_num(num, den)
}

/// Pacing wait before frame `idx` may be displayed, given the wall-clock
/// time already elapsed since playback start: the time left until the
/// frame's deadline, zero once the deadline has passed, and saturating at
/// `u64::MAX` nanoseconds.
pub open spec fn wait_nanos_spec(idx: int, num: int, den: int, elapsed: int) -> int {
    let t = target_nanos_spec(idx, num, den);
    if elapsed >= t {
        0
    } else if t - elapsed > u64::MAX {
        u64::MAX as int
    } else {
        t - elapsed
    }
}

/// Replaces a reported frame rate by the rate the clock actually uses:
/// the report itself when usable, else the 30/1 fallback.
pub fn normalize_rate(num: i32, den: i32) -> (r: (u32, u32))
    ensures
        r.0 == effective_num(num as int, den as int),
        r.1 == effective_den(num as int, den as int),
        r.0 > 0,
        r.1 > 0,
{
    if num > 0 && den > 0 {
        (num as u32, den as u32)
    } else {
        (30, 1)
    }
}

/// The Playback Clock: nanoseconds to wait before frame `frame_index` may
/// be displayed, `elapsed_nanos` after playback start, at the normalized
/// rate `num / den`.
pub fn wait_nanos(frame_index: u64, num: u32, den: u32, elapsed_nanos: u64) -> (w: u64)
    requires
        num > 0,
        den > 0,
    ensures
        w == wait_nanos_spec(frame_index as int, num as int, den as int, elapsed_nanos as int),
{
    proof {
        assert((frame_index as int) * (den as int) <= 0xffffffffffffffff * 0xffffffff)
            by (nonlinear_arith)
            requires
                0 <= frame_index as int <= 0xffffffffffffffff,
                0 <= den as int <= 0xffffffff,
        ;
    }
    let t: u128 = ((frame_index as u128) * (den as u128) * 1_000_000_000) / (num as u128);
    let e: u128 = elapsed_nanos as u128;
    if e >= t {
        0
    } else {
        let d: u128 = t - e;
        if d > (u64::MAX as u128) {
            u64::MAX
        } else {
            d as u64
        }
    }
}

/// Deadlines never move backwards: a later frame has a deadline at least as
/// late as an earlier one.
pub proof fn lemma_target_monotonic(i1: int, i2: int, num: int, den: int)
    requires
        0 <= i1 <= i2,
    ensures
        target_nanos_spec(i1, num, den) <= target_nanos_spec(i2, num, den),
{
    let en = effective_num(num, den);
    let ed = effective_den(num, den);
    assert(i1 * ed * 1_000_000_000 <= i2 * ed * 1_000_000_000) by (nonlinear_arith)
        requires
            0 <= i1 <= i2,
            ed > 0,
    ;
    vstd::arithmetic::div_mod::lemma_div_is_ordered(
        i1 * ed * 1_000_000_000,
        i2 * ed * 1_000_000_000,
        en,
    );
}

/// Deadlines are never negative.
pub proof fn lemma_target_nonnegative(idx: int, num: int, den: int)
    requires
        0 <= idx,
    ensures
        0 <= target_nanos_spec(idx, num, den),
{
    let en = effective_num(num, den);
    let ed = effective_den(num, den);
    assert(0 <= idx * ed * 1_000_000_000) by (nonlinear_arith)
        requires
            0 <= idx,
            ed > 0,
    ;
    vstd::arithmetic::div_mod::lemma_div_pos_is_pos(idx * ed * 1_000_000_000, en);
}

/// A frame whose deadline has already passed is never waited on: the
/// reported wait is exactly zero, never negative.
pub proof fn lemma_late_frame_no_wait(idx: int, num: int, den: int, elapsed: int)
    requires
        elapsed >= target_nanos_spec(idx, num, den),
    ensures
        wait_nanos_spec(idx, num, den, elapsed) == 0,
{
}

/// Waiting out the reported time lands exactly on the frame's deadline
/// whenever the clock is consulted at or before it.
pub proof fn lemma_wait_reaches_deadline(idx: int, num: int, den: int, elapsed: int)
    requires
        elapsed <= target_nanos_spec(idx, num, den),
        target_nanos_spec(idx, num, den) - elapsed <= u64::MAX,
    ensures
        elapsed + wait_nanos_spec(idx, num, den, elapsed) == target_nanos_spec(idx, num, den),
{
}

/// The moment frame `idx` is displayed when every frame is decoded and
/// painted instantly: each frame becomes ready the moment the previous one
/// was displayed, then waits out the clock's report.
pub open spec fn zero_delay_display_time(idx: int, num: int, den: int) -> int
    decreases idx,
{
    if idx <= 0 {
        wait_nanos_spec(0, num, den, 0)
    } else {
        let prev = zero_delay_display_time(idx - 1, num, den);
        prev + wait_nanos_spec(idx, num, den, prev)
    }
}

/// Under zero processing delay the cumulative wait over frames `0..=idx`
/// places each display exactly on its deadline `idx / fps`: playback
/// neither drifts ahead nor falls behind.
pub proof fn lemma_zero_delay_tracks_deadlines(idx: int, num: int, den: int)
    requires
        0 <= idx,
        target_nanos_spec(idx, num, den) <= u64::MAX,
    ensures
        zero_delay_display_time(idx, num, den) == target_nanos_spec(idx, num, den),
    decreases idx,
{
    if idx == 0 {
        let en = effective_num(num, den);
        let ed = effective_den(num, den);
        assert(0 * ed * 1_000_000_000 == 0) by (nonlinear_arith);
        vstd::arithmetic::div_mod::lemma_basic_div(0, en);
        lemma_wait_reaches_deadline(0, num, den, 0);
    } else {
        lemma_target_monotonic(idx - 1, idx, num, den);
        lemma_zero_delay_tracks_deadlines(idx - 1, num, den);
        lemma_target_nonnegative(idx - 1, num, den);
        lemma_wait_reaches_deadline(idx, num, den, target_nanos_spec(idx - 1, num, den));
    }
}

} // verus!
