//! Timeline arithmetic: the OS reports a track's start, end and position as
//! ticks of 100 nanoseconds. This module converts ticks to milliseconds,
//! computes track durations, and clamps seek and skip targets so that a
//! requested position never leaves the track span.

use vstd::prelude::*;

verus! {

/// Ticks (100 ns units) per millisecond.
pub const TICKS_PER_MILLISECOND: i64 = 10_000;

/// Safety margin kept between a seek target and either end of the track:
/// one second, in ticks. Some sources reject positions at the exact
/// boundaries, so seeks on long enough tracks stay this far inside them.
pub const SEEK_MARGIN_TICKS: i64 = 10_000_000;

/// How far one rewind or fast-forward step moves: ten seconds, in ticks.
pub const SKIP_STEP_TICKS: i64 = 100_000_000;

/// A session's timeline as the OS reports it: start, end and current
/// position of the track, in ticks.
#[derive(Clone, Copy, Debug, PartialEq, Eq, Structural)]
pub struct Timeline {
    pub start: i64,
    pub end: i64,
    pub position: i64,
}

/// `x` capped into `[lo, hi]`, the upper bound applied first: when
/// `hi < lo` (a malformed span) the result is `lo`.
pub open spec fn clamp_ticks(x: int, lo: int, hi: int) -> int {
    let capped = if x > hi {
        hi
    } else {
        x
    };
    if capped < lo {
        lo
    } else {
        capped
    }
}

/// The absolute tick position a seek request lands on. The requested
/// milliseconds are converted to the native tick unit, taken past `start`,
/// and clamped: into `[start + margin, end - margin]` when the span exceeds
/// twice the margin, into `[start, end]` otherwise.
pub open spec fn seek_target(start: int, end: int, position_ms: int) -> int {
    let raw = start + position_ms * (TICKS_PER_MILLISECOND as int);
    if end > start + 2 * (SEEK_MARGIN_TICKS as int) {
        clamp_ticks(raw, start + (SEEK_MARGIN_TICKS as int), end - (SEEK_MARGIN_TICKS as int))
    } else {
        clamp_ticks(raw, start, end)
    }
}

/// The tick position one rewind step lands on: ten seconds back, but never
/// before `start`.
pub open spec fn rewind_target(start: int, position: int) -> int {
    if position - (SKIP_STEP_TICKS as int) < start {
        start
    } else {
        position - (SKIP_STEP_TICKS as int)
    }
}

/// The tick position one fast-forward step lands on: ten seconds ahead, but
/// never past `end`.
pub open spec fn fast_forward_target(end: int, position: int) -> int {
    if position + (SKIP_STEP_TICKS as int) > end {
        end
    } else {
        position + (SKIP_STEP_TICKS as int)
    }
}

/// A track's length in ticks: `end - start`, or 0 when the OS reports a
/// malformed span with `end <= start` (a documented degraded case, not an
/// error).
pub open spec fn duration_ticks(start: int, end: int) -> int {
    if end > start {
        end - start
    } else {
        0
    }
}

/// A track's length in milliseconds.
pub open spec fn duration_ms_of(start: int, end: int) -> int {
    duration_ticks(start, end) / (TICKS_PER_MILLISECOND as int)
}

/// The position relative to track start, in milliseconds. A position before
/// `start` wraps through the unsigned 64-bit range, as the raw cast in the
/// tick-to-millisecond conversion does.
pub open spec fn position_ms_of(start: int, position: int) -> int {
    if position >= start {
        (position - start) / (TICKS_PER_MILLISECOND as int)
    } else {
        (position - start + 0x1_0000_0000_0000_0000) / (TICKS_PER_MILLISECOND as int)
    }
}

/// Computes a track's length in milliseconds from its raw tick span.
pub fn duration_ms(start: i64, end: i64) -> (ms: u64)
    ensures
        ms == duration_ms_of(start as int, end as int),
{
    if end > start {
        let span: i128 = (end as i128) - (start as i128);
        (span / (TICKS_PER_MILLISECOND as i128)) as u64
    } else {
        0
    }
}

/// Computes the position relative to track start, in milliseconds.
pub fn position_ms(start: i64, position: i64) -> (ms: u64)
    ensures
        ms == position_ms_of(start as int, position as int),
{
    let diff: i128 = (position as i128) - (start as i128);
    if diff >= 0 {
        (diff / (TICKS_PER_MILLISECOND as i128)) as u64
    } else {
        ((diff + 0x1_0000_0000_0000_0000) / (TICKS_PER_MILLISECOND as i128)) as u64
    }
}

/// Law: on a well-formed timeline (`end > start`) every seek lands within
/// `[start, end]`, and within the tighter `[start + margin, end - margin]`
/// whenever the span exceeds twice the margin.
pub proof fn lemma_seek_target_within_bounds(start: int, end: int, position_ms: int)
    requires
        end > start,
        position_ms >= 0,
    ensures
        start <= seek_target(start, end, position_ms) <= end,
        end - start > 2 * (SEEK_MARGIN_TICKS as int) ==> start + (SEEK_MARGIN_TICKS as int) <= seek_target(
            start,
            end,
            position_ms,
        ) <= end - (SEEK_MARGIN_TICKS as int),
{
}

/// Law: when the reported position lies inside the track span, the
/// millisecond position never exceeds the millisecond duration.
pub proof fn lemma_position_within_duration(start: int, end: int, position: int)
    requires
        start <= position <= end,
    ensures
        0 <= position_ms_of(start, position) <= duration_ms_of(start, end),
{
    if end > start {
        vstd::arithmetic::div_mod::lemma_div_is_ordered(
            position - start,
            end - start,
            TICKS_PER_MILLISECOND as int,
        );
    }
}

/// Law: one rewind step from any position at or after `start` never lands
/// before `start`, and never moves forward.
pub proof fn lemma_rewind_target_not_before_start(start: int, position: int)
    requires
        position >= start,
    ensures
        start <= rewind_target(start, position) <= position,
{
}

/// Law: one fast-forward step from any position at or before `end` never
/// lands past `end`, and never moves backward.
pub proof fn lemma_fast_forward_target_not_past_end(end: int, position: int)
    requires
        position <= end,
    ensures
        position <= fast_forward_target(end, position) <= end,
{
}

} // verus!
