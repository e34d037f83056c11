//! The scroll offset and the input handler that mutates it.
//!
//! A container's scroll offset lives in `[0, max_offset]` per axis, where
//! `max_offset = max(content_size - viewport_size, 0)`. The input handler
//! consumes a raw 2D delta, scales line-unit deltas to pixels, redirects a
//! delta purely on a disabled axis onto the one enabled axis, and then
//! steps each enabled axis independently with an at-limit no-op and a
//! clamp.

use vstd::prelude::*;

verus! {

/// Height of one scrolled line, in pixels: the factor a line-unit delta is
/// scaled by before it is applied.
pub const LINE_HEIGHT: i64 = 21;

/// Deltas whose components are all smaller than this magnitude are taken to
/// be in line units rather than pixels, and are scaled by [`LINE_HEIGHT`].
pub const LINE_UNIT_THRESHOLD: i64 = 10;

/// A container's current scroll offset, in pixels per axis.
#[derive(Clone, Copy, Debug, PartialEq, Eq, Structural)]
pub struct ScrollPosition {
    /// Horizontal offset.
    pub x: i64,
    /// Vertical offset.
    pub y: i64,
}

/// Greatest admissible scroll offset for one axis: the content overrun,
/// or zero when the content fits in the viewport.
pub open spec fn spec_max_offset(content_size: int, viewport_size: int) -> int {
    if content_size - viewport_size > 0 {
        content_size - viewport_size
    } else {
        0
    }
}

/// `v` forced into `[lo, hi]` (meaningful only when `lo <= hi`).
pub open spec fn spec_clamp(v: int, lo: int, hi: int) -> int {
    if v < lo {
        lo
    } else if v > hi {
        hi
    } else {
        v
    }
}

/// One axis step of the input handler: a delta pointing at a boundary the
/// offset already sits on is a no-op (so a parent could chain the scroll);
/// otherwise the delta is added and the result clamped to `[0, max]`.
pub open spec fn spec_step_axis(offset: int, delta: int, max: int) -> int {
    if delta == 0 {
        offset
    } else if delta > 0 && offset >= max {
        offset
    } else if delta < 0 && offset <= 0 {
        offset
    } else {
        spec_clamp(offset + delta, 0, max)
    }
}

/// The delta with line units converted to pixels: when both components are
/// under the line-unit threshold in magnitude, the delta is scaled by the
/// line height; otherwise it is already in pixels and passes unchanged.
pub open spec fn spec_scale_line_delta(dx: int, dy: int) -> (int, int) {
    if -LINE_UNIT_THRESHOLD < dx < LINE_UNIT_THRESHOLD
        && -LINE_UNIT_THRESHOLD < dy < LINE_UNIT_THRESHOLD {
        (LINE_HEIGHT * dx, LINE_HEIGHT * dy)
    } else {
        (dx, dy)
    }
}

/// When only one axis is scroll-enabled and the delta is purely on the
/// other axis, the delta is redirected onto the enabled axis (so a plain
/// vertical wheel drives a horizontal-only container, and the other way
/// round); every other delta passes unchanged.
pub open spec fn spec_redirect_delta(dx: int, dy: int, x_scroll: bool, y_scroll: bool) -> (
    int,
    int,
) {
    if x_scroll && !y_scroll && dx == 0 && dy != 0 {
        (dy, 0)
    } else if y_scroll && !x_scroll && dy == 0 && dx != 0 {
        (0, dx)
    } else {
        (dx, dy)
    }
}

/// The scroll position after the whole input pipeline ran on a raw delta:
/// line-unit scaling, then redirection, then one independent step per
/// enabled axis. Disabled axes are never mutated.
pub open spec fn spec_apply_scroll(
    pos: ScrollPosition,
    dx: int,
    dy: int,
    x_scroll: bool,
    y_scroll: bool,
    max_x: int,
    max_y: int,
) -> (int, int) {
    let scaled = spec_scale_line_delta(dx, dy);
    let routed = spec_redirect_delta(scaled.0, scaled.1, x_scroll, y_scroll);
    (
        if x_scroll {
            spec_step_axis(pos.x as int, routed.0, max_x)
        } else {
            pos.x as int
        },
        if y_scroll {
            spec_step_axis(pos.y as int, routed.1, max_y)
        } else {
            pos.y as int
        },
    )
}

/// Greatest admissible scroll offset for one axis, as executable code.
pub fn max_offset(content_size: i64, viewport_size: i64) -> (m: i64)
    requires
        0 <= content_size <= crate::MAX_DIMENSION,
        0 <= viewport_size <= crate::MAX_DIMENSION,
    ensures
        m == spec_max_offset(content_size as int, viewport_size as int),
        0 <= m <= crate::MAX_DIMENSION,
{
    if content_size > viewport_size {
        content_size - viewport_size
    } else {
        0
    }
}

/// Steps one axis of the scroll offset by `delta`.
pub fn step_axis(offset: i64, delta: i64, max: i64) -> (r: i64)
    requires
        0 <= offset <= max,
        max <= crate::MAX_DIMENSION,
        -21 * crate::MAX_DIMENSION <= delta <= 21 * crate::MAX_DIMENSION,
    ensures
        r == spec_step_axis(offset as int, delta as int, max as int),
        0 <= r <= max,
{
    if delta == 0 {
        offset
    } else if delta > 0 && offset >= max {
        offset
    } else if delta < 0 && offset <= 0 {
        offset
    } else {
        let moved = offset + delta;
        if moved < 0 {
            0
        } else if moved > max {
            max
        } else {
            moved
        }
    }
}

/// Converts a raw delta's line units to pixels.
pub fn scale_line_delta(dx: i64, dy: i64) -> (r: (i64, i64))
    requires
        -crate::MAX_DIMENSION <= dx <= crate::MAX_DIMENSION,
        -crate::MAX_DIMENSION <= dy <= crate::MAX_DIMENSION,
    ensures
        (r.0 as int, r.1 as int) == spec_scale_line_delta(dx as int, dy as int),
        -21 * crate::MAX_DIMENSION <= r.0 <= 21 * crate::MAX_DIMENSION,
        -21 * crate::MAX_DIMENSION <= r.1 <= 21 * crate::MAX_DIMENSION,
{
    if -LINE_UNIT_THRESHOLD < dx && dx < LINE_UNIT_THRESHOLD && -LINE_UNIT_THRESHOLD < dy
        && dy < LINE_UNIT_THRESHOLD {
        (LINE_HEIGHT * dx, LINE_HEIGHT * dy)
    } else {
        (dx, dy)
    }
}

/// Redirects a delta purely on a disabled axis onto the one enabled axis.
pub fn redirect_delta(dx: i64, dy: i64, x_scroll: bool, y_scroll: bool) -> (r: (i64, i64))
    ensures
        (r.0 as int, r.1 as int) == spec_redirect_delta(dx as int, dy as int, x_scroll, y_scroll),
{
    if x_scroll && !y_scroll && dx == 0 && dy != 0 {
        (dy, 0)
    } else if y_scroll && !x_scroll && dy == 0 && dx != 0 {
        (0, dx)
    } else {
        (dx, dy)
    }
}

/// The input handler: consumes a raw 2D delta and mutates the scroll offset
/// in place — line units scaled to pixels, a delta purely on a disabled
/// axis redirected onto the one enabled axis, then each enabled axis
/// stepped independently with an at-limit no-op and a clamp. Disabled axes
/// keep their offset.
pub fn apply_scroll(
    pos: &mut ScrollPosition,
    dx: i64,
    dy: i64,
    x_scroll: bool,
    y_scroll: bool,
    max_x: i64,
    max_y: i64,
)
    requires
        0 <= old(pos).x <= max_x,
        0 <= old(pos).y <= max_y,
        max_x <= crate::MAX_DIMENSION,
        max_y <= crate::MAX_DIMENSION,
        -crate::MAX_DIMENSION <= dx <= crate::MAX_DIMENSION,
        -crate::MAX_DIMENSION <= dy <= crate::MAX_DIMENSION,
    ensures
        (final(pos).x as int, final(pos).y as int) == spec_apply_scroll(
            *old(pos),
            dx as int,
            dy as int,
            x_scroll,
            y_scroll,
            max_x as int,
            max_y as int,
        ),
        0 <= final(pos).x <= max_x,
        0 <= final(pos).y <= max_y,
{
    let scaled = scale_line_delta(dx, dy);
    let routed = redirect_delta(scaled.0, scaled.1, x_scroll, y_scroll);
    if x_scroll {
        pos.x = step_axis(pos.x, routed.0, max_x);
    }
    if y_scroll {
        pos.y = step_axis(pos.y, routed.1, max_y);
    }
}

/// The offset after a whole sequence of axis steps, first delta first.
pub open spec fn spec_apply_deltas(offset: int, deltas: Seq<int>, max: int) -> int
    decreases deltas.len(),
{
    if deltas.len() == 0 {
        offset
    } else {
        spec_apply_deltas(spec_step_axis(offset, deltas.first(), max), deltas.drop_first(), max)
    }
}

/// Reclamping an already clamped value changes nothing: the clamp is
/// idempotent.
pub proof fn lemma_clamp_idempotent(v: int, lo: int, hi: int)
    requires
        lo <= hi,
    ensures
        spec_clamp(spec_clamp(v, lo, hi), lo, hi) == spec_clamp(v, lo, hi),
{
}

/// One axis step keeps the offset inside `[0, max]`.
pub proof fn lemma_step_axis_in_range(offset: int, delta: int, max: int)
    requires
        0 <= offset <= max,
    ensures
        0 <= spec_step_axis(offset, delta, max) <= max,
{
}

/// Applying any sequence of deltas to a valid offset never produces an
/// out-of-range offset: the axis invariant survives every input history.
pub proof fn lemma_delta_sequence_in_range(offset: int, deltas: Seq<int>, max: int)
    requires
        0 <= offset <= max,
    ensures
        0 <= spec_apply_deltas(offset, deltas, max) <= max,
    decreases deltas.len(),
{
    if deltas.len() > 0 {
        lemma_step_axis_in_range(offset, deltas.first(), max);
        lemma_delta_sequence_in_range(
            spec_step_axis(offset, deltas.first(), max),
            deltas.drop_first(),
            max,
        );
    }
}

/// While the content fits in the viewport the admissible range is empty:
/// `max_offset` is 0, and the offset stays pinned at 0 through any sequence
/// of deltas.
pub proof fn lemma_underfull_axis_pinned(content_size: int, viewport_size: int, deltas: Seq<int>)
    requires
        content_size <= viewport_size,
    ensures
        spec_max_offset(content_size, viewport_size) == 0,
        spec_apply_deltas(0, deltas, 0) == 0,
{
    lemma_delta_sequence_in_range(0, deltas, 0);
}

/// A delta that would push the offset past a boundary lands exactly on that
/// boundary — 0 below, `max` above — and never overshoots.
pub proof fn lemma_step_axis_boundary(offset: int, delta: int, max: int)
    requires
        0 <= offset <= max,
    ensures
        delta > 0 && offset + delta > max ==> spec_step_axis(offset, delta, max) == max,
        delta < 0 && offset + delta < 0 ==> spec_step_axis(offset, delta, max) == 0,
{
}

} // verus!
