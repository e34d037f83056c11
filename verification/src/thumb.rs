//! Scrollbar thumb geometry, derived from the scroll state.
//!
//! A thumb's length and position along its track are percentages, never
//! authoritative: they are recomputed whenever the scroll offset or the
//! sizes change. A freshly created thumb consumes the whole track; the
//! recomputation is skipped entirely while the content fits in the viewport
//! (no overflow), so such a thumb keeps consuming the whole track.

use vstd::prelude::*;
use crate::offset::{spec_clamp, spec_max_offset};

verus! {

/// Smallest thumb length, as a percentage of the track.
pub const SCROLLBAR_MIN_THUMB_SIZE: i64 = 10;

/// Derived geometry of one scrollbar thumb: its length and its offset along
/// the track, both as percentages of the track length.
#[derive(Clone, Copy, Debug, PartialEq, Eq, Structural)]
pub struct ThumbGeometry {
    /// Length of the thumb, as a percentage of the track.
    pub length_pct: i64,
    /// Offset of the thumb's leading edge along the track, as a percentage
    /// of the track.
    pub offset_pct: i64,
}

/// Thumb length for one axis: the visible fraction of the content as a
/// percentage, held into `[0, 100]` and raised to the minimum thumb size.
pub open spec fn spec_thumb_length(content_size: int, viewport_size: int) -> int
    recommends
        content_size > 0,
{
    let pct = spec_clamp(viewport_size * 100 / content_size, 0, 100);
    if pct > SCROLLBAR_MIN_THUMB_SIZE {
        pct
    } else {
        SCROLLBAR_MIN_THUMB_SIZE as int
    }
}

/// Thumb offset for one axis: the scrolled fraction of the admissible range
/// applied to the track length the thumb leaves free, `100 - thumb_length`.
pub open spec fn spec_thumb_offset(content_size: int, viewport_size: int, offset: int) -> int
    recommends
        spec_max_offset(content_size, viewport_size) > 0,
{
    let max = spec_max_offset(content_size, viewport_size);
    spec_clamp(offset, 0, max) * (100 - spec_thumb_length(content_size, viewport_size)) / max
}

impl ThumbGeometry {
    /// A freshly created thumb: it consumes the whole track.
    pub fn new() -> (t: ThumbGeometry)
        ensures
            t.length_pct == 100,
            t.offset_pct == 0,
    {
        ThumbGeometry { length_pct: 100, offset_pct: 0 }
    }
}

/// Whenever the viewport is positive and no larger than the content, the
/// thumb length is the visible fraction as a percentage, raised to the
/// minimum thumb size, and lies in `[SCROLLBAR_MIN_THUMB_SIZE, 100]`.
pub proof fn lemma_thumb_length_bounds(content_size: int, viewport_size: int)
    requires
        0 < viewport_size <= content_size,
    ensures
        spec_thumb_length(content_size, viewport_size) == if viewport_size * 100 / content_size
            > SCROLLBAR_MIN_THUMB_SIZE {
            viewport_size * 100 / content_size
        } else {
            SCROLLBAR_MIN_THUMB_SIZE as int
        },
        SCROLLBAR_MIN_THUMB_SIZE <= spec_thumb_length(content_size, viewport_size) <= 100,
{
    vstd::arithmetic::mul::lemma_mul_nonnegative(viewport_size, 100);
    vstd::arithmetic::div_mod::lemma_div_pos_is_pos(viewport_size * 100, content_size);
    vstd::arithmetic::mul::lemma_mul_inequality(viewport_size, content_size, 100);
    vstd::arithmetic::div_mod::lemma_div_is_ordered(
        viewport_size * 100,
        content_size * 100,
        content_size,
    );
    vstd::arithmetic::div_mod::lemma_div_multiples_vanish(100, content_size);
    assert(content_size * 100 == 100 * content_size) by (nonlinear_arith);
    assert(viewport_size * 100 / content_size <= 100);
}

/// Whenever the content overruns the viewport, the thumb's offset lies
/// between 0 (offset 0) and the track length the thumb leaves free
/// (offset at its maximum).
pub proof fn lemma_thumb_offset_bounds(content_size: int, viewport_size: int, offset: int)
    requires
        0 <= viewport_size < content_size,
    ensures
        0 <= spec_thumb_offset(content_size, viewport_size, offset) <= 100 - spec_thumb_length(
            content_size,
            viewport_size,
        ),
{
    let max = spec_max_offset(content_size, viewport_size);
    let len = spec_thumb_length(content_size, viewport_size);
    let clamped = spec_clamp(offset, 0, max);
    vstd::arithmetic::mul::lemma_mul_nonnegative(clamped, 100 - len);
    vstd::arithmetic::div_mod::lemma_div_pos_is_pos(clamped * (100 - len), max);
    vstd::arithmetic::mul::lemma_mul_inequality(clamped, max, 100 - len);
    vstd::arithmetic::div_mod::lemma_div_is_ordered(clamped * (100 - len), max * (100 - len), max);
    vstd::arithmetic::div_mod::lemma_div_multiples_vanish(100 - len, max);
    assert(max * (100 - len) == (100 - len) * max) by (nonlinear_arith);
}

/// The thumb geometry one recomputation yields: the exact length and offset
/// percentages while the content overruns the viewport, and the previous
/// geometry — untouched — while it does not.
pub open spec fn spec_thumb_after_update(
    prev: ThumbGeometry,
    content_size: int,
    viewport_size: int,
    offset: int,
) -> ThumbGeometry {
    if spec_max_offset(content_size, viewport_size) > 0 {
        ThumbGeometry {
            length_pct: spec_thumb_length(content_size, viewport_size) as i64,
            offset_pct: spec_thumb_offset(content_size, viewport_size, offset) as i64,
        }
    } else {
        prev
    }
}

/// Recomputes one thumb's geometry from the current offset and sizes. While
/// the content fits in the viewport (no admissible scrolling) the geometry
/// is left exactly as it was, rather than divided by zero.
pub fn update_thumb(thumb: &mut ThumbGeometry, content_size: i64, viewport_size: i64, offset: i64)
    requires
        0 <= content_size <= crate::MAX_DIMENSION,
        0 <= viewport_size <= crate::MAX_DIMENSION,
        0 <= offset <= spec_max_offset(content_size as int, viewport_size as int),
    ensures
        *final(thumb) == spec_thumb_after_update(
            *old(thumb),
            content_size as int,
            viewport_size as int,
            offset as int,
        ),
{
    let max = crate::offset::max_offset(content_size, viewport_size);
    if max > 0 {
        let raw_pct = viewport_size * 100 / content_size;
        let pct = if raw_pct < 0 {
            0
        } else if raw_pct > 100 {
            100
        } else {
            raw_pct
        };
        let length = if pct > SCROLLBAR_MIN_THUMB_SIZE {
            pct
        } else {
            SCROLLBAR_MIN_THUMB_SIZE
        };
        proof {
            vstd::arithmetic::mul::lemma_mul_upper_bound(
                offset as int,
                crate::MAX_DIMENSION as int,
                100 - length as int,
                100,
            );
            vstd::arithmetic::mul::lemma_mul_nonnegative(offset as int, 100 - length as int);
        }
        let position = offset * (100 - length) / max;
        thumb.length_pct = length;
        thumb.offset_pct = position;
    }
}

} // verus!
