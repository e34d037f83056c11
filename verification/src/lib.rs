//! Scroll-container and dropdown widget logic, modelled over integer pixel
//! coordinates.
//!
//! The library covers the state a scrollable container owns — its scroll
//! offset, the overflow configuration, and the derived scrollbar thumb
//! geometry — together with the rules that govern it: offsets are clamped to
//! `[0, max_offset]` on every mutation, thumb size and position are pure
//! functions of the current offset and the content/viewport sizes, and thumb
//! entities go through a one-way no-thumb to thumb-present transition when a
//! container is created. A small dropdown widget (open/closed state, option
//! selection through an explicit entity hierarchy) rounds out the set.

use vstd::prelude::*;

pub mod dropdown;
pub mod offset;
pub mod scroll;
pub mod style;
pub mod thumb;

verus! {

/// Upper bound on every size, offset and delta the library handles, in
/// pixels. Keeps all derived arithmetic (scaling by the line height,
/// percentages times an offset) comfortably inside `i64`.
pub const MAX_DIMENSION: i64 = 1_000_000_000_000;

} // verus!
