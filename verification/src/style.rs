//! Plain models of the layout attributes the widgets read and produce.
//!
//! The host layout engine owns the real node styles; the widgets only ever
//! look at a handful of their attributes — which axes may scroll, a length
//! in pixels or percent, a padding rectangle. Those few attributes are
//! modelled here over integers so the widget logic can be stated and
//! checked exactly.

use vstd::prelude::*;

verus! {

/// A layout length: automatic, absolute pixels, or a percentage of the
/// parent.
#[derive(Clone, Copy, Debug, PartialEq, Eq, Structural)]
pub enum Val {
    /// Let the layout engine choose.
    Auto,
    /// An absolute length in pixels.
    Px(i64),
    /// A percentage of the parent's length.
    Percent(i64),
}

/// Overflow behaviour of one axis. Only `Scroll` makes the axis scrollable.
#[derive(Clone, Copy, Debug, PartialEq, Eq, Structural)]
pub enum OverflowAxis {
    /// Overflowing content is shown.
    Visible,
    /// Overflowing content is cut off.
    Clip,
    /// Overflowing content is cut off and the node is not scrollable.
    Hidden,
    /// Overflowing content is cut off and the node scrolls.
    Scroll,
}

impl OverflowAxis {
    /// Whether this axis scrolls.
    pub fn is_scroll(&self) -> (r: bool)
        ensures
            r == (*self is Scroll),
    {
        match self {
            OverflowAxis::Scroll => true,
            _ => false,
        }
    }
}

/// Overflow behaviour of a node, one axis at a time.
#[derive(Clone, Copy, Debug, PartialEq, Eq, Structural)]
pub struct Overflow {
    /// Horizontal overflow behaviour.
    pub x: OverflowAxis,
    /// Vertical overflow behaviour.
    pub y: OverflowAxis,
}

impl Overflow {
    /// Overflow that shows everything on both axes.
    pub fn visible() -> (o: Overflow)
        ensures
            o.x is Visible,
            o.y is Visible,
    {
        Overflow { x: OverflowAxis::Visible, y: OverflowAxis::Visible }
    }
}

/// Direction content is laid out in.
#[derive(Clone, Copy, Debug, PartialEq, Eq, Structural)]
pub enum FlexDirection {
    /// Left to right.
    Row,
    /// Top to bottom.
    Column,
}

/// Cross-axis alignment of laid-out children.
#[derive(Clone, Copy, Debug, PartialEq, Eq, Structural)]
pub enum AlignItems {
    /// Stretch children to fill the cross axis.
    Stretch,
    /// Pack children at the cross axis start.
    Start,
    /// Centre children on the cross axis.
    Center,
    /// Pack children at the cross axis end.
    End,
}

/// A rectangle of lengths, one per edge: the widgets use it for padding.
#[derive(Clone, Copy, Debug, PartialEq, Eq, Structural)]
pub struct UiRect {
    /// Left edge.
    pub left: Val,
    /// Top edge.
    pub top: Val,
    /// Right edge.
    pub right: Val,
    /// Bottom edge.
    pub bottom: Val,
}

} // verus!
