//! The scroll container widget: its construction template, the scrollbar
//! lifecycle, and the per-frame passes over its state.
//!
//! A container is created once with [`scroll`], in the no-thumb state. When
//! it is first observed with scrollbars enabled on a scrollable axis, the
//! lifecycle pass attaches the missing scrollbar thumbs — a one-way, one-time
//! transition; a container is never downgraded. Every frame after that, the
//! geometry pass recomputes each attached thumb from the current offset and
//! sizes. The lifecycle pass must run before the geometry pass within a
//! frame, so a container created this frame has its thumb sized in the same
//! frame; [`ScrollbarPlugin::frame`] fixes that order.

use vstd::prelude::*;
use crate::offset::{
    spec_apply_scroll, spec_clamp, spec_max_offset, apply_scroll, max_offset, ScrollPosition,
};
use crate::style::{AlignItems, FlexDirection, Overflow, OverflowAxis, UiRect, Val};
use crate::thumb::{spec_thumb_after_update, update_thumb, ThumbGeometry};

verus! {

/// Width of a scrollbar track, in pixels.
pub const SCROLLBAR_WIDTH: i64 = 8;

/// Padding of a scroll container on edges without a scrollbar, in pixels.
pub const BASE_PADDING: i64 = 4;

/// Groups the two per-frame scrollbar passes — thumb creation and thumb
/// geometry — and runs them in their required order.
#[derive(Clone, Copy, Debug, PartialEq, Eq, Structural)]
pub struct ScrollbarPlugin;

/// Marker for scroll containers, storing the one construction property the
/// scrollbar passes read back.
#[derive(Clone, Copy, Debug, PartialEq, Eq, Structural)]
pub struct ScrollContainer {
    /// Whether to show scrollbars for this container.
    pub show_scrollbars: bool,
}

/// Marker for the scroll wrapper, the parent of a scroll container. The
/// scrollbars attach to it rather than to the container, so they are not
/// clipped when the container clips its overflow.
#[derive(Clone, Copy, Debug, Default, PartialEq, Eq, Structural)]
pub struct ScrollWrapper;

/// Vertical scrollbar of a container, holding the id of its thumb.
#[derive(Clone, Copy, Debug, PartialEq, Eq, Structural)]
pub struct VScrollbar(pub u64);

/// Horizontal scrollbar of a container, holding the id of its thumb.
#[derive(Clone, Copy, Debug, PartialEq, Eq, Structural)]
pub struct HScrollbar(pub u64);

/// Construction properties for the scroll container template.
#[derive(Clone, Copy, Debug, PartialEq, Eq, Structural)]
pub struct ScrollProps {
    /// Width of the scroll container.
    pub width: Val,
    /// Height of the scroll container.
    pub height: Val,
    /// Overflow settings: which axes scroll.
    pub overflow: Overflow,
    /// Direction the content is laid out in.
    pub flex_direction: FlexDirection,
    /// Whether to show scrollbars.
    pub show_scrollbars: bool,
    /// Cross-axis alignment of the content.
    pub align_items: AlignItems,
}

impl Default for ScrollProps {
    /// A non-scrolling container filling its parent's width.
    fn default() -> (props: ScrollProps)
        ensures
            props.width == Val::Percent(100),
            props.height is Auto,
            props.overflow.x is Visible && props.overflow.y is Visible,
            props.flex_direction is Column,
            props.show_scrollbars,
            props.align_items is Stretch,
    {
        ScrollProps {
            width: Val::Percent(100),
            height: Val::Auto,
            overflow: Overflow::visible(),
            flex_direction: FlexDirection::Column,
            show_scrollbars: true,
            align_items: AlignItems::Stretch,
        }
    }
}

impl ScrollProps {
    /// A vertically scrolling container of the given height.
    pub fn vertical(height: Val) -> (props: ScrollProps)
        ensures
            props.width == Val::Percent(100),
            props.height == height,
            props.overflow.x is Visible && props.overflow.y is Scroll,
            props.flex_direction is Column,
            props.show_scrollbars,
            props.align_items is Stretch,
    {
        ScrollProps {
            width: Val::Percent(100),
            height,
            overflow: Overflow { x: OverflowAxis::Visible, y: OverflowAxis::Scroll },
            flex_direction: FlexDirection::Column,
            show_scrollbars: true,
            align_items: AlignItems::Stretch,
        }
    }

    /// A horizontally scrolling container of the given width.
    pub fn horizontal(width: Val) -> (props: ScrollProps)
        ensures
            props.width == width,
            props.height is Auto,
            props.overflow.x is Scroll && props.overflow.y is Visible,
            props.flex_direction is Row,
            props.show_scrollbars,
            props.align_items is Stretch,
    {
        ScrollProps {
            width,
            height: Val::Auto,
            overflow: Overflow { x: OverflowAxis::Scroll, y: OverflowAxis::Visible },
            flex_direction: FlexDirection::Row,
            show_scrollbars: true,
            align_items: AlignItems::Stretch,
        }
    }

    /// A container scrolling on both axes, of the given width and height.
    pub fn both(width: Val, height: Val) -> (props: ScrollProps)
        ensures
            props.width == width,
            props.height == height,
            props.overflow.x is Scroll && props.overflow.y is Scroll,
            props.flex_direction is Column,
            props.show_scrollbars,
            props.align_items is Stretch,
    {
        ScrollProps {
            width,
            height,
            overflow: Overflow { x: OverflowAxis::Scroll, y: OverflowAxis::Scroll },
            flex_direction: FlexDirection::Column,
            show_scrollbars: true,
            align_items: AlignItems::Stretch,
        }
    }
}

/// The container's padding: the base padding everywhere, widened on the
/// right and bottom edges by the scrollbar width where a scrollbar will sit
/// (right for a vertical one, bottom for a horizontal one).
pub open spec fn spec_scroll_padding(props: ScrollProps) -> UiRect {
    if props.show_scrollbars {
        UiRect {
            left: Val::Px(BASE_PADDING),
            top: Val::Px(BASE_PADDING),
            right: Val::Px(
                if props.overflow.y is Scroll {
                    (BASE_PADDING + SCROLLBAR_WIDTH) as i64
                } else {
                    BASE_PADDING
                },
            ),
            bottom: Val::Px(
                if props.overflow.x is Scroll {
                    (BASE_PADDING + SCROLLBAR_WIDTH) as i64
                } else {
                    BASE_PADDING
                },
            ),
        }
    } else {
        UiRect {
            left: Val::Px(BASE_PADDING),
            top: Val::Px(BASE_PADDING),
            right: Val::Px(BASE_PADDING),
            bottom: Val::Px(BASE_PADDING),
        }
    }
}

/// Computes the padding a scroll container is built with.
pub fn scroll_padding(props: &ScrollProps) -> (p: UiRect)
    ensures
        p == spec_scroll_padding(*props),
{
    if props.show_scrollbars {
        UiRect {
            left: Val::Px(BASE_PADDING),
            top: Val::Px(BASE_PADDING),
            right: Val::Px(
                if props.overflow.y.is_scroll() {
                    BASE_PADDING + SCROLLBAR_WIDTH
                } else {
                    BASE_PADDING
                },
            ),
            bottom: Val::Px(
                if props.overflow.x.is_scroll() {
                    BASE_PADDING + SCROLLBAR_WIDTH
                } else {
                    BASE_PADDING
                },
            ),
        }
    } else {
        UiRect {
            left: Val::Px(BASE_PADDING),
            top: Val::Px(BASE_PADDING),
            right: Val::Px(BASE_PADDING),
            bottom: Val::Px(BASE_PADDING),
        }
    }
}

/// One scroll container together with everything the scrollbar passes own:
/// its overflow configuration, its offset, the sizes the layout engine last
/// reported, and the scrollbar thumbs attached so far.
#[derive(Clone, Copy, Debug, PartialEq)]
pub struct ScrollWidget {
    /// The wrapper node the container and its scrollbars sit under.
    pub wrapper: ScrollWrapper,
    /// The container marker and its construction properties.
    pub container: ScrollContainer,
    /// Which axes scroll.
    pub overflow: Overflow,
    /// The container's padding, fixed at construction.
    pub padding: UiRect,
    /// Current scroll offset, clamped to the admissible range per axis.
    pub position: ScrollPosition,
    /// Laid-out width of the content, in pixels.
    pub content_width: i64,
    /// Laid-out height of the content, in pixels.
    pub content_height: i64,
    /// Visible width of the container, in pixels.
    pub viewport_width: i64,
    /// Visible height of the container, in pixels.
    pub viewport_height: i64,
    /// The vertical scrollbar and its thumb geometry, once attached.
    pub v_scrollbar: Option<(VScrollbar, ThumbGeometry)>,
    /// The horizontal scrollbar and its thumb geometry, once attached.
    pub h_scrollbar: Option<(HScrollbar, ThumbGeometry)>,
}

impl ScrollWidget {
    /// Well-formedness: sizes are bounded pixel counts, and the offset lies
    /// in the admissible range of each axis.
    pub open spec fn wf(&self) -> bool {
        &&& 0 <= self.content_width <= crate::MAX_DIMENSION
        &&& 0 <= self.content_height <= crate::MAX_DIMENSION
        &&& 0 <= self.viewport_width <= crate::MAX_DIMENSION
        &&& 0 <= self.viewport_height <= crate::MAX_DIMENSION
        &&& 0 <= self.position.x <= spec_max_offset(
            self.content_width as int,
            self.viewport_width as int,
        )
        &&& 0 <= self.position.y <= spec_max_offset(
            self.content_height as int,
            self.viewport_height as int,
        )
    }
}

/// The scroll container template: builds a fresh widget from its
/// construction properties. The widget starts in the no-thumb state, at
/// offset zero, with no layout reported yet.
pub fn scroll(props: ScrollProps) -> (w: ScrollWidget)
    ensures
        w.wf(),
        w.container.show_scrollbars == props.show_scrollbars,
        w.overflow == props.overflow,
        w.padding == spec_scroll_padding(props),
        w.position.x == 0 && w.position.y == 0,
        w.content_width == 0 && w.content_height == 0,
        w.viewport_width == 0 && w.viewport_height == 0,
        w.v_scrollbar is None && w.h_scrollbar is None,
{
    let padding = scroll_padding(&props);
    ScrollWidget {
        wrapper: ScrollWrapper,
        container: ScrollContainer { show_scrollbars: props.show_scrollbars },
        overflow: props.overflow,
        padding,
        position: ScrollPosition { x: 0, y: 0 },
        content_width: 0,
        content_height: 0,
        viewport_width: 0,
        viewport_height: 0,
        v_scrollbar: None,
        h_scrollbar: None,
    }
}

/// The widget after the lifecycle pass ran on it with the given thumb ids:
/// each scrollable axis of a container that shows scrollbars gains a thumb
/// consuming the whole track, unless it has one already; nothing else moves.
pub open spec fn spec_spawned_scrollbars(w: ScrollWidget, v_thumb: u64, h_thumb: u64) -> ScrollWidget {
    ScrollWidget {
        v_scrollbar: if w.container.show_scrollbars && w.overflow.y is Scroll
            && w.v_scrollbar is None {
            Some((VScrollbar(v_thumb), ThumbGeometry { length_pct: 100, offset_pct: 0 }))
        } else {
            w.v_scrollbar
        },
        h_scrollbar: if w.container.show_scrollbars && w.overflow.x is Scroll
            && w.h_scrollbar is None {
            Some((HScrollbar(h_thumb), ThumbGeometry { length_pct: 100, offset_pct: 0 }))
        } else {
            w.h_scrollbar
        },
        ..w
    }
}

/// The widget after the geometry pass ran on it: each attached thumb is
/// recomputed from the current offset and sizes — the vertical one from the
/// heights and the vertical offset, the horizontal one from the widths and
/// the horizontal offset; nothing else moves.
pub open spec fn spec_updated_scrollbars(w: ScrollWidget) -> ScrollWidget {
    ScrollWidget {
        v_scrollbar: match w.v_scrollbar {
            Some(p) => Some(
                (
                    p.0,
                    spec_thumb_after_update(
                        p.1,
                        w.content_height as int,
                        w.viewport_height as int,
                        w.position.y as int,
                    ),
                ),
            ),
            None => None,
        },
        h_scrollbar: match w.h_scrollbar {
            Some(p) => Some(
                (
                    p.0,
                    spec_thumb_after_update(
                        p.1,
                        w.content_width as int,
                        w.viewport_width as int,
                        w.position.x as int,
                    ),
                ),
            ),
            None => None,
        },
        ..w
    }
}

/// The widget after a layout report: the new sizes are taken over and the
/// offset is reclamped to the admissible range they induce.
pub open spec fn spec_with_layout(
    w: ScrollWidget,
    content_width: i64,
    content_height: i64,
    viewport_width: i64,
    viewport_height: i64,
) -> ScrollWidget {
    ScrollWidget {
        content_width,
        content_height,
        viewport_width,
        viewport_height,
        position: ScrollPosition {
            x: spec_clamp(
                w.position.x as int,
                0,
                spec_max_offset(content_width as int, viewport_width as int),
            ) as i64,
            y: spec_clamp(
                w.position.y as int,
                0,
                spec_max_offset(content_height as int, viewport_height as int),
            ) as i64,
        },
        ..w
    }
}

/// The widget after the input handler consumed a raw delta: the position
/// moves as the offset pipeline says; nothing else moves.
pub open spec fn spec_scrolled(w: ScrollWidget, dx: int, dy: int) -> ScrollWidget {
    let moved = spec_apply_scroll(
        w.position,
        dx,
        dy,
        w.overflow.x is Scroll,
        w.overflow.y is Scroll,
        spec_max_offset(w.content_width as int, w.viewport_width as int),
        spec_max_offset(w.content_height as int, w.viewport_height as int),
    );
    ScrollWidget { position: ScrollPosition { x: moved.0 as i64, y: moved.1 as i64 }, ..w }
}

impl ScrollWidget {
    /// The lifecycle pass for this container: attaches the scrollbar thumbs
    /// the configuration asks for and the container does not have yet,
    /// under the given thumb ids. Runs once, when the container is first
    /// observed; attached scrollbars are never removed or replaced.
    pub fn spawn_scrollbars(&mut self, v_thumb: u64, h_thumb: u64)
        ensures
            *final(self) == spec_spawned_scrollbars(*old(self), v_thumb, h_thumb),
            old(self).wf() ==> final(self).wf(),
    {
        if self.container.show_scrollbars && self.overflow.y.is_scroll()
            && self.v_scrollbar.is_none() {
            self.v_scrollbar = Some((VScrollbar(v_thumb), ThumbGeometry::new()));
        }
        if self.container.show_scrollbars && self.overflow.x.is_scroll()
            && self.h_scrollbar.is_none() {
            self.h_scrollbar = Some((HScrollbar(h_thumb), ThumbGeometry::new()));
        }
    }

    /// The geometry pass for this container: recomputes every attached
    /// thumb from the current offset and sizes.
    pub fn update_scrollbars(&mut self)
        requires
            old(self).wf(),
        ensures
            *final(self) == spec_updated_scrollbars(*old(self)),
            final(self).wf(),
    {
        let content_height = self.content_height;
        let viewport_height = self.viewport_height;
        let content_width = self.content_width;
        let viewport_width = self.viewport_width;
        match self.v_scrollbar {
            Some(mut pair) => {
                update_thumb(&mut pair.1, content_height, viewport_height, self.position.y);
                self.v_scrollbar = Some(pair);
            },
            None => {},
        }
        match self.h_scrollbar {
            Some(mut pair) => {
                update_thumb(&mut pair.1, content_width, viewport_width, self.position.x);
                self.h_scrollbar = Some(pair);
            },
            None => {},
        }
    }

    /// Takes over a layout report from the host: the content and viewport
    /// sizes, with the offset reclamped to the range they admit.
    pub fn set_layout(
        &mut self,
        content_width: i64,
        content_height: i64,
        viewport_width: i64,
        viewport_height: i64,
    )
        requires
            0 <= content_width <= crate::MAX_DIMENSION,
            0 <= content_height <= crate::MAX_DIMENSION,
            0 <= viewport_width <= crate::MAX_DIMENSION,
            0 <= viewport_height <= crate::MAX_DIMENSION,
        ensures
            *final(self) == spec_with_layout(
                *old(self),
                content_width,
                content_height,
                viewport_width,
                viewport_height,
            ),
            final(self).wf(),
    {
        self.content_width = content_width;
        self.content_height = content_height;
        self.viewport_width = viewport_width;
        self.viewport_height = viewport_height;
        let max_x = max_offset(content_width, viewport_width);
        let max_y = max_offset(content_height, viewport_height);
        if self.position.x < 0 {
            self.position.x = 0;
        } else if self.position.x > max_x {
            self.position.x = max_x;
        }
        if self.position.y < 0 {
            self.position.y = 0;
        } else if self.position.y > max_y {
            self.position.y = max_y;
        }
    }

    /// The scroll input handler for this container: consumes a raw 2D delta
    /// and moves the offset through the whole pipeline — line-unit scaling,
    /// redirection of a one-axis delta onto the only enabled axis, and one
    /// clamped step per enabled axis.
    pub fn handle_scroll(&mut self, dx: i64, dy: i64)
        requires
            old(self).wf(),
            -crate::MAX_DIMENSION <= dx <= crate::MAX_DIMENSION,
            -crate::MAX_DIMENSION <= dy <= crate::MAX_DIMENSION,
        ensures
            *final(self) == spec_scrolled(*old(self), dx as int, dy as int),
            final(self).wf(),
    {
        let max_x = max_offset(self.content_width, self.viewport_width);
        let max_y = max_offset(self.content_height, self.viewport_height);
        let x_scroll = self.overflow.x.is_scroll();
        let y_scroll = self.overflow.y.is_scroll();
        apply_scroll(&mut self.position, dx, dy, x_scroll, y_scroll, max_x, max_y);
    }
}

impl ScrollbarPlugin {
    /// One frame of the scrollbar passes over a container, in their
    /// required order: the lifecycle pass first — only on a container
    /// created this frame — then the geometry pass, so a thumb attached
    /// this frame is sized this frame.
    pub fn frame(&self, w: &mut ScrollWidget, just_created: bool, v_thumb: u64, h_thumb: u64)
        requires
            old(w).wf(),
        ensures
            *final(w) == spec_updated_scrollbars(
                if just_created {
                    spec_spawned_scrollbars(*old(w), v_thumb, h_thumb)
                } else {
                    *old(w)
                },
            ),
            final(w).wf(),
    {
        if just_created {
            w.spawn_scrollbars(v_thumb, h_thumb);
        }
        w.update_scrollbars();
    }
}

/// An axis whose content fits its viewport is pinned: its admissible range
/// is empty, its offset stays 0 through any scroll input, and its attached
/// thumb's geometry survives any geometry pass untouched — so a thumb
/// attached in the whole-track state keeps consuming the whole track.
pub proof fn lemma_underfull_widget_pinned(w: ScrollWidget, dx: int, dy: int)
    requires
        w.wf(),
    ensures
        w.content_height <= w.viewport_height ==> spec_max_offset(
            w.content_height as int,
            w.viewport_height as int,
        ) == 0 && spec_scrolled(w, dx, dy).position.y == 0 && spec_updated_scrollbars(
            w,
        ).v_scrollbar == w.v_scrollbar,
        w.content_width <= w.viewport_width ==> spec_max_offset(
            w.content_width as int,
            w.viewport_width as int,
        ) == 0 && spec_scrolled(w, dx, dy).position.x == 0 && spec_updated_scrollbars(
            w,
        ).h_scrollbar == w.h_scrollbar,
{
}

/// The scrollbar lifecycle is one-way: the lifecycle pass leaves an
/// existing scrollbar exactly as it is, and the geometry pass never
/// attaches or removes one — a container is never downgraded.
pub proof fn lemma_scrollbar_lifecycle_one_way(w: ScrollWidget, v_thumb: u64, h_thumb: u64)
    ensures
        w.v_scrollbar is Some ==> spec_spawned_scrollbars(w, v_thumb, h_thumb).v_scrollbar
            == w.v_scrollbar,
        w.h_scrollbar is Some ==> spec_spawned_scrollbars(w, v_thumb, h_thumb).h_scrollbar
            == w.h_scrollbar,
        spec_updated_scrollbars(w).v_scrollbar is Some <==> w.v_scrollbar is Some,
        spec_updated_scrollbars(w).h_scrollbar is Some <==> w.h_scrollbar is Some,
{
}

} // verus!
