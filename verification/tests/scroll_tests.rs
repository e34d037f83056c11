use feathers_widgets::scroll::{
    scroll, scroll_padding, HScrollbar, ScrollProps, ScrollbarPlugin, VScrollbar,
};
use feathers_widgets::style::{Overflow, OverflowAxis, Val};
use feathers_widgets::thumb::ThumbGeometry;

#[test]
fn default_props_do_not_scroll() {
    let props = ScrollProps::default();
    assert_eq!(props.width, Val::Percent(100));
    assert_eq!(props.height, Val::Auto);
    assert_eq!(props.overflow.x, OverflowAxis::Visible);
    assert_eq!(props.overflow.y, OverflowAxis::Visible);
    assert!(props.show_scrollbars);
}

#[test]
fn vertical_props_scroll_vertically_only() {
    let props = ScrollProps::vertical(Val::Px(400));
    assert_eq!(props.height, Val::Px(400));
    assert_eq!(props.overflow.x, OverflowAxis::Visible);
    assert_eq!(props.overflow.y, OverflowAxis::Scroll);
}

#[test]
fn horizontal_props_scroll_horizontally_only() {
    let props = ScrollProps::horizontal(Val::Px(400));
    assert_eq!(props.width, Val::Px(400));
    assert_eq!(props.overflow.x, OverflowAxis::Scroll);
    assert_eq!(props.overflow.y, OverflowAxis::Visible);
}

#[test]
fn both_props_scroll_both_ways() {
    let props = ScrollProps::both(Val::Px(300), Val::Px(400));
    assert_eq!(props.width, Val::Px(300));
    assert_eq!(props.height, Val::Px(400));
    assert_eq!(props.overflow.x, OverflowAxis::Scroll);
    assert_eq!(props.overflow.y, OverflowAxis::Scroll);
}

#[test]
fn padding_widens_where_scrollbars_sit() {
    let p = scroll_padding(&ScrollProps::vertical(Val::Px(400)));
    assert_eq!(p.left, Val::Px(4));
    assert_eq!(p.top, Val::Px(4));
    assert_eq!(p.right, Val::Px(12));
    assert_eq!(p.bottom, Val::Px(4));

    let p = scroll_padding(&ScrollProps::both(Val::Px(300), Val::Px(400)));
    assert_eq!(p.right, Val::Px(12));
    assert_eq!(p.bottom, Val::Px(12));
}

#[test]
fn padding_stays_base_without_scrollbars() {
    let mut props = ScrollProps::vertical(Val::Px(400));
    props.show_scrollbars = false;
    let p = scroll_padding(&props);
    assert_eq!(p.left, Val::Px(4));
    assert_eq!(p.top, Val::Px(4));
    assert_eq!(p.right, Val::Px(4));
    assert_eq!(p.bottom, Val::Px(4));
}

#[test]
fn template_starts_in_no_thumb_state() {
    let w = scroll(ScrollProps::vertical(Val::Px(400)));
    assert!(w.container.show_scrollbars);
    assert_eq!(w.overflow.y, OverflowAxis::Scroll);
    assert_eq!(w.position.x, 0);
    assert_eq!(w.position.y, 0);
    assert!(w.v_scrollbar.is_none());
    assert!(w.h_scrollbar.is_none());
}

#[test]
fn spawn_attaches_thumb_for_enabled_axis_only() {
    let mut w = scroll(ScrollProps::vertical(Val::Px(400)));
    w.spawn_scrollbars(1, 2);
    assert_eq!(w.v_scrollbar, Some((VScrollbar(1), ThumbGeometry::new())));
    assert!(w.h_scrollbar.is_none());
}

#[test]
fn spawn_is_one_way() {
    let mut w = scroll(ScrollProps::both(Val::Px(300), Val::Px(400)));
    w.spawn_scrollbars(1, 2);
    let first = w;
    w.spawn_scrollbars(3, 4);
    assert_eq!(w, first);
}

#[test]
fn spawn_respects_show_scrollbars() {
    let mut props = ScrollProps::vertical(Val::Px(400));
    props.show_scrollbars = false;
    let mut w = scroll(props);
    w.spawn_scrollbars(1, 2);
    assert!(w.v_scrollbar.is_none());
    assert!(w.h_scrollbar.is_none());
}

#[test]
fn frame_spawns_and_sizes_thumb_in_one_pass() {
    let mut w = scroll(ScrollProps::vertical(Val::Px(200)));
    w.set_layout(300, 1000, 300, 200);
    ScrollbarPlugin.frame(&mut w, true, 7, 8);
    assert_eq!(
        w.v_scrollbar,
        Some((VScrollbar(7), ThumbGeometry { length_pct: 20, offset_pct: 0 }))
    );
    assert!(w.h_scrollbar.is_none());
}

#[test]
fn frame_tracks_the_offset() {
    let mut w = scroll(ScrollProps::vertical(Val::Px(200)));
    w.set_layout(300, 1000, 300, 200);
    ScrollbarPlugin.frame(&mut w, true, 7, 8);
    w.handle_scroll(0, 1000);
    assert_eq!(w.position.y, 800);
    ScrollbarPlugin.frame(&mut w, false, 0, 0);
    assert_eq!(
        w.v_scrollbar,
        Some((VScrollbar(7), ThumbGeometry { length_pct: 20, offset_pct: 80 }))
    );
}

#[test]
fn set_layout_reclamps_offset() {
    let mut w = scroll(ScrollProps::vertical(Val::Px(200)));
    w.set_layout(300, 1000, 300, 200);
    w.handle_scroll(0, 1000);
    assert_eq!(w.position.y, 800);
    w.set_layout(300, 500, 300, 200);
    assert_eq!(w.position.y, 300);
}

#[test]
fn vertical_widget_at_max_ignores_further_scroll() {
    let mut w = scroll(ScrollProps::vertical(Val::Px(200)));
    w.set_layout(300, 1000, 300, 200);
    w.handle_scroll(0, 1000);
    assert_eq!(w.position.y, 800);
    w.handle_scroll(0, 5);
    assert_eq!(w.position.y, 800);
    assert_eq!(w.position.x, 0);
}

#[test]
fn vertical_widget_takes_horizontal_wheel() {
    let mut w = scroll(ScrollProps::vertical(Val::Px(200)));
    w.set_layout(300, 1000, 300, 200);
    w.handle_scroll(5, 0);
    assert_eq!(w.position.y, 105);
    assert_eq!(w.position.x, 0);
}

#[test]
fn horizontal_widget_takes_vertical_wheel() {
    let mut w = scroll(ScrollProps::horizontal(Val::Px(200)));
    w.set_layout(1000, 300, 200, 300);
    w.handle_scroll(0, 5);
    assert_eq!(w.position.x, 105);
    assert_eq!(w.position.y, 0);
}

#[test]
fn underfull_widget_keeps_whole_track_thumb() {
    let mut w = scroll(ScrollProps::vertical(Val::Px(400)));
    w.set_layout(300, 150, 300, 400);
    ScrollbarPlugin.frame(&mut w, true, 1, 2);
    assert_eq!(w.v_scrollbar, Some((VScrollbar(1), ThumbGeometry::new())));
    w.handle_scroll(0, 50);
    assert_eq!(w.position.y, 0);
    ScrollbarPlugin.frame(&mut w, false, 0, 0);
    assert_eq!(w.v_scrollbar, Some((VScrollbar(1), ThumbGeometry::new())));
}

#[test]
fn scrollbar_markers_hold_thumb_ids() {
    assert_eq!(VScrollbar(5).0, 5);
    assert_eq!(HScrollbar(6).0, 6);
}
