use feathers_widgets::thumb::{update_thumb, ThumbGeometry};

#[test]
fn new_thumb_consumes_whole_track() {
    let t = ThumbGeometry::new();
    assert_eq!(t.length_pct, 100);
    assert_eq!(t.offset_pct, 0);
}

#[test]
fn thumb_fifth_visible_at_top() {
    let mut t = ThumbGeometry::new();
    update_thumb(&mut t, 1000, 200, 0);
    assert_eq!(t.length_pct, 20);
    assert_eq!(t.offset_pct, 0);
}

#[test]
fn thumb_fifth_visible_at_bottom() {
    let mut t = ThumbGeometry::new();
    update_thumb(&mut t, 1000, 200, 800);
    assert_eq!(t.length_pct, 20);
    assert_eq!(t.offset_pct, 80);
}

#[test]
fn thumb_halfway() {
    let mut t = ThumbGeometry::new();
    update_thumb(&mut t, 1000, 200, 400);
    assert_eq!(t.length_pct, 20);
    assert_eq!(t.offset_pct, 40);
}

#[test]
fn thumb_never_shrinks_below_minimum() {
    let mut t = ThumbGeometry::new();
    update_thumb(&mut t, 10000, 200, 4900);
    assert_eq!(t.length_pct, 10);
    assert_eq!(t.offset_pct, 45);
}

#[test]
fn thumb_untouched_without_overrun() {
    let mut t = ThumbGeometry::new();
    update_thumb(&mut t, 100, 200, 0);
    assert_eq!(t, ThumbGeometry::new());
    update_thumb(&mut t, 200, 200, 0);
    assert_eq!(t, ThumbGeometry::new());
}

#[test]
fn thumb_keeps_last_value_without_overrun() {
    let mut t = ThumbGeometry::new();
    update_thumb(&mut t, 1000, 200, 800);
    let sized = t;
    update_thumb(&mut t, 150, 200, 0);
    assert_eq!(t, sized);
}
