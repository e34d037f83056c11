use feathers_widgets::dropdown::{
    dropdown, dropdown_option, find_dropdown_ancestor, options_scroll_props,
    update_dropdown_visibility, Dropdown, DropdownProps,
};
use feathers_widgets::style::{OverflowAxis, Val};

#[test]
fn default_dropdown_is_closed_and_empty() {
    let d = Dropdown::default();
    assert!(!d.is_open);
    assert_eq!(d.selected, "");
}

#[test]
fn default_props() {
    let props = DropdownProps::default();
    assert_eq!(props.width, Val::Px(200));
    assert_eq!(props.max_height, Val::Px(300));
    assert!(props.initial_value.is_none());
}

#[test]
fn template_without_initial_value_shows_placeholder() {
    let (d, text) = dropdown(&DropdownProps::default());
    assert!(!d.is_open);
    assert_eq!(d.selected, "");
    assert_eq!(text, "Select...");
}

#[test]
fn template_with_initial_value_selects_it() {
    let props = DropdownProps {
        initial_value: Some("alto".to_string()),
        ..DropdownProps::default()
    };
    let (d, text) = dropdown(&props);
    assert!(!d.is_open);
    assert_eq!(d.selected, "alto");
    assert_eq!(text, "alto");
}

#[test]
fn options_list_is_a_vertical_scroll_of_max_height() {
    let props = DropdownProps { max_height: Val::Px(240), ..DropdownProps::default() };
    let sp = options_scroll_props(&props);
    assert_eq!(sp.width, Val::Percent(100));
    assert_eq!(sp.height, Val::Px(240));
    assert_eq!(sp.overflow.x, OverflowAxis::Visible);
    assert_eq!(sp.overflow.y, OverflowAxis::Scroll);
    assert!(sp.show_scrollbars);
}

#[test]
fn fresh_dropdown_hides_its_options() {
    let (d, _) = dropdown(&DropdownProps::default());
    let is_trigger = vec![true, false];
    let visible = vec![true, true];
    assert_eq!(update_dropdown_visibility(&d, &is_trigger, &visible), vec![true, false]);
}

#[test]
fn option_carries_its_value() {
    let o = dropdown_option("soprano");
    assert_eq!(o.value, "soprano");
}

#[test]
fn toggle_flips_and_keeps_selection() {
    let mut d = Dropdown { is_open: false, selected: "alto".to_string() };
    d.toggle();
    assert!(d.is_open);
    assert_eq!(d.selected, "alto");
    d.toggle();
    assert!(!d.is_open);
    assert_eq!(d.selected, "alto");
}

#[test]
fn select_takes_value_and_closes() {
    let mut d = Dropdown { is_open: true, selected: "alto".to_string() };
    d.select("tenor");
    assert!(!d.is_open);
    assert_eq!(d.selected, "tenor");
}

#[test]
fn finds_nearest_dropdown_ancestor() {
    // 0 (dropdown) -> 1 -> 2, with the walk starting at the option's parent
    let parent = vec![None, Some(0), Some(1)];
    let has_dropdown = vec![true, false, false];
    assert_eq!(find_dropdown_ancestor(&parent, &has_dropdown, 1), Some(0));
    assert_eq!(find_dropdown_ancestor(&parent, &has_dropdown, 2), Some(0));
    assert_eq!(find_dropdown_ancestor(&parent, &has_dropdown, 0), Some(0));
}

#[test]
fn reports_not_found_at_root() {
    let parent = vec![None, Some(0)];
    let has_dropdown = vec![false, false];
    assert_eq!(find_dropdown_ancestor(&parent, &has_dropdown, 1), None);
}

#[test]
fn walk_ends_on_cyclic_hierarchy() {
    let parent = vec![Some(1), Some(0)];
    let has_dropdown = vec![false, false];
    assert_eq!(find_dropdown_ancestor(&parent, &has_dropdown, 0), None);
}

#[test]
fn walk_ignores_start_outside_hierarchy() {
    let parent = vec![None];
    let has_dropdown = vec![true];
    assert_eq!(find_dropdown_ancestor(&parent, &has_dropdown, 5), None);
}

#[test]
fn open_dropdown_shows_options_container() {
    let d = Dropdown { is_open: true, selected: String::new() };
    let is_trigger = vec![true, false];
    let visible = vec![true, false];
    assert_eq!(update_dropdown_visibility(&d, &is_trigger, &visible), vec![true, true]);
}

#[test]
fn closed_dropdown_hides_options_container() {
    let d = Dropdown { is_open: false, selected: String::new() };
    let is_trigger = vec![true, false];
    let visible = vec![true, true];
    assert_eq!(update_dropdown_visibility(&d, &is_trigger, &visible), vec![true, false]);
}
