//! The dropdown widget: open/closed state, option selection, and the
//! hierarchy walk that finds the dropdown an option belongs to.
//!
//! The host dispatches clicks on the trigger button and on the options; the
//! decisions those clicks force are made here. An option click walks up the
//! entity hierarchy — explicit parent back-references, a bounded loop, an
//! explicit not-found outcome — to the owning dropdown, selects the
//! option's value on it and closes it. A trigger click toggles the dropdown
//! open or closed, and the options container is shown exactly while the
//! dropdown is open.

use vstd::prelude::*;
use crate::scroll::ScrollProps;
use crate::style::{AlignItems, FlexDirection, Overflow, OverflowAxis, Val};

verus! {

/// State of one dropdown.
#[derive(Clone, Debug, PartialEq, Eq)]
pub struct Dropdown {
    /// Whether the dropdown is currently open.
    pub is_open: bool,
    /// Currently selected value.
    pub selected: String,
}

impl Default for Dropdown {
    /// A closed dropdown with nothing selected.
    fn default() -> (d: Dropdown)
        ensures
            !d.is_open,
            d.selected@ == Seq::<char>::empty(),
    {
        Dropdown { is_open: false, selected: String::new() }
    }
}

impl Dropdown {
    /// The trigger-click decision: flip the dropdown open or closed; the
    /// selection is untouched.
    pub fn toggle(&mut self)
        ensures
            final(self).is_open == !old(self).is_open,
            final(self).selected == old(self).selected,
    {
        self.is_open = !self.is_open;
    }

    /// The option-click decision on the owning dropdown: take over the
    /// option's value as the selection and close the dropdown.
    pub fn select(&mut self, value: &str)
        ensures
            !final(self).is_open,
            final(self).selected@ == value@,
    {
        self.selected = value.to_owned();
        self.is_open = false;
    }
}

/// Marker for the trigger button of a dropdown.
#[derive(Clone, Copy, Debug, Default, PartialEq, Eq, Structural)]
pub struct DropdownTrigger;

/// Marker for the text inside the dropdown trigger.
#[derive(Clone, Copy, Debug, Default, PartialEq, Eq, Structural)]
pub struct DropdownTriggerText;

/// Marker for the options container, the list that appears while the
/// dropdown is open.
#[derive(Clone, Copy, Debug, Default, PartialEq, Eq, Structural)]
pub struct DropdownOptions;

/// One selectable dropdown option.
#[derive(Clone, Debug, PartialEq, Eq)]
pub struct DropdownOption {
    /// The value of this option.
    pub value: String,
}

/// Construction properties for the dropdown template.
#[derive(Clone, Debug, PartialEq, Eq)]
pub struct DropdownProps {
    /// Width of the dropdown.
    pub width: Val,
    /// Greatest height of the options list.
    pub max_height: Val,
    /// Initially selected value; nothing selected when absent.
    pub initial_value: Option<String>,
}

impl Default for DropdownProps {
    /// A dropdown of fixed default width and options-list height, with
    /// nothing selected.
    fn default() -> (props: DropdownProps)
        ensures
            props.width == Val::Px(200),
            props.max_height == Val::Px(300),
            props.initial_value is None,
    {
        DropdownProps { width: Val::Px(200), max_height: Val::Px(300), initial_value: None }
    }
}

/// The dropdown template's computed state: the dropdown itself — closed,
/// with the initial value selected when one is given — and the text shown
/// on the trigger button, which is the initial value or a placeholder.
pub fn dropdown(props: &DropdownProps) -> (r: (Dropdown, String))
    ensures
        !r.0.is_open,
        props.initial_value matches Some(v) ==> r.0.selected@ == v@ && r.1@ == v@,
        props.initial_value is None ==> r.0.selected@ == Seq::<char>::empty() && r.1@
            == "Select..."@,
{
    match &props.initial_value {
        Some(v) => (Dropdown { is_open: false, selected: v.clone() }, v.clone()),
        None => (
            Dropdown { is_open: false, selected: String::new() },
            "Select...".to_owned(),
        ),
    }
}

/// The construction properties of the list inside a dropdown's options
/// container: a vertical scroll container filling the dropdown's width,
/// capped at the dropdown's configured options-list height. The options
/// container itself starts hidden — a fresh dropdown is closed, and
/// [`update_dropdown_visibility`] shows the container exactly while the
/// dropdown is open.
pub fn options_scroll_props(props: &DropdownProps) -> (sp: ScrollProps)
    ensures
        sp.width == Val::Percent(100),
        sp.height == props.max_height,
        sp.overflow.x is Visible && sp.overflow.y is Scroll,
        sp.flex_direction is Column,
        sp.show_scrollbars,
        sp.align_items is Stretch,
{
    ScrollProps {
        width: Val::Percent(100),
        height: props.max_height,
        overflow: Overflow { x: OverflowAxis::Visible, y: OverflowAxis::Scroll },
        flex_direction: FlexDirection::Column,
        show_scrollbars: true,
        align_items: AlignItems::Stretch,
    }
}

/// The dropdown-option template's computed state: an option carrying the
/// given value.
pub fn dropdown_option(value: &str) -> (o: DropdownOption)
    ensures
        o.value@ == value@,
{
    DropdownOption { value: value.to_owned() }
}

/// The node the hierarchy walk ends on: starting at `node`, the nearest
/// node holding a dropdown among `node` and the ancestors reachable within
/// `fuel` parent steps; nothing when the walk leaves the hierarchy, meets a
/// root, or runs out of fuel first.
pub open spec fn spec_find_dropdown_ancestor(
    parent: Seq<Option<usize>>,
    has_dropdown: Seq<bool>,
    node: usize,
    fuel: nat,
) -> Option<usize>
    decreases fuel,
{
    if node >= parent.len() {
        None
    } else if has_dropdown[node as int] {
        Some(node)
    } else if fuel == 0 {
        None
    } else {
        match parent[node as int] {
            Some(p) => spec_find_dropdown_ancestor(parent, has_dropdown, p, (fuel - 1) as nat),
            None => None,
        }
    }
}

/// Walks up the hierarchy from `start` to the nearest node holding a
/// dropdown. `parent` maps each node to its parent, if it has one;
/// `has_dropdown` says which nodes hold a dropdown. The walk is bounded by
/// the hierarchy's size, so it ends even on corrupt, cyclic parent links,
/// and reports not-found explicitly.
pub fn find_dropdown_ancestor(
    parent: &Vec<Option<usize>>,
    has_dropdown: &Vec<bool>,
    start: usize,
) -> (r: Option<usize>)
    requires
        parent@.len() == has_dropdown@.len(),
        forall|i: int|
            0 <= i < parent@.len() ==> ((#[trigger] parent@[i]) matches Some(p) ==> p
                < parent@.len()),
    ensures
        r == spec_find_dropdown_ancestor(parent@, has_dropdown@, start, parent@.len() as nat),
        r matches Some(d) ==> d < has_dropdown@.len() && has_dropdown@[d as int],
{
    let n = parent.len();
    let mut node = start;
    let mut fuel = n;
    loop
        invariant
            n == parent@.len(),
            parent@.len() == has_dropdown@.len(),
            forall|i: int|
                0 <= i < parent@.len() ==> ((#[trigger] parent@[i]) matches Some(p) ==> p
                    < parent@.len()),
            fuel <= n,
            spec_find_dropdown_ancestor(parent@, has_dropdown@, start, n as nat)
                == spec_find_dropdown_ancestor(parent@, has_dropdown@, node, fuel as nat),
        decreases fuel,
    {
        if node >= n {
            return None;
        }
        if has_dropdown[node] {
            return Some(node);
        }
        if fuel == 0 {
            return None;
        }
        match parent[node] {
            Some(p) => {
                node = p;
                fuel = fuel - 1;
            },
            None => {
                return None;
            },
        }
    }
}

/// The visibility pass over one dropdown's children: every child that is
/// not the trigger is the options container and is shown exactly while the
/// dropdown is open; the trigger's visibility is left alone. Returns the
/// children's new visibility.
pub fn update_dropdown_visibility(
    dropdown: &Dropdown,
    is_trigger: &Vec<bool>,
    visible: &Vec<bool>,
) -> (r: Vec<bool>)
    requires
        is_trigger@.len() == visible@.len(),
    ensures
        r@.len() == visible@.len(),
        forall|i: int|
            0 <= i < r@.len() ==> r@[i] == if is_trigger@[i] {
                visible@[i]
            } else {
                dropdown.is_open
            },
{
    let mut r: Vec<bool> = Vec::new();
    let mut i: usize = 0;
    while i < visible.len()
        invariant
            is_trigger@.len() == visible@.len(),
            i <= visible@.len(),
            r@.len() == i as int,
            forall|j: int|
                0 <= j < i as int ==> r@[j] == if is_trigger@[j] {
                    visible@[j]
                } else {
                    dropdown.is_open
                },
        decreases visible@.len() - i as int,
    {
        if is_trigger[i] {
            r.push(visible[i]);
        } else {
            r.push(dropdown.is_open);
        }
        i = i + 1;
    }
    r
}

/// Groups the dropdown passes the host runs each frame.
#[derive(Clone, Copy, Debug, PartialEq, Eq, Structural)]
pub struct DropdownPlugin;

} // verus!
