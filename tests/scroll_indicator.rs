use widgets::geometry::{Constraint, ContentId, Point, Rectangle, Thickness, Visibility};
use widgets::property::{TreeError, Value};
use widgets::scroll_indicator::{LayoutKind, ScrollIndicator, ScrollIndicatorState};
use widgets::scrollbar::{compute_axis, AxisOutcome};
use widgets::tree::{Entity, EntityTree};

struct Built {
    tree: EntityTree,
    widget: Entity,
    content: Entity,
    vertical: Entity,
    horizontal: Entity,
}

/// An indicator laid out at `own`, over content laid out at `content`.
fn build(own: Rectangle, content: Rectangle, offset: Point) -> Built {
    let mut tree = EntityTree::new();
    let root = tree.create_entity(None, None).unwrap();
    let content_entity = tree.create_entity(Some(root), None).unwrap();
    tree.set(content_entity, "bounds", Value::Rectangle(content)).unwrap();
    let indicator = ScrollIndicator::new(ContentId(content_entity.0)).with_scroll_offset(offset);
    let widget = indicator.template(&mut tree, Some(root)).unwrap();
    tree.set(widget, "bounds", Value::Rectangle(own)).unwrap();
    let vertical = tree.child_by_key(widget, "vertical-scroll-bar").unwrap();
    let horizontal = tree.child_by_key(widget, "horizontal-scroll-bar").unwrap();
    Built { tree, widget, content: content_entity, vertical, horizontal }
}

fn scenario_a() -> Built {
    build(Rectangle::new(0, 0, 100, 200), Rectangle::new(0, 0, 100, 400), Point::new(0, 0))
}

#[test]
fn scenario_a_vertical_bar_shown_and_sized() {
    let mut b = scenario_a();
    ScrollIndicatorState.update_post_layout(&mut b.tree, b.widget).unwrap();
    assert_eq!(b.tree.get_visibility(b.vertical, "visibility"), Ok(Visibility::Visible));
    let r = b.tree.get_rectangle(b.vertical, "bounds").unwrap();
    assert_eq!(r.height, 97);
    assert_eq!(r.y, 0);
    // the horizontal extent fits exactly: fraction 1.0 collapses
    assert_eq!(b.tree.get_visibility(b.horizontal, "visibility"), Ok(Visibility::Collapsed));
}

#[test]
fn scenario_b_content_fits_collapses() {
    let mut b = build(Rectangle::new(0, 0, 100, 200), Rectangle::new(0, 0, 100, 150), Point::new(0, 0));
    ScrollIndicatorState.update_post_layout(&mut b.tree, b.widget).unwrap();
    assert_eq!(b.tree.get_visibility(b.vertical, "visibility"), Ok(Visibility::Collapsed));
}

#[test]
fn scenario_c_offset_moves_thumb() {
    let mut b = build(Rectangle::new(0, 0, 100, 200), Rectangle::new(0, 0, 100, 400), Point::new(0, 50));
    ScrollIndicatorState.update_post_layout(&mut b.tree, b.widget).unwrap();
    let r = b.tree.get_rectangle(b.vertical, "bounds").unwrap();
    assert_eq!(r.y, -25);
    assert_eq!(r.height, 97);
}

#[test]
fn scenario_d_removed_content_leaves_bars_alone() {
    let mut b = scenario_a();
    let before_v = b.tree.get_rectangle(b.vertical, "bounds").unwrap();
    let before_vis = b.tree.get_visibility(b.vertical, "visibility").unwrap();
    b.tree.remove_entity(b.content).unwrap();
    assert_eq!(ScrollIndicatorState.update_post_layout(&mut b.tree, b.widget), Ok(()));
    assert_eq!(b.tree.get_rectangle(b.vertical, "bounds").unwrap(), before_v);
    assert_eq!(b.tree.get_visibility(b.vertical, "visibility").unwrap(), before_vis);
    assert_eq!(b.tree.resolve(b.content.0), Err(TreeError::DanglingReference));
}

#[test]
fn horizontal_bar_shown_when_content_wider() {
    let mut b = build(Rectangle::new(0, 0, 100, 200), Rectangle::new(0, 0, 400, 100), Point::new(-80, 0));
    ScrollIndicatorState.update_post_layout(&mut b.tree, b.widget).unwrap();
    assert_eq!(b.tree.get_visibility(b.horizontal, "visibility"), Ok(Visibility::Visible));
    let r = b.tree.get_rectangle(b.horizontal, "bounds").unwrap();
    // (100 - 6) * 100 / 400 = 23.5, rounded toward zero
    assert_eq!(r.width, 23);
    assert_eq!(r.x, 20);
    assert_eq!(r.height, 4);
    assert_eq!(b.tree.get_visibility(b.vertical, "visibility"), Ok(Visibility::Collapsed));
}

#[test]
fn collapse_iff_fraction_at_least_one() {
    assert_eq!(compute_axis(200, 400, 0, 0, 6, 8, 0), AxisOutcome::Shown { size: 97, position: 0 });
    assert_eq!(compute_axis(400, 400, 0, 0, 6, 8, 0), AxisOutcome::Collapsed);
    assert_eq!(compute_axis(401, 400, 0, 0, 6, 8, 0), AxisOutcome::Collapsed);
    assert!(matches!(compute_axis(399, 400, 0, 0, 6, 8, 0), AxisOutcome::Shown { .. }));
}

#[test]
fn thumb_never_below_minimum() {
    // (100 - 6) * 100 / 100000 = 0, floored to the minimum
    assert_eq!(compute_axis(100, 100_000, 0, 0, 6, 8, 0), AxisOutcome::Shown { size: 8, position: 0 });
    // padding eats the whole track
    assert_eq!(compute_axis(10, 20, 50, 50, 6, 8, 0), AxisOutcome::Shown { size: 8, position: 0 });
    // padding narrows the track: (200 - 10 - 20 - 6) * 200 / 400 = 82
    assert_eq!(compute_axis(200, 400, 10, 20, 6, 8, 0), AxisOutcome::Shown { size: 82, position: 0 });
}

#[test]
fn thumb_position_scales_offset() {
    assert_eq!(compute_axis(200, 400, 0, 0, 6, 8, 50), AxisOutcome::Shown { size: 97, position: -25 });
    assert_eq!(compute_axis(200, 400, 0, 0, 6, 8, -51), AxisOutcome::Shown { size: 97, position: 25 });
    assert_eq!(compute_axis(1, 3, 0, 0, 0, 0, 0), AxisOutcome::Shown { size: 0, position: 0 });
    assert_eq!(
        compute_axis(u32::MAX - 1, u32::MAX, 0, 0, 0, 0, i32::MIN),
        AxisOutcome::Shown { size: u32::MAX - 2, position: i32::MAX }
    );
}

#[test]
fn unmeasured_content_is_skipped() {
    assert_eq!(compute_axis(200, 0, 0, 0, 6, 8, 0), AxisOutcome::Unmeasured);
    let mut b = build(Rectangle::new(0, 0, 100, 200), Rectangle::new(0, 0, 0, 0), Point::new(0, 0));
    ScrollIndicatorState.update_post_layout(&mut b.tree, b.widget).unwrap();
    assert_eq!(b.tree.get_visibility(b.vertical, "visibility"), Ok(Visibility::Visible));
    assert_eq!(b.tree.get_rectangle(b.vertical, "bounds"), Ok(Rectangle::new(0, 0, 0, 0)));
}

#[test]
fn axes_are_independent() {
    let mut a = build(Rectangle::new(0, 0, 100, 200), Rectangle::new(0, 0, 300, 400), Point::new(-10, 0));
    let mut b = build(Rectangle::new(0, 0, 100, 900), Rectangle::new(0, 0, 300, 1000), Point::new(-10, 70));
    ScrollIndicatorState.update_post_layout(&mut a.tree, a.widget).unwrap();
    ScrollIndicatorState.update_post_layout(&mut b.tree, b.widget).unwrap();
    assert_eq!(
        a.tree.get_rectangle(a.horizontal, "bounds"),
        b.tree.get_rectangle(b.horizontal, "bounds")
    );
    assert_eq!(
        a.tree.get_visibility(a.horizontal, "visibility"),
        b.tree.get_visibility(b.horizontal, "visibility")
    );
    assert_ne!(a.tree.get_rectangle(a.vertical, "bounds"), b.tree.get_rectangle(b.vertical, "bounds"));
}

#[test]
fn update_twice_is_update_once() {
    let mut b = build(Rectangle::new(0, 0, 150, 200), Rectangle::new(0, 0, 600, 400), Point::new(-30, -40));
    ScrollIndicatorState.update_post_layout(&mut b.tree, b.widget).unwrap();
    let v1 = b.tree.get_rectangle(b.vertical, "bounds").unwrap();
    let h1 = b.tree.get_rectangle(b.horizontal, "bounds").unwrap();
    ScrollIndicatorState.update_post_layout(&mut b.tree, b.widget).unwrap();
    assert_eq!(b.tree.get_rectangle(b.vertical, "bounds").unwrap(), v1);
    assert_eq!(b.tree.get_rectangle(b.horizontal, "bounds").unwrap(), h1);
    assert_eq!(v1, Rectangle::new(0, 20, 0, 97));
    assert_eq!(h1, Rectangle::new(7, 0, 36, 4));
}

#[test]
fn missing_input_is_not_found() {
    let mut tree = EntityTree::new();
    let w = tree.create_entity(None, None).unwrap();
    tree.set(w, "padding", Value::Thickness(Thickness::uniform(0))).unwrap();
    assert_eq!(ScrollIndicatorState.update_post_layout(&mut tree, w), Err(TreeError::NotFound));
}

#[test]
fn mistyped_input_is_type_mismatch() {
    let mut b = scenario_a();
    b.tree.remove_entity(b.content).unwrap();
    let mut tree = EntityTree::new();
    let w = tree.create_entity(None, None).unwrap();
    tree.set(w, "padding", Value::Point(Point::new(0, 0))).unwrap();
    assert_eq!(ScrollIndicatorState.update_post_layout(&mut tree, w), Err(TreeError::TypeMismatch));
    assert_eq!(
        tree.set(w, "padding", Value::Thickness(Thickness::uniform(1))),
        Err(TreeError::TypeMismatch)
    );
    assert_eq!(tree.get_thickness(w, "padding"), Err(TreeError::TypeMismatch));
    assert_eq!(tree.get_point(w, "padding"), Ok(Point::new(0, 0)));
}

#[test]
fn template_builds_keyed_scroll_bars() {
    let mut tree = EntityTree::new();
    let w = ScrollIndicator::new(ContentId(7)).template(&mut tree, None).unwrap();
    assert_eq!(w, Entity(0));
    assert_eq!(tree.len(), 4);
    assert_eq!(tree.children_of(w), vec![Entity(1), Entity(2), Entity(3)]);
    assert_eq!(tree.child_by_key(w, "vertical-scroll-bar"), Some(Entity(2)));
    assert_eq!(tree.child_by_key(w, "horizontal-scroll-bar"), Some(Entity(3)));
    assert_eq!(tree.child_by_key(w, "other"), None);
    assert_eq!(tree.get_content_id(w, "content_id"), Ok(ContentId(7)));
    assert_eq!(tree.get_thickness(Entity(2), "margin"), Ok(Thickness::new(0, 0, 0, 6)));
    assert_eq!(tree.get_constraint(Entity(2), "constraint"), Ok(Constraint::with_min(0, 8)));
    assert_eq!(tree.get_thickness(Entity(3), "margin"), Ok(Thickness::new(0, 0, 6, 0)));
    assert_eq!(tree.get_constraint(Entity(3), "constraint"), Ok(Constraint::with_min(8, 0)));
    assert_eq!(ScrollIndicator::new(ContentId(7)).layout(), LayoutKind::Padding);
}

#[test]
fn template_under_removed_parent_fails() {
    let mut tree = EntityTree::new();
    let p = tree.create_entity(None, None).unwrap();
    tree.remove_entity(p).unwrap();
    assert_eq!(ScrollIndicator::new(ContentId(0)).template(&mut tree, Some(p)), Err(TreeError::NotFound));
    assert_eq!(tree.len(), 1);
}

#[test]
fn removed_entities_are_not_found() {
    let mut tree = EntityTree::new();
    let p = tree.create_entity(None, None).unwrap();
    let c = tree.create_entity(Some(p), Some("k")).unwrap();
    tree.set(c, "bounds", Value::Rectangle(Rectangle::new(1, 2, 3, 4))).unwrap();
    assert_eq!(tree.child_by_key(p, "k"), Some(c));
    tree.remove_entity(c).unwrap();
    assert_eq!(tree.child_by_key(p, "k"), None);
    assert_eq!(tree.children_of(p), vec![]);
    assert_eq!(tree.get(c, "bounds"), Err(TreeError::NotFound));
    assert_eq!(tree.remove_entity(c), Err(TreeError::NotFound));
    assert!(!tree.is_alive(c));
    assert_eq!(tree.resolve(p.0), Ok(p));
}

#[test]
fn state_is_default_constructible() {
    assert_eq!(ScrollIndicatorState::default(), ScrollIndicatorState);
}
