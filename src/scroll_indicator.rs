use vstd::prelude::*;
use crate::geometry::{Constraint, ContentId, Point, Rectangle, Thickness, Visibility};
use crate::property::{PropMap, TreeError, Value};
use crate::scrollbar::{axis_outcome, compute_axis, AxisOutcome};
use crate::tree::{
    as_constraint, as_content_id, as_point, as_rectangle, as_thickness, Entity, EntityTree,
    TreeView,
};

verus! {

/// One of the two scroll directions.
#[derive(Clone, Copy, Debug, PartialEq, Eq, Structural)]
pub enum Axis {
    Vertical,
    Horizontal,
}

/// What a scroll bar on `axis` shows, from the indicator's own bounds, the
/// content's bounds, the indicator's padding and scroll offset, and the scroll
/// bar's margin and constraint.
pub open spec fn outcome_on(
    axis: Axis,
    own: Rectangle,
    content: Rectangle,
    padding: Thickness,
    offset: Point,
    margin: Thickness,
    constraint: Constraint,
) -> AxisOutcome {
    match axis {
        Axis::Vertical => axis_outcome(
            own.height,
            content.height,
            padding.top,
            padding.bottom,
            margin.bottom,
            constraint.min_height,
            offset.y,
        ),
        Axis::Horizontal => axis_outcome(
            own.width,
            content.width,
            padding.left,
            padding.right,
            margin.right,
            constraint.min_width,
            offset.x,
        ),
    }
}

/// The extent of `r` along `axis`.
pub open spec fn extent(axis: Axis, r: Rectangle) -> u32 {
    match axis {
        Axis::Vertical => r.height,
        Axis::Horizontal => r.width,
    }
}

/// A scroll bar's bounds with the thumb's size and position set along `axis`;
/// the other fields are kept.
pub open spec fn placed(axis: Axis, b: Rectangle, size: u32, position: i32) -> Rectangle {
    match axis {
        Axis::Vertical => Rectangle { y: position, height: size, ..b },
        Axis::Horizontal => Rectangle { x: position, width: size, ..b },
    }
}

/// The property slots after the scroll bar `bar` on `axis` is updated.
pub open spec fn bar_update(
    t: TreeView,
    bar: u32,
    axis: Axis,
    own: Rectangle,
    content: Rectangle,
    padding: Thickness,
    offset: Point,
) -> Result<PropMap, TreeError> {
    if extent(axis, content) == 0 {
        Ok(t.props)
    } else if extent(axis, own) >= extent(axis, content) {
        t.set_prop(bar, "visibility"@, Value::Visibility(Visibility::Collapsed))
    } else {
        match t.set_prop(bar, "visibility"@, Value::Visibility(Visibility::Visible)) {
            Err(e) => Err(e),
            Ok(p1) => {
                let t1 = t.with_props(p1);
                match as_thickness(t1.prop(bar, "margin"@)) {
                    Err(e) => Err(e),
                    Ok(margin) => match as_constraint(t1.prop(bar, "constraint"@)) {
                        Err(e) => Err(e),
                        Ok(constraint) => match as_rectangle(t1.prop(bar, "bounds"@)) {
                            Err(e) => Err(e),
                            Ok(b) => match outcome_on(
                                axis,
                                own,
                                content,
                                padding,
                                offset,
                                margin,
                                constraint,
                            ) {
                                AxisOutcome::Shown { size, position } => t1.set_prop(
                                    bar,
                                    "bounds"@,
                                    Value::Rectangle(placed(axis, b, size, position)),
                                ),
                                _ => Ok(p1),
                            },
                        },
                    },
                }
            },
        }
    }
}

/// The property slots after both scroll bars of indicator `w` are updated, once
/// its inputs are read.
pub open spec fn bars_update(
    t: TreeView,
    w: u32,
    own: Rectangle,
    content: Rectangle,
    padding: Thickness,
    offset: Point,
) -> Result<PropMap, TreeError> {
    let first = match t.keyed_child(w, "vertical-scroll-bar"@) {
        None => Ok(t.props),
        Some(v) => bar_update(t, v, Axis::Vertical, own, content, padding, offset),
    };
    match first {
        Err(e) => Err(e),
        Ok(p1) => match t.keyed_child(w, "horizontal-scroll-bar"@) {
            None => Ok(p1),
            Some(h) => bar_update(t.with_props(p1), h, Axis::Horizontal, own, content, padding, offset),
        },
    }
}

/// The property slots after the post-layout update of indicator `w`. A content
/// id that no longer resolves leaves everything as it was.
pub open spec fn update_spec(t: TreeView, w: u32) -> Result<PropMap, TreeError> {
    match as_thickness(t.prop(w, "padding"@)) {
        Err(e) => Err(e),
        Ok(padding) => match as_point(t.prop(w, "scroll_offset"@)) {
            Err(e) => Err(e),
            Ok(offset) => match as_content_id(t.prop(w, "content_id"@)) {
                Err(e) => Err(e),
                Ok(cid) => if !t.live(cid.0) {
                    Ok(t.props)
                } else {
                    match as_rectangle(t.prop(cid.0, "bounds"@)) {
                        Err(e) => Err(e),
                        Ok(content) => match as_rectangle(t.prop(w, "bounds"@)) {
                            Err(e) => Err(e),
                            Ok(own) => bars_update(t, w, own, content, padding, offset),
                        },
                    }
                },
            },
        },
    }
}

/// Updates one scroll bar of an indicator.
fn update_bar(
    tree: &mut EntityTree,
    bar: Entity,
    axis: Axis,
    own: Rectangle,
    content: Rectangle,
    padding: Thickness,
    offset: Point,
) -> (r: Result<(), TreeError>)
    requires
        old(tree).wf(),
    ensures
        final(tree).wf(),
        final(tree)@.same_shape(old(tree)@),
        match bar_update(old(tree)@, bar.0, axis, own, content, padding, offset) {
            Ok(p) => r is Ok && final(tree)@.props == p,
            Err(e) => r == Err::<(), TreeError>(e),
        },
{
    let (own_extent, content_extent) = match axis {
        Axis::Vertical => (own.height, content.height),
        Axis::Horizontal => (own.width, content.width),
    };
    if content_extent == 0 {
        return Ok(());
    }
    if own_extent >= content_extent {
        return tree.set(bar, "visibility", Value::Visibility(Visibility::Collapsed));
    }
    tree.set(bar, "visibility", Value::Visibility(Visibility::Visible))?;
    let margin = tree.get_thickness(bar, "margin")?;
    let constraint = tree.get_constraint(bar, "constraint")?;
    let b = tree.get_rectangle(bar, "bounds")?;
    let outcome = match axis {
        Axis::Vertical => compute_axis(
            own.height,
            content.height,
            padding.top,
            padding.bottom,
            margin.bottom,
            constraint.min_height,
            offset.y,
        ),
        Axis::Horizontal => compute_axis(
            own.width,
            content.width,
            padding.left,
            padding.right,
            margin.right,
            constraint.min_width,
            offset.x,
        ),
    };
    match outcome {
        AxisOutcome::Shown { size, position } => {
            let placed_bounds = match axis {
                Axis::Vertical => Rectangle { y: position, height: size, ..b },
                Axis::Horizontal => Rectangle { x: position, width: size, ..b },
            };
            tree.set(bar, "bounds", Value::Rectangle(placed_bounds))
        },
        _ => Ok(()),
    }
}

/// The behaviour of a scroll indicator: after layout, it sizes, places, shows or
/// collapses its two scroll bars from its own bounds and those of its content.
#[derive(Clone, Copy, Debug, PartialEq, Eq, Structural)]
pub struct ScrollIndicatorState;

impl Default for ScrollIndicatorState {
    fn default() -> (r: ScrollIndicatorState)
        ensures
            r == ScrollIndicatorState,
    {
        ScrollIndicatorState
    }
}

impl ScrollIndicatorState {
    /// Recomputes the bounds and visibility of the scroll bars of `widget`.
    /// Only the property slots change; a missing or mistyped input is an error.
    pub fn update_post_layout(&self, tree: &mut EntityTree, widget: Entity) -> (r: Result<(), TreeError>)
        requires
            old(tree).wf(),
        ensures
            final(tree).wf(),
            final(tree)@.same_shape(old(tree)@),
            match update_spec(old(tree)@, widget.0) {
                Ok(p) => r is Ok && final(tree)@.props == p,
                Err(e) => r == Err::<(), TreeError>(e),
            },
    {
        let padding = match tree.get_thickness(widget, "padding") {
            Ok(x) => x,
            Err(e) => return Err(e),
        };
        let offset = match tree.get_point(widget, "scroll_offset") {
            Ok(x) => x,
            Err(e) => return Err(e),
        };
        let content_id = match tree.get_content_id(widget, "content_id") {
            Ok(x) => x,
            Err(e) => return Err(e),
        };
        let content = match tree.resolve(content_id.0) {
            Ok(c) => c,
            Err(_) => return Ok(()),
        };
        let content_bounds = match tree.get_rectangle(content, "bounds") {
            Ok(x) => x,
            Err(e) => return Err(e),
        };
        let bounds = match tree.get_rectangle(widget, "bounds") {
            Ok(x) => x,
            Err(e) => return Err(e),
        };
        let ghost t0 = tree@;
        if let Some(vertical) = tree.child_by_key(widget, "vertical-scroll-bar") {
            let r = update_bar(tree, vertical, Axis::Vertical, bounds, content_bounds, padding, offset);
            if r.is_err() {
                return r;
            }
        }
        assert(tree@ == t0.with_props(tree@.props));
        proof {
            t0.lemma_keyed_child_shape(tree@, widget.0, "horizontal-scroll-bar"@, 0);
        }
        if let Some(horizontal) = tree.child_by_key(widget, "horizontal-scroll-bar") {
            return update_bar(tree, horizontal, Axis::Horizontal, bounds, content_bounds, padding, offset);
        }
        Ok(())
    }
}

/// How a widget arranges its children.
#[derive(Clone, Copy, Debug, PartialEq, Eq, Structural)]
pub enum LayoutKind {
    /// The children fill the widget, less its padding.
    Padding,
    /// The children stand in rows and columns.
    Grid,
}

/// The size below which a thumb is not made, so that it stays grabbable.
pub const SCROLL_BAR_MIN_SIZE: u32 = 8;

/// The room each scroll bar leaves at its end for the other one.
pub const SCROLL_BAR_GAP: u32 = 6;

/// The cross-axis thickness of the horizontal scroll bar.
pub const SCROLL_BAR_THICKNESS: u32 = 4;

/// A widget that shows where its content is scrolled to, with a vertical and a
/// horizontal scroll bar.
#[derive(Clone, Copy, Debug, PartialEq, Eq, Structural)]
pub struct ScrollIndicator {
    pub scroll_offset: Point,
    pub padding: Thickness,
    pub content_id: ContentId,
}

pub open spec fn zero_rect() -> Rectangle {
    Rectangle { x: 0, y: 0, width: 0, height: 0 }
}

pub open spec fn vertical_bar_margin() -> Thickness {
    Thickness { left: 0, top: 0, right: 0, bottom: SCROLL_BAR_GAP }
}

pub open spec fn horizontal_bar_margin() -> Thickness {
    Thickness { left: 0, top: 0, right: SCROLL_BAR_GAP, bottom: 0 }
}

pub open spec fn vertical_bar_constraint() -> Constraint {
    Constraint { min_width: 0, min_height: SCROLL_BAR_MIN_SIZE, max_width: u32::MAX, max_height: u32::MAX }
}

pub open spec fn horizontal_bar_constraint() -> Constraint {
    Constraint { min_width: SCROLL_BAR_MIN_SIZE, min_height: 0, max_width: u32::MAX, max_height: u32::MAX }
}

impl ScrollIndicator {
    /// An indicator for the content `content_id`, unscrolled and without padding.
    pub fn new(content_id: ContentId) -> (r: ScrollIndicator)
        ensures
            r == (ScrollIndicator {
                scroll_offset: Point { x: 0, y: 0 },
                padding: Thickness { left: 0, top: 0, right: 0, bottom: 0 },
                content_id,
            }),
    {
        ScrollIndicator {
            scroll_offset: Point { x: 0, y: 0 },
            padding: Thickness::uniform(0),
            content_id,
        }
    }

    /// The same indicator, scrolled to `scroll_offset`.
    pub fn with_scroll_offset(self, scroll_offset: Point) -> (r: ScrollIndicator)
        ensures
            r == (ScrollIndicator { scroll_offset, ..self }),
    {
        ScrollIndicator { scroll_offset, ..self }
    }

    /// The same indicator, with `padding`.
    pub fn with_padding(self, padding: Thickness) -> (r: ScrollIndicator)
        ensures
            r == (ScrollIndicator { padding, ..self }),
    {
        ScrollIndicator { padding, ..self }
    }

    /// Builds the indicator into `tree` under `parent`: the indicator itself, a
    /// container for its content, and the two scroll bars, registered under the
    /// keys that the update looks up. All bounds start empty and every part visible.
    pub fn template(self, tree: &mut EntityTree, parent: Option<Entity>) -> (r: Result<Entity, TreeError>)
        requires
            old(tree).wf(),
            old(tree)@.alive.len() + 4 <= u32::MAX,
        ensures
            final(tree).wf(),
            match parent {
                Some(p) if !old(tree)@.live(p.0) => r == Err::<Entity, TreeError>(TreeError::NotFound)
                    && final(tree)@ == old(tree)@,
                _ => {
                    let n = old(tree)@.alive.len() as u32;
                    let t = final(tree)@;
                    &&& r == Ok::<Entity, TreeError>(Entity(n))
                    &&& t.alive.len() == n + 4
                    &&& t.live(n) && t.live((n + 1) as u32) && t.live((n + 2) as u32) && t.live((n + 3) as u32)
                    &&& t.parents[n as int] == (match parent {
                        Some(p) => Some(p.0),
                        None => None,
                    })
                    &&& t.parents[n + 1] == Some(n)
                    &&& t.keyed_child(n, "vertical-scroll-bar"@) == Some((n + 2) as u32)
                    &&& t.keyed_child(n, "horizontal-scroll-bar"@) == Some((n + 3) as u32)
                    &&& t.prop(n, "padding"@) == Ok::<Value, TreeError>(Value::Thickness(self.padding))
                    &&& t.prop(n, "scroll_offset"@) == Ok::<Value, TreeError>(Value::Point(self.scroll_offset))
                    &&& t.prop(n, "content_id"@) == Ok::<Value, TreeError>(Value::ContentId(self.content_id))
                    &&& t.prop(n, "bounds"@) == Ok::<Value, TreeError>(Value::Rectangle(zero_rect()))
                    &&& t.prop((n + 2) as u32, "margin"@) == Ok::<Value, TreeError>(Value::Thickness(vertical_bar_margin()))
                    &&& t.prop((n + 2) as u32, "constraint"@) == Ok::<Value, TreeError>(Value::Constraint(vertical_bar_constraint()))
                    &&& t.prop((n + 2) as u32, "bounds"@) == Ok::<Value, TreeError>(Value::Rectangle(zero_rect()))
                    &&& t.prop((n + 2) as u32, "visibility"@) == Ok::<Value, TreeError>(Value::Visibility(Visibility::Visible))
                    &&& t.prop((n + 3) as u32, "margin"@) == Ok::<Value, TreeError>(Value::Thickness(horizontal_bar_margin()))
                    &&& t.prop((n + 3) as u32, "constraint"@) == Ok::<Value, TreeError>(Value::Constraint(horizontal_bar_constraint()))
                    &&& t.prop((n + 3) as u32, "bounds"@) == Ok::<Value, TreeError>(Value::Rectangle(
                        Rectangle { x: 0, y: 0, width: 0, height: SCROLL_BAR_THICKNESS },
                    ))
                    &&& t.prop((n + 3) as u32, "visibility"@) == Ok::<Value, TreeError>(Value::Visibility(Visibility::Visible))
                    &&& forall|k: (u32, Seq<char>)| k.0 < n ==> (#[trigger] t.props.contains_key(k)
                        == old(tree)@.props.contains_key(k) && (t.props.contains_key(k) ==> t.props[k]
                        == old(tree)@.props[k]))
                },
            },
    {
        proof {
            tree.lemma_wf();
            lemma_template_names_distinct();
        }
        let ghost n = tree@.alive.len() as u32;
        let widget = match tree.create_entity(parent, None) {
            Ok(e) => e,
            Err(e) => return Err(e),
        };
        let container = match tree.create_entity(Some(widget), None) {
            Ok(e) => e,
            Err(e) => return Err(e),
        };
        let vertical = match tree.create_entity(Some(widget), Some("vertical-scroll-bar")) {
            Ok(e) => e,
            Err(e) => return Err(e),
        };
        let horizontal = match tree.create_entity(Some(widget), Some("horizontal-scroll-bar")) {
            Ok(e) => e,
            Err(e) => return Err(e),
        };
        let ghost shaped = tree@;
        let zero = Rectangle::new(0, 0, 0, 0);
        init_slots(tree, widget, "padding", Value::Thickness(self.padding), "scroll_offset",
            Value::Point(self.scroll_offset), "content_id", Value::ContentId(self.content_id), zero);
        let ghost after_widget = tree@;
        init_slots(tree, container, "margin", Value::Thickness(Thickness::uniform(0)), "constraint",
            Value::Constraint(Constraint::with_min(0, 0)), "padding", Value::Thickness(Thickness::uniform(0)), zero);
        let ghost after_container = tree@;
        init_slots(tree, vertical, "margin", Value::Thickness(Thickness::new(0, 0, 0, SCROLL_BAR_GAP)),
            "constraint", Value::Constraint(Constraint::with_min(0, SCROLL_BAR_MIN_SIZE)), "padding",
            Value::Thickness(Thickness::uniform(0)), zero);
        let ghost after_vertical = tree@;
        init_slots(tree, horizontal, "margin", Value::Thickness(Thickness::new(0, 0, SCROLL_BAR_GAP, 0)),
            "constraint", Value::Constraint(Constraint::with_min(SCROLL_BAR_MIN_SIZE, 0)), "padding",
            Value::Thickness(Thickness::uniform(0)), Rectangle::new(0, 0, 0, SCROLL_BAR_THICKNESS));
        proof {
            let t = tree@;
            t.lemma_keyed_child_shape(shaped, n, "vertical-scroll-bar"@, 0);
            t.lemma_keyed_child_shape(shaped, n, "horizontal-scroll-bar"@, 0);
            lemma_first_keyed_child(shaped, n, "vertical-scroll-bar"@, (n + 2) as u32, 0);
            lemma_first_keyed_child(shaped, n, "horizontal-scroll-bar"@, (n + 3) as u32, 0);
        }
        Ok(widget)
    }

    /// The layout that arranges the indicator's children.
    pub fn layout(&self) -> (r: LayoutKind)
        ensures
            r == LayoutKind::Padding,
    {
        LayoutKind::Padding
    }
}

/// Creates the first slots of a new entity `e`: three named values, `bounds`
/// and `visibility` (visible). Other entities' slots stay as they were.
fn init_slots(
    tree: &mut EntityTree,
    e: Entity,
    name_a: &str,
    a: Value,
    name_b: &str,
    b: Value,
    name_c: &str,
    c: Value,
    bounds: Rectangle,
)
    requires
        old(tree).wf(),
        old(tree)@.live(e.0),
        forall|n: Seq<char>| !(#[trigger] old(tree)@.props.contains_key((e.0, n))),
        name_a@ != name_b@,
        name_a@ != name_c@,
        name_b@ != name_c@,
        name_a@ != "bounds"@ && name_b@ != "bounds"@ && name_c@ != "bounds"@,
        name_a@ != "visibility"@ && name_b@ != "visibility"@ && name_c@ != "visibility"@,
        "bounds"@ != "visibility"@,
    ensures
        final(tree).wf(),
        final(tree)@.same_shape(old(tree)@),
        final(tree)@.prop(e.0, name_a@) == Ok::<Value, TreeError>(a),
        final(tree)@.prop(e.0, name_b@) == Ok::<Value, TreeError>(b),
        final(tree)@.prop(e.0, name_c@) == Ok::<Value, TreeError>(c),
        final(tree)@.prop(e.0, "bounds"@) == Ok::<Value, TreeError>(Value::Rectangle(bounds)),
        final(tree)@.prop(e.0, "visibility"@) == Ok::<Value, TreeError>(
            Value::Visibility(Visibility::Visible),
        ),
        forall|k: (u32, Seq<char>)| k.0 != e.0 ==> (#[trigger] final(tree)@.props.contains_key(k)
            == old(tree)@.props.contains_key(k) && (final(tree)@.props.contains_key(k)
            ==> final(tree)@.props[k] == old(tree)@.props[k])),
{
    let _ = tree.set(e, name_a, a);
    let _ = tree.set(e, name_b, b);
    let _ = tree.set(e, name_c, c);
    let _ = tree.set(e, "bounds", Value::Rectangle(bounds));
    let _ = tree.set(e, "visibility", Value::Visibility(Visibility::Visible));
}

proof fn lemma_template_names_distinct()
    ensures
        "padding"@ != "scroll_offset"@,
        "padding"@ != "content_id"@,
        "padding"@ != "bounds"@,
        "padding"@ != "visibility"@,
        "scroll_offset"@ != "content_id"@,
        "scroll_offset"@ != "bounds"@,
        "scroll_offset"@ != "visibility"@,
        "content_id"@ != "bounds"@,
        "content_id"@ != "visibility"@,
        "bounds"@ != "visibility"@,
        "margin"@ != "constraint"@,
        "margin"@ != "padding"@,
        "constraint"@ != "padding"@,
        "margin"@ != "bounds"@,
        "margin"@ != "visibility"@,
        "constraint"@ != "bounds"@,
        "constraint"@ != "visibility"@,
        "vertical-scroll-bar"@ != "horizontal-scroll-bar"@,
{
    reveal_strlit("padding");
    reveal_strlit("scroll_offset");
    reveal_strlit("content_id");
    reveal_strlit("bounds");
    reveal_strlit("visibility");
    reveal_strlit("margin");
    reveal_strlit("constraint");
    reveal_strlit("vertical-scroll-bar");
    reveal_strlit("horizontal-scroll-bar");
    assert("padding"@[0] != "scroll_offset"@[0]);
    assert("padding"@[0] != "content_id"@[0]);
    assert("padding"@[0] != "bounds"@[0]);
    assert("padding"@[0] != "visibility"@[0]);
    assert("scroll_offset"@[0] != "content_id"@[0]);
    assert("scroll_offset"@[0] != "bounds"@[0]);
    assert("scroll_offset"@[0] != "visibility"@[0]);
    assert("content_id"@[0] != "bounds"@[0]);
    assert("content_id"@[0] != "visibility"@[0]);
    assert("bounds"@[0] != "visibility"@[0]);
    assert("margin"@[0] != "constraint"@[0]);
    assert("margin"@[0] != "padding"@[0]);
    assert("constraint"@[0] != "padding"@[0]);
    assert("margin"@[0] != "bounds"@[0]);
    assert("margin"@[0] != "visibility"@[0]);
    assert("constraint"@[0] != "bounds"@[0]);
    assert("constraint"@[0] != "visibility"@[0]);
    assert("vertical-scroll-bar"@[0] != "horizontal-scroll-bar"@[0]);
}

/// Where `c` is a keyed child of `p` and no id from `i` up to it is, the lookup from
/// `i` on finds `c`.
proof fn lemma_first_keyed_child(t: TreeView, p: u32, key: Seq<char>, c: u32, i: int)
    requires
        0 <= i <= c,
        t.is_keyed_child(c as int, p, key),
        forall|j: int| i <= j < c ==> !t.is_keyed_child(j, p, key),
    ensures
        t.keyed_child_from(p, key, i) == Some(c),
    decreases c - i,
{
    if i < c {
        lemma_first_keyed_child(t, p, key, c, i + 1);
    }
}

/// The horizontal scroll bar's outcome reads only horizontal inputs (widths, x
/// offset, left and right padding, right margin, minimum width), and the vertical
/// one only vertical inputs: changing the inputs of one axis leaves the other
/// axis' outcome as it was.
pub proof fn lemma_axes_independent(
    own_a: Rectangle,
    content_a: Rectangle,
    padding_a: Thickness,
    offset_a: Point,
    margin_a: Thickness,
    constraint_a: Constraint,
    own_b: Rectangle,
    content_b: Rectangle,
    padding_b: Thickness,
    offset_b: Point,
    margin_b: Thickness,
    constraint_b: Constraint,
)
    ensures
        own_a.width == own_b.width && content_a.width == content_b.width && padding_a.left
            == padding_b.left && padding_a.right == padding_b.right && offset_a.x == offset_b.x
            && margin_a.right == margin_b.right && constraint_a.min_width == constraint_b.min_width
            ==> outcome_on(Axis::Horizontal, own_a, content_a, padding_a, offset_a, margin_a, constraint_a)
            == outcome_on(Axis::Horizontal, own_b, content_b, padding_b, offset_b, margin_b, constraint_b),
        own_a.height == own_b.height && content_a.height == content_b.height && padding_a.top
            == padding_b.top && padding_a.bottom == padding_b.bottom && offset_a.y == offset_b.y
            && margin_a.bottom == margin_b.bottom && constraint_a.min_height == constraint_b.min_height
            ==> outcome_on(Axis::Vertical, own_a, content_a, padding_a, offset_a, margin_a, constraint_a)
            == outcome_on(Axis::Vertical, own_b, content_b, padding_b, offset_b, margin_b, constraint_b),
{
}

/// Whether two stores hold the same slots of entity `e`.
pub open spec fn agree_on(a: PropMap, b: PropMap, e: u32) -> bool {
    forall|n: Seq<char>|
        #[trigger] a.contains_key((e, n)) == b.contains_key((e, n)) && (a.contains_key((e, n))
            ==> a[(e, n)] == b[(e, n)])
}

proof fn lemma_names_distinct()
    ensures
        "visibility"@ != "bounds"@,
        "visibility"@ != "margin"@,
        "visibility"@ != "constraint"@,
        "bounds"@ != "margin"@,
        "bounds"@ != "constraint"@,
        "vertical-scroll-bar"@ != "horizontal-scroll-bar"@,
{
    reveal_strlit("visibility");
    reveal_strlit("bounds");
    reveal_strlit("margin");
    reveal_strlit("constraint");
    reveal_strlit("vertical-scroll-bar");
    reveal_strlit("horizontal-scroll-bar");
    assert("visibility"@[0] != "bounds"@[0]);
    assert("visibility"@[0] != "margin"@[0]);
    assert("visibility"@[0] != "constraint"@[0]);
    assert("bounds"@[0] != "margin"@[0]);
    assert("bounds"@[0] != "constraint"@[0]);
    assert("vertical-scroll-bar"@[0] != "horizontal-scroll-bar"@[0]);
}

/// Updating one scroll bar changes the slots of that scroll bar only.
proof fn lemma_bar_update_frame(
    t: TreeView,
    bar: u32,
    axis: Axis,
    own: Rectangle,
    content: Rectangle,
    padding: Thickness,
    offset: Point,
    e: u32,
)
    requires
        bar_update(t, bar, axis, own, content, padding, offset) is Ok,
        e != bar,
    ensures
        agree_on(t.props, bar_update(t, bar, axis, own, content, padding, offset)->Ok_0, e),
{
}

/// A store that one update of a scroll bar produced is left as it is by a second.
proof fn lemma_bar_update_settles(
    t: TreeView,
    bar: u32,
    axis: Axis,
    own: Rectangle,
    content: Rectangle,
    padding: Thickness,
    offset: Point,
)
    requires
        bar_update(t, bar, axis, own, content, padding, offset) is Ok,
    ensures
        bar_update(
            t.with_props(bar_update(t, bar, axis, own, content, padding, offset)->Ok_0),
            bar,
            axis,
            own,
            content,
            padding,
            offset,
        ) == bar_update(t, bar, axis, own, content, padding, offset),
{
    lemma_names_distinct();
    let p = bar_update(t, bar, axis, own, content, padding, offset)->Ok_0;
    let t2 = t.with_props(p);
    if extent(axis, content) == 0 {
        assert(t2 == t);
    } else if extent(axis, own) >= extent(axis, content) {
        let k = (bar, "visibility"@);
        assert(p.insert(k, Value::Visibility(Visibility::Collapsed)) =~= p);
    } else {
        let vis = (bar, "visibility"@);
        let bk = (bar, "bounds"@);
        let p1 = t.props.insert(vis, Value::Visibility(Visibility::Visible));
        let t1 = t.with_props(p1);
        let b = as_rectangle(t1.prop(bar, "bounds"@))->Ok_0;
        let margin = as_thickness(t1.prop(bar, "margin"@))->Ok_0;
        let constraint = as_constraint(t1.prop(bar, "constraint"@))->Ok_0;
        let o = outcome_on(axis, own, content, padding, offset, margin, constraint);
        let size = o->size;
        let position = o->position;
        assert(p == p1.insert(bk, Value::Rectangle(placed(axis, b, size, position))));
        let q1 = p.insert(vis, Value::Visibility(Visibility::Visible));
        assert(q1 =~= p);
        assert(placed(axis, placed(axis, b, size, position), size, position) == placed(axis, b, size, position));
        assert(p.insert(bk, Value::Rectangle(placed(axis, b, size, position))) =~= p);
    }
}

/// A scroll bar whose slots are settled stays settled when other entities' slots change.
proof fn lemma_bar_update_settled_elsewhere(
    t: TreeView,
    m: PropMap,
    m2: PropMap,
    bar: u32,
    axis: Axis,
    own: Rectangle,
    content: Rectangle,
    padding: Thickness,
    offset: Point,
)
    requires
        bar_update(t.with_props(m), bar, axis, own, content, padding, offset) == Ok::<PropMap, TreeError>(m),
        agree_on(m, m2, bar),
    ensures
        bar_update(t.with_props(m2), bar, axis, own, content, padding, offset) == Ok::<PropMap, TreeError>(m2),
{
    lemma_names_distinct();
    let vis = (bar, "visibility"@);
    let bk = (bar, "bounds"@);
    assert(m.contains_key(vis) == m2.contains_key(vis));
    assert(m.contains_key(bk) == m2.contains_key(bk));
    assert(m.contains_key((bar, "margin"@)) == m2.contains_key((bar, "margin"@)));
    assert(m.contains_key((bar, "constraint"@)) == m2.contains_key((bar, "constraint"@)));
    if extent(axis, content) == 0 {
    } else if extent(axis, own) >= extent(axis, content) {
        assert(m.insert(vis, Value::Visibility(Visibility::Collapsed)).contains_key(vis));
        assert(m2.insert(vis, Value::Visibility(Visibility::Collapsed)) =~= m2);
    } else {
        let p1 = m.insert(vis, Value::Visibility(Visibility::Visible));
        let t1 = t.with_props(p1);
        let b = as_rectangle(t1.prop(bar, "bounds"@))->Ok_0;
        let margin = as_thickness(t1.prop(bar, "margin"@))->Ok_0;
        let constraint = as_constraint(t1.prop(bar, "constraint"@))->Ok_0;
        let o = outcome_on(axis, own, content, padding, offset, margin, constraint);
        let r = Value::Rectangle(placed(axis, b, o->size, o->position));
        assert(p1.insert(bk, r) == m);
        assert(m.contains_key(vis) && m[vis] == Value::Visibility(Visibility::Visible)) by {
            assert(p1.insert(bk, r)[vis] == p1[vis]);
        }
        assert(m.contains_key(bk) && m[bk] == r) by {
            assert(p1.insert(bk, r)[bk] == r);
        }
        let q1 = m2.insert(vis, Value::Visibility(Visibility::Visible));
        assert(q1 =~= m2);
        assert(m2.insert(bk, r) =~= m2);
    }
}

/// Running the post-layout update a second time, with nothing else changed,
/// leaves every property as the first run left it. This needs the content id not
/// to name one of the indicator's own scroll bars, which the update writes.
pub proof fn lemma_update_idempotent(t: TreeView, w: u32)
    requires
        t.consistent(),
        update_spec(t, w) is Ok,
        as_content_id(t.prop(w, "content_id"@)) matches Ok(cid) ==> t.keyed_child(
            w,
            "vertical-scroll-bar"@,
        ) != Some(cid.0) && t.keyed_child(w, "horizontal-scroll-bar"@) != Some(cid.0),
    ensures
        update_spec(t.with_props(update_spec(t, w)->Ok_0), w) == update_spec(t, w),
{
    lemma_names_distinct();
    let p = update_spec(t, w)->Ok_0;
    let t2 = t.with_props(p);
    let padding = as_thickness(t.prop(w, "padding"@))->Ok_0;
    let offset = as_point(t.prop(w, "scroll_offset"@))->Ok_0;
    let cid = as_content_id(t.prop(w, "content_id"@))->Ok_0;
    if !t.live(cid.0) {
        assert(t2 == t);
        return;
    }
    let content = as_rectangle(t.prop(cid.0, "bounds"@))->Ok_0;
    let own = as_rectangle(t.prop(w, "bounds"@))->Ok_0;
    let vk = "vertical-scroll-bar"@;
    let hk = "horizontal-scroll-bar"@;
    t.lemma_keyed_child_is_child(w, vk, 0);
    t.lemma_keyed_child_is_child(w, hk, 0);
    t.lemma_keyed_child_shape(t2, w, vk, 0);
    t.lemma_keyed_child_shape(t2, w, hk, 0);
    let p1 = match t.keyed_child(w, vk) {
        None => t.props,
        Some(v) => bar_update(t, v, Axis::Vertical, own, content, padding, offset)->Ok_0,
    };
    let t1 = t.with_props(p1);
    t.lemma_keyed_child_shape(t1, w, hk, 0);
    // The widget and the content are not written: their inputs read the same.
    assert(agree_on(t.props, p, w) && agree_on(t.props, p, cid.0)) by {
        if let Some(v) = t.keyed_child(w, vk) {
            assert(t.parents[v as int] == Some(w));
            lemma_bar_update_frame(t, v, Axis::Vertical, own, content, padding, offset, w);
            lemma_bar_update_frame(t, v, Axis::Vertical, own, content, padding, offset, cid.0);
        }
        if let Some(h) = t.keyed_child(w, hk) {
            assert(t.parents[h as int] == Some(w));
            lemma_bar_update_frame(t1, h, Axis::Horizontal, own, content, padding, offset, w);
            lemma_bar_update_frame(t1, h, Axis::Horizontal, own, content, padding, offset, cid.0);
        }
    }
    assert(t.props.contains_key((w, "padding"@)));
    assert(t.props.contains_key((w, "scroll_offset"@)));
    assert(t.props.contains_key((w, "content_id"@)));
    assert(t.props.contains_key((w, "bounds"@)));
    assert(t.props.contains_key((cid.0, "bounds"@)));
    // Each scroll bar is settled by its first update and stays so.
    if let Some(v) = t.keyed_child(w, vk) {
        lemma_bar_update_settles(t, v, Axis::Vertical, own, content, padding, offset);
        assert(t.with_props(p1).with_props(p1) == t1);
        if let Some(h) = t.keyed_child(w, hk) {
            lemma_bar_update_frame(t1, h, Axis::Horizontal, own, content, padding, offset, v);
            lemma_bar_update_settled_elsewhere(t, p1, p, v, Axis::Vertical, own, content, padding, offset);
        } else {
            assert(p == p1);
        }
    }
    if let Some(h) = t.keyed_child(w, hk) {
        lemma_bar_update_settles(t1, h, Axis::Horizontal, own, content, padding, offset);
        assert(t1.with_props(p) == t2);
        assert(t2.with_props(p) == t2);
    }
}

} // verus!
