//! Screen geometry of the tray icon and the panel, in whole physical pixels.
use vstd::prelude::*;

verus! {

/// The bounding rectangle of the tray icon on screen.
#[derive(Clone, Copy, Debug, PartialEq, Eq, Structural)]
pub struct IconRect {
    pub left: i32,
    pub right: i32,
    pub top: i32,
    pub bottom: i32,
}

/// A point on screen, such as the anchor of a click on the icon.
#[derive(Clone, Copy, Debug, PartialEq, Eq, Structural)]
pub struct Point {
    pub x: i32,
    pub y: i32,
}

/// A position of the panel's top-left corner; it may lie off screen by up to
/// half the panel's width.
#[derive(Clone, Copy, Debug, PartialEq, Eq, Structural)]
pub struct Position {
    pub x: i64,
    pub y: i64,
}

/// The horizontal midpoint of `left..right`, rounded toward negative infinity.
pub open spec fn midpoint(left: int, right: int) -> int {
    left + (right - left) / 2
}

/// Where a click on the icon anchors the panel: the midpoint of the icon's
/// bottom edge.
pub open spec fn anchor_of(r: IconRect) -> (int, int) {
    (midpoint(r.left as int, r.right as int), r.bottom as int)
}

/// The panel's top-left corner for an anchor point and a panel width: centred
/// horizontally on the point, its top edge on the point.
pub open spec fn origin_of(x: int, y: int, width: int) -> (int, int) {
    (x - width / 2, y)
}

pub open spec fn point_is(p: Point, v: (int, int)) -> bool {
    p.x as int == v.0 && p.y as int == v.1
}

pub open spec fn position_is(o: Position, v: (int, int)) -> bool {
    o.x as int == v.0 && o.y as int == v.1
}

/// The anchor point of a click on the icon whose bounding rectangle is `r`.
pub fn anchor_point(r: &IconRect) -> (p: Point)
    ensures
        point_is(p, anchor_of(*r)),
{
    let left = r.left as i64;
    let d: i64 = r.right as i64 - left;
    let half: i64 = if d >= 0 {
        d / 2
    } else {
        -((-d + 1) / 2)
    };
    let x: i64 = left + half;
    assert(x == midpoint(r.left as int, r.right as int));
    Point { x: x as i32, y: r.bottom }
}

/// The panel's new top-left corner for anchor point `p` and panel width
/// `width`.
pub fn panel_origin(p: Point, width: u32) -> (o: Position)
    ensures
        position_is(o, origin_of(p.x as int, p.y as int, width as int)),
{
    Position { x: p.x as i64 - (width / 2) as i64, y: p.y as i64 }
}

} // verus!
