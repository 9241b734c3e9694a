//! Window geometry in physical pixels: the corner inset and the test that
//! keeps a window open while the pointer is still on or near it.

use vstd::prelude::*;

verus! {

/// Pixels by which an anchored window is moved left of the corner.
pub const ANCHOR_INSET_X: i32 = 16;

/// Pixels by which an anchored window is moved up from the corner, so that it
/// clears a taskbar or dock.
pub const ANCHOR_INSET_Y: i32 = 48;

/// Width of the band around the window in which the pointer still counts as
/// being over it.
pub const HOVER_BUFFER: i32 = 50;

#[derive(Clone, Copy, Debug, PartialEq, Eq)]
pub struct Point {
    pub x: i32,
    pub y: i32,
}

#[derive(Clone, Copy, Debug, PartialEq, Eq)]
pub struct Extent {
    pub width: u32,
    pub height: u32,
}

/// What the host read when the window lost focus: where the pointer is, and
/// where the window's top-left corner and how large the window is.
#[derive(Clone, Copy, Debug, PartialEq, Eq)]
pub struct Snapshot {
    pub cursor: Point,
    pub origin: Point,
    pub size: Extent,
}

/// The pointer lies in the window's rectangle widened by `HOVER_BUFFER` on
/// all four sides, the edges included.
pub open spec fn near_window(snap: Snapshot) -> bool {
    let dx = snap.cursor.x - snap.origin.x;
    let dy = snap.cursor.y - snap.origin.y;
    &&& -HOVER_BUFFER <= dx <= snap.size.width + HOVER_BUFFER
    &&& -HOVER_BUFFER <= dy <= snap.size.height + HOVER_BUFFER
}

/// Whether the pointer is still on or near the window.
pub fn cursor_near_window(snap: &Snapshot) -> (near: bool)
    ensures
        near == near_window(*snap),
{
    let dx: i64 = snap.cursor.x as i64 - snap.origin.x as i64;
    let dy: i64 = snap.cursor.y as i64 - snap.origin.y as i64;
    let buffer: i64 = HOVER_BUFFER as i64;
    -buffer <= dx && dx <= snap.size.width as i64 + buffer && -buffer <= dy && dy
        <= snap.size.height as i64 + buffer
}

/// The inset position exists as a pixel coordinate.
pub open spec fn inset_fits(corner: Point) -> bool {
    corner.x - ANCHOR_INSET_X >= i32::MIN && corner.y - ANCHOR_INSET_Y >= i32::MIN
}

/// Where a window that sits in the work area's bottom-right corner is moved
/// to: `ANCHOR_INSET_X` to the left and `ANCHOR_INSET_Y` up. `None`, and the
/// window stays where it is, exactly when that point is no pixel coordinate.
pub fn inset_position(corner: Point) -> (target: Option<Point>)
    ensures
        target.is_some() == inset_fits(corner),
        target matches Some(p) ==> p.x == corner.x - ANCHOR_INSET_X && p.y == corner.y
            - ANCHOR_INSET_Y,
{
    if corner.x < i32::MIN + ANCHOR_INSET_X || corner.y < i32::MIN + ANCHOR_INSET_Y {
        None
    } else {
        Some(Point { x: corner.x - ANCHOR_INSET_X, y: corner.y - ANCHOR_INSET_Y })
    }
}

} // verus!
