//! The overlap test for axis-aligned rectangles.

use vstd::prelude::*;

verus! {

/// An axis-aligned rectangle: its top-left corner and its size. The y axis
/// points down the screen.
pub struct Rect {
    pub x: int,
    pub y: int,
    pub w: int,
    pub h: int,
}

/// The two rectangles share more than an edge: their projections overlap
/// strictly on both axes.
pub open spec fn overlap(a: Rect, b: Rect) -> bool {
    &&& a.x < b.x + b.w
    &&& a.x + a.w > b.x
    &&& a.y < b.y + b.h
    &&& a.y + a.h > b.y
}

/// On one of the axes, one rectangle ends where the other begins or before.
pub open spec fn apart(a: Rect, b: Rect) -> bool {
    ||| a.x + a.w <= b.x
    ||| b.x + b.w <= a.x
    ||| a.y + a.h <= b.y
    ||| b.y + b.h <= a.y
}

/// Rectangle for checking collisions.
pub trait CollisionRect {
    /// The rectangle that the four accessors describe.
    spec fn rect(&self) -> Rect;

    /// The x coordinate of the left edge.
    fn top_left_x(&self) -> (x: i64)
        ensures
            x == self.rect().x,
    ;

    /// The y coordinate of the top edge.
    fn top_left_y(&self) -> (y: i64)
        ensures
            y == self.rect().y,
    ;

    /// The extent along the x axis.
    fn width(&self) -> (w: i64)
        ensures
            w == self.rect().w,
    ;

    /// The extent along the y axis.
    fn height(&self) -> (h: i64)
        ensures
            h == self.rect().h,
    ;
}

/// Whether the two rectangles overlap. Rectangles that only touch do not.
pub fn are_colliding<Rect1: CollisionRect, Rect2: CollisionRect>(
    rect1: &Rect1,
    rect2: &Rect2,
) -> (hit: bool)
    ensures
        hit == overlap(rect1.rect(), rect2.rect()),
{
    let x1: i128 = rect1.top_left_x() as i128;
    let y1: i128 = rect1.top_left_y() as i128;
    let x2: i128 = rect2.top_left_x() as i128;
    let y2: i128 = rect2.top_left_y() as i128;
    x1 < x2 + rect2.width() as i128 && x1 + rect1.width() as i128 > x2
        && y1 < y2 + rect2.height() as i128 && y1 + rect1.height() as i128 > y2
}

/// A rectangle with a positive width and height overlaps itself.
pub proof fn lemma_overlap_reflexive(r: Rect)
    requires
        r.w > 0,
        r.h > 0,
    ensures
        overlap(r, r),
{
}

/// Overlap does not depend on the order of the two rectangles.
pub proof fn lemma_overlap_symmetric(a: Rect, b: Rect)
    ensures
        overlap(a, b) == overlap(b, a),
{
}

/// Two rectangles overlap exactly when no axis keeps them apart. So
/// rectangles with a gap between them on either axis, or none but a shared
/// edge, never overlap.
pub proof fn lemma_overlap_iff_not_apart(a: Rect, b: Rect)
    ensures
        overlap(a, b) == !apart(a, b),
{
}

} // verus!
