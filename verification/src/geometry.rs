//! Points, boxes and the overlap test.

use vstd::prelude::*;

verus! {

/// A point or an extent in world units.
#[derive(Clone, Copy, Debug, PartialEq, Eq, Structural)]
pub struct Vector2 {
    pub x: i64,
    pub y: i64,
}

impl Vector2 {
    pub fn new(x: i64, y: i64) -> (v: Vector2)
        ensures
            v == (Vector2 { x, y }),
    {
        Vector2 { x, y }
    }
}

/// An axis-aligned box given by its four edges, in half units: a box centred
/// on a point keeps exact edges even when its size is odd.
pub struct Bounds {
    pub left: int,
    pub right: int,
    pub top: int,
    pub bottom: int,
}

/// The box of the given size whose centre is `center`.
pub open spec fn centered_bounds(center: Vector2, size: Vector2) -> Bounds {
    Bounds {
        left: 2 * center.x - size.x,
        right: 2 * center.x + size.x,
        top: 2 * center.y - size.y,
        bottom: 2 * center.y + size.y,
    }
}

/// The box of the given size whose top-left corner is `origin`.
pub open spec fn corner_bounds(origin: Vector2, size: Vector2) -> Bounds {
    Bounds {
        left: 2 * origin.x,
        right: 2 * (origin.x + size.x),
        top: 2 * origin.y,
        bottom: 2 * (origin.y + size.y),
    }
}

/// Two boxes overlap when their interiors meet: boxes that only touch along
/// an edge do not.
pub open spec fn overlaps(a: Bounds, b: Bounds) -> bool {
    &&& a.left < b.right
    &&& a.right > b.left
    &&& a.top < b.bottom
    &&& a.bottom > b.top
}

/// Overlap does not depend on the order of the two boxes.
pub proof fn lemma_overlap_symmetric(a: Bounds, b: Bounds)
    ensures
        overlaps(a, b) == overlaps(b, a),
{
}

/// Boxes that share only an edge, or are further apart, do not overlap.
pub proof fn lemma_touching_is_not_overlap(a: Bounds, b: Bounds)
    requires
        a.right <= b.left || b.right <= a.left || a.bottom <= b.top || b.bottom <= a.top,
    ensures
        !overlaps(a, b),
{
}

/// Tells whether a box centred on `center` overlaps a box whose top-left
/// corner is `origin`.
pub fn centered_overlaps_corner(
    center: Vector2,
    center_size: Vector2,
    origin: Vector2,
    origin_size: Vector2,
) -> (r: bool)
    ensures
        r == overlaps(centered_bounds(center, center_size), corner_bounds(origin, origin_size)),
{
    let left: i128 = 2 * (center.x as i128) - (center_size.x as i128);
    let right: i128 = 2 * (center.x as i128) + (center_size.x as i128);
    let top: i128 = 2 * (center.y as i128) - (center_size.y as i128);
    let bottom: i128 = 2 * (center.y as i128) + (center_size.y as i128);
    let other_left: i128 = 2 * (origin.x as i128);
    let other_right: i128 = 2 * (origin.x as i128 + origin_size.x as i128);
    let other_top: i128 = 2 * (origin.y as i128);
    let other_bottom: i128 = 2 * (origin.y as i128 + origin_size.y as i128);
    left < other_right && right > other_left && top < other_bottom && bottom > other_top
}

} // verus!
