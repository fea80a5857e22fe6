//! Overlap tests between points and axis-aligned rectangles. A rectangle is
//! given by its top-left corner and its extent, or by its two corners; every
//! bound is inclusive.

use crate::scalar::Vec2;
use vstd::prelude::*;

verus! {

/// Whether `point` lies on or inside all four edges of the rectangle from
/// the corner `low` to the corner `high`.
pub open spec fn point_between(point: Vec2, low: Vec2, high: Vec2) -> bool {
    &&& low.x.num_le(point.x)
    &&& point.x.num_le(high.x)
    &&& low.y.num_le(point.y)
    &&& point.y.num_le(high.y)
}

/// Whether the rectangle from `low1` to `high1` and the rectangle from
/// `low2` to `high2` overlap; touching at an edge counts.
pub open spec fn bounds_overlap(low1: Vec2, high1: Vec2, low2: Vec2, high2: Vec2) -> bool {
    &&& low2.x.num_le(high1.x)
    &&& low1.x.num_le(high2.x)
    &&& low2.y.num_le(high1.y)
    &&& low1.y.num_le(high2.y)
}

/// Whether `point` lies on or inside all four edges of the rectangle at
/// `r_pos` of extent `r_size`.
pub open spec fn point_inside(point: Vec2, r_pos: Vec2, r_size: Vec2) -> bool {
    point_between(point, r_pos, r_pos.spec_plus(r_size))
}

/// Whether two rectangles, each given by corner and extent, overlap;
/// touching at an edge counts.
pub open spec fn rects_overlap(r1_pos: Vec2, r1_size: Vec2, r2_pos: Vec2, r2_size: Vec2) -> bool {
    bounds_overlap(r1_pos, r1_pos.spec_plus(r1_size), r2_pos, r2_pos.spec_plus(r2_size))
}

/// The point test on a rectangle given by its two corners.
pub fn point_in_bounds(point: Vec2, low: Vec2, high: Vec2) -> (inside: bool)
    ensures
        inside == point_between(point, low, high),
{
    (point.x.ge(low.x) && point.x.le(high.x)) && (point.y.ge(low.y) && point.y.le(high.y))
}

/// The overlap test on rectangles given by their two corners.
pub fn bounds_in_bounds(low1: Vec2, high1: Vec2, low2: Vec2, high2: Vec2) -> (overlap: bool)
    ensures
        overlap == bounds_overlap(low1, high1, low2, high2),
{
    high1.x.ge(low2.x) && low1.x.le(high2.x) && high1.y.ge(low2.y) && low1.y.le(high2.y)
}

pub fn point_in_rect(point: Vec2, r_pos: Vec2, r_size: Vec2) -> (inside: bool)
    ensures
        inside == point_inside(point, r_pos, r_size),
{
    point_in_bounds(point, r_pos, r_pos.plus(r_size))
}

pub fn rect_in_rect(r1_pos: Vec2, r1_size: Vec2, r2_pos: Vec2, r2_size: Vec2) -> (overlap: bool)
    ensures
        overlap == rects_overlap(r1_pos, r1_size, r2_pos, r2_size),
{
    bounds_in_bounds(r1_pos, r1_pos.plus(r1_size), r2_pos, r2_pos.plus(r2_size))
}

/// The overlap test is the same whichever rectangle is named first.
pub proof fn lemma_overlap_symmetric(low1: Vec2, high1: Vec2, low2: Vec2, high2: Vec2)
    ensures
        bounds_overlap(low1, high1, low2, high2) == bounds_overlap(low2, high2, low1, high1),
{
}

/// A rectangle whose corners are numbers in order holds both its corners.
pub proof fn lemma_corners_inside(low: Vec2, high: Vec2)
    requires
        low.x.num_le(high.x),
        low.y.num_le(high.y),
    ensures
        point_between(low, low, high),
        point_between(high, low, high),
{
}

} // verus!
