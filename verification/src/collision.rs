//! Intersection tests on axis-aligned rectangles, each given by its top-left
//! corner and its size.

use vstd::prelude::*;
use crate::vectors::Vec2;

verus! {

/// The point lies in the closed rectangle at `pos` with size `rect_size`.
pub open spec fn point_in_rect_spec(rect_size: Vec2, pos: Vec2, point: Vec2) -> bool {
    &&& pos.x <= point.x <= pos.x + rect_size.x
    &&& pos.y <= point.y <= pos.y + rect_size.y
}

/// The two closed rectangles share at least one point.
pub open spec fn rect_rect_spec(r1_size: Vec2, r1_pos: Vec2, r2_size: Vec2, r2_pos: Vec2) -> bool {
    &&& r1_pos.x + r1_size.x >= r2_pos.x
    &&& r1_pos.x <= r2_pos.x + r2_size.x
    &&& r1_pos.y + r1_size.y >= r2_pos.y
    &&& r1_pos.y <= r2_pos.y + r2_size.y
}

/// Whether `point` lies in the rectangle at `pos` with size `rect_size`, its
/// border included.
pub fn point_in_rect(rect_size: Vec2, pos: Vec2, point: Vec2) -> (inside: bool)
    ensures
        inside == point_in_rect_spec(rect_size, pos, point),
{
    if point.x < pos.x {
        return false;
    }
    if point.y < pos.y {
        return false;
    }
    if point.y as i128 > pos.y as i128 + rect_size.y as i128 {
        return false;
    }
    if point.x as i128 > pos.x as i128 + rect_size.x as i128 {
        return false;
    }
    true
}

/// Whether two rectangles overlap; touching borders count as overlap.
pub fn rect_rect(r1_size: Vec2, r1_pos: Vec2, r2_size: Vec2, r2_pos: Vec2) -> (hit: bool)
    ensures
        hit == rect_rect_spec(r1_size, r1_pos, r2_size, r2_pos),
{
    r1_pos.x as i128 + r1_size.x as i128 >= r2_pos.x as i128
        && r1_pos.x as i128 <= r2_pos.x as i128 + r2_size.x as i128
        && r1_pos.y as i128 + r1_size.y as i128 >= r2_pos.y as i128
        && r1_pos.y as i128 <= r2_pos.y as i128 + r2_size.y as i128
}

} // verus!
