//! Points, sizes and displacements of the arena, in fixed point.

use vstd::prelude::*;

verus! {

/// Sub-units in one arena unit.
pub const UNIT: i64 = 1000;

/// Side of the square arena.
pub const ARENA: i64 = 800_000;

/// Largest magnitude of a coordinate that the simulation is asked to handle.
pub const COORD_MAX: i64 = 0x100_0000_0000;

/// A pair of fixed-point coordinates: a position, a size or a displacement.
#[derive(Clone, Copy, Debug, PartialEq, Eq, Structural)]
pub struct Vec2 {
    pub x: i64,
    pub y: i64,
}

impl Vec2 {
    /// Both coordinates have magnitude at most `m`.
    pub open spec fn within(self, m: int) -> bool {
        -m <= self.x <= m && -m <= self.y <= m
    }

    /// The point lies in the arena, its border included.
    pub open spec fn inside_arena(self) -> bool {
        0 <= self.x <= ARENA && 0 <= self.y <= ARENA
    }

    pub fn new(x: i64, y: i64) -> (v: Vec2)
        ensures
            v.x == x,
            v.y == y,
    {
        Vec2 { x, y }
    }

    /// Whether the point lies in the arena, its border included.
    pub fn is_inside_arena(&self) -> (b: bool)
        ensures
            b == self.inside_arena(),
    {
        0 <= self.x && self.x <= ARENA && 0 <= self.y && self.y <= ARENA
    }
}

/// The value of `v` brought into the range of `i64`.
pub open spec fn saturated(v: int) -> int {
    if v < i64::MIN {
        i64::MIN as int
    } else if v > i64::MAX {
        i64::MAX as int
    } else {
        v
    }
}

/// `a + b`, held at the ends of `i64`.
pub fn saturating_sum(a: i64, b: i64) -> (r: i64)
    ensures
        r == saturated(a + b),
{
    let wide: i128 = a as i128 + b as i128;
    if wide < i64::MIN as i128 {
        i64::MIN
    } else if wide > i64::MAX as i128 {
        i64::MAX
    } else {
        wide as i64
    }
}

/// `a - b`, held at the ends of `i64`.
pub fn saturating_difference(a: i64, b: i64) -> (r: i64)
    ensures
        r == saturated(a - b),
{
    let wide: i128 = a as i128 - b as i128;
    if wide < i64::MIN as i128 {
        i64::MIN
    } else if wide > i64::MAX as i128 {
        i64::MAX
    } else {
        wide as i64
    }
}

} // verus!
