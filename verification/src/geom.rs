//! Integer 2D vectors, the coordinate type of the whole simulation.
//!
//! Coordinates are integer pixels. Every stored local offset and extent is
//! kept within `POS_LIMIT`, so sums along bounded parent chains stay far from
//! the `i64` range.

use vstd::prelude::*;

verus! {

/// Largest magnitude a stored local offset or extent coordinate may have.
pub const POS_LIMIT: i64 = 1_000_000;

#[derive(Clone, Copy, PartialEq, Eq, Structural, Debug)]
pub struct Vec2 {
    pub x: i64,
    pub y: i64,
}

impl Vec2 {
    /// Both coordinates lie in `[-limit, limit]`.
    pub open spec fn in_range(self, limit: i64) -> bool {
        &&& -limit <= self.x <= limit
        &&& -limit <= self.y <= limit
    }

    pub fn new(x: i64, y: i64) -> (v: Vec2)
        ensures
            v == (Vec2 { x, y }),
    {
        Vec2 { x, y }
    }

    pub fn zero() -> (v: Vec2)
        ensures
            v == (Vec2 { x: 0i64, y: 0i64 }),
    {
        Vec2 { x: 0, y: 0 }
    }
}

} // verus!
