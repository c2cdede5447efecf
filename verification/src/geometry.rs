//! Plain integer geometry: points and axis-aligned rectangles in
//! millipixel world units, with the clamping and overlap tests the
//! rest of the simulation is specified over.

use vstd::prelude::*;

verus! {

/// Coordinates this crate works with stay within this bound (one hundred
/// thousand pixels in millipixel units), so products with zoom factors and
/// movement steps fit comfortably in `i64`.
pub const WORLD_LIMIT: i64 = 100_000_000;

/// An (x, y) pair in millipixel world units.
#[derive(Clone, Copy, Debug, PartialEq, Eq, Structural)]
pub struct Vec2i {
    pub x: i64,
    pub y: i64,
}

/// An axis-aligned rectangle: origin corner plus non-negative extent,
/// in millipixel world units.
#[derive(Clone, Copy, Debug, PartialEq, Eq, Structural)]
pub struct Recti {
    pub x: i64,
    pub y: i64,
    pub w: i64,
    pub h: i64,
}

impl Vec2i {
    /// True when both coordinates lie within `WORLD_LIMIT`.
    pub open spec fn in_world(self) -> bool {
        -WORLD_LIMIT <= self.x <= WORLD_LIMIT && -WORLD_LIMIT <= self.y <= WORLD_LIMIT
    }

    pub fn new(x: i64, y: i64) -> (v: Vec2i)
        ensures
            v.x == x,
            v.y == y,
    {
        Vec2i { x, y }
    }
}

impl Recti {
    /// A rectangle is well formed when its extent is non-negative.
    pub open spec fn wf(self) -> bool {
        self.w >= 0 && self.h >= 0
    }

    /// True when the whole rectangle lies within `WORLD_LIMIT`.
    pub open spec fn in_world(self) -> bool {
        &&& self.wf()
        &&& -WORLD_LIMIT <= self.x && self.x + self.w <= WORLD_LIMIT
        &&& -WORLD_LIMIT <= self.y && self.y + self.h <= WORLD_LIMIT
    }

    /// Point membership, edges included.
    pub open spec fn contains_spec(self, p: Vec2i) -> bool {
        self.x <= p.x <= self.x + self.w && self.y <= p.y <= self.y + self.h
    }

    pub fn new(x: i64, y: i64, w: i64, h: i64) -> (r: Recti)
        requires
            w >= 0,
            h >= 0,
        ensures
            r == (Recti { x, y, w, h }),
            r.wf(),
    {
        Recti { x, y, w, h }
    }

    /// Whether the point `p` lies inside the rectangle, edges included.
    pub fn contains(&self, p: Vec2i) -> (b: bool)
        requires
            self.in_world(),
        ensures
            b == self.contains_spec(p),
    {
        self.x <= p.x && p.x <= self.x + self.w && self.y <= p.y && p.y <= self.y + self.h
    }
}

/// Clamp `v` into the closed interval `[lo, hi]`.
pub open spec fn clamp_spec(v: int, lo: int, hi: int) -> int {
    if v < lo {
        lo
    } else if v > hi {
        hi
    } else {
        v
    }
}

/// Clamp `v` into `[lo, hi]`; the interval must be ordered.
pub fn clamp_i64(v: i64, lo: i64, hi: i64) -> (r: i64)
    requires
        lo <= hi,
    ensures
        r == clamp_spec(v as int, lo as int, hi as int),
        lo <= r <= hi,
{
    if v < lo {
        lo
    } else if v > hi {
        hi
    } else {
        v
    }
}

} // verus!
