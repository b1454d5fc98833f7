//! Whole-number vectors and axis-aligned boxes.

use vstd::prelude::*;

verus! {

/// Position steps in one world unit.
pub const UNIT: i64 = 1_000_000;

/// Velocity steps in one world unit per second.
pub const SPEED_UNIT: i64 = 1_000;

/// Whether a mathematical integer can be stored in an `i64`.
pub open spec fn fits_i64(x: int) -> bool {
    i64::MIN <= x <= i64::MAX
}

/// A point or a displacement in the plane.
#[derive(Clone, Copy, Debug, PartialEq, Eq, Structural)]
pub struct Vec2 {
    pub x: i64,
    pub y: i64,
}

impl Vec2 {
    pub fn new(x: i64, y: i64) -> (v: Vec2)
        ensures
            v == (Vec2 { x, y }),
    {
        Vec2 { x, y }
    }
}

/// A width and a height, neither of them negative.
#[derive(Clone, Copy, Debug, PartialEq, Eq, Structural)]
pub struct UVec2 {
    pub x: u64,
    pub y: u64,
}

impl UVec2 {
    pub fn new(x: u64, y: u64) -> (v: UVec2)
        ensures
            v == (UVec2 { x, y }),
    {
        UVec2 { x, y }
    }

    /// Half of each component, rounded down to a whole step.
    pub open spec fn half(self) -> UVec2 {
        UVec2 { x: self.x / 2, y: self.y / 2 }
    }
}

/// The value in `[lo, hi]` nearest to `p`.
pub open spec fn clamp(p: int, lo: int, hi: int) -> int {
    if p < lo {
        lo
    } else if p > hi {
        hi
    } else {
        p
    }
}

/// Clamps `p` to the interval of radius `half` around `center`. The interval
/// may reach beyond the range of `i64`; the clamped value never does.
fn clamp_around(p: i64, center: i64, half: u64) -> (c: i64)
    ensures
        c == clamp(p as int, center - half, center + half),
{
    let lo: i128 = center as i128 - half as i128;
    let hi: i128 = center as i128 + half as i128;
    if (p as i128) < lo {
        lo as i64
    } else if (p as i128) > hi {
        hi as i64
    } else {
        p
    }
}

/// An axis-aligned box, given by its center and its half extent on each axis.
/// It is closed: its edges belong to it.
#[derive(Clone, Copy, Debug, PartialEq, Eq, Structural)]
pub struct Aabb2d {
    pub center: Vec2,
    pub half_size: UVec2,
}

impl Aabb2d {
    pub open spec fn min_x(self) -> int {
        self.center.x - self.half_size.x
    }

    pub open spec fn max_x(self) -> int {
        self.center.x + self.half_size.x
    }

    pub open spec fn min_y(self) -> int {
        self.center.y - self.half_size.y
    }

    pub open spec fn max_y(self) -> int {
        self.center.y + self.half_size.y
    }

    /// Two boxes overlap when they share at least one point; touching edges
    /// count.
    pub open spec fn overlaps(self, other: Aabb2d) -> bool {
        &&& self.min_x() <= other.max_x()
        &&& self.max_x() >= other.min_x()
        &&& self.min_y() <= other.max_y()
        &&& self.max_y() >= other.min_y()
    }

    /// The point of the box nearest to `point`: `point` itself when it lies in
    /// the box, else a point of the perimeter.
    pub open spec fn nearest(self, point: Vec2) -> Vec2 {
        Vec2 {
            x: clamp(point.x as int, self.min_x(), self.max_x()) as i64,
            y: clamp(point.y as int, self.min_y(), self.max_y()) as i64,
        }
    }

    pub fn new(center: Vec2, half_size: UVec2) -> (b: Aabb2d)
        ensures
            b == (Aabb2d { center, half_size }),
    {
        Aabb2d { center, half_size }
    }

    pub fn center(&self) -> (c: Vec2)
        ensures
            c == self.center,
    {
        self.center
    }

    pub fn half_size(&self) -> (h: UVec2)
        ensures
            h == self.half_size,
    {
        self.half_size
    }

    pub fn intersects(&self, other: &Aabb2d) -> (hit: bool)
        ensures
            hit == self.overlaps(*other),
    {
        let x_overlaps = self.center.x as i128 - self.half_size.x as i128 <= other.center.x as i128
            + other.half_size.x as i128 && self.center.x as i128 + self.half_size.x as i128
            >= other.center.x as i128 - other.half_size.x as i128;
        let y_overlaps = self.center.y as i128 - self.half_size.y as i128 <= other.center.y as i128
            + other.half_size.y as i128 && self.center.y as i128 + self.half_size.y as i128
            >= other.center.y as i128 - other.half_size.y as i128;
        x_overlaps && y_overlaps
    }

    pub fn closest_point(&self, point: Vec2) -> (closest: Vec2)
        ensures
            closest == self.nearest(point),
            closest.x == clamp(point.x as int, self.min_x(), self.max_x()),
            closest.y == clamp(point.y as int, self.min_y(), self.max_y()),
    {
        Vec2 {
            x: clamp_around(point.x, self.center.x, self.half_size.x),
            y: clamp_around(point.y, self.center.y, self.half_size.y),
        }
    }
}

/// Overlap does not depend on the order of the two boxes.
pub proof fn overlap_is_symmetric(a: Aabb2d, b: Aabb2d)
    ensures
        a.overlaps(b) == b.overlaps(a),
{
}

/// The nearest point of a box lies in the box, and is the point itself exactly
/// when the point lies in the box.
pub proof fn nearest_point_lies_in_box(b: Aabb2d, p: Vec2)
    ensures
        b.min_x() <= b.nearest(p).x <= b.max_x(),
        b.min_y() <= b.nearest(p).y <= b.max_y(),
        b.nearest(p) == p <==> (b.min_x() <= p.x <= b.max_x() && b.min_y() <= p.y <= b.max_y()),
{
}

} // verus!
