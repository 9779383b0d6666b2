//! Integer pixel geometry: points, sizes and bounds.
//!
//! All coordinates are whole pixels in a signed 64-bit range, kept within
//! `COORD_LIMIT` so that the handful of additions and subtractions the
//! interaction logic performs can never overflow.

use vstd::prelude::*;

verus! {

/// Largest magnitude a coordinate may have. Small enough that sums and
/// differences of a few coordinates, and squares of such sums, fit in `i64`.
pub const COORD_LIMIT: i64 = 0x2000_0000;

/// A position or translation in pixels.
#[derive(Clone, Copy, Debug, PartialEq, Eq, Structural)]
pub struct Point {
    /// Horizontal component, growing rightward.
    pub x: i64,
    /// Vertical component, growing downward.
    pub y: i64,
}

/// An extent in pixels.
#[derive(Clone, Copy, Debug, PartialEq, Eq, Structural)]
pub struct Size {
    /// Horizontal extent.
    pub width: i64,
    /// Vertical extent.
    pub height: i64,
}

/// An axis-aligned rectangle: an origin (upper left corner) and a size.
#[derive(Clone, Copy, Debug, PartialEq, Eq, Structural)]
pub struct Bounds {
    /// The upper left corner.
    pub origin: Point,
    /// The extent rightward and downward from the origin.
    pub size: Size,
}

impl Point {
    /// Both components within the coordinate range.
    pub open spec fn wf(self) -> bool {
        -COORD_LIMIT <= self.x <= COORD_LIMIT && -COORD_LIMIT <= self.y <= COORD_LIMIT
    }

    /// The origin point.
    pub fn zero() -> (r: Point)
        ensures
            r == (Point { x: 0, y: 0 }),
    {
        Point { x: 0, y: 0 }
    }
}

impl Size {
    /// Non-negative extents; a size may span the whole coordinate
    /// range, twice the coordinate limit.
    pub open spec fn wf(self) -> bool {
        0 <= self.width <= 2 * COORD_LIMIT && 0 <= self.height <= 2 * COORD_LIMIT
    }

    /// The empty size.
    pub fn zero() -> (r: Size)
        ensures
            r == (Size { width: 0, height: 0 }),
    {
        Size { width: 0, height: 0 }
    }
}

impl Bounds {
    /// Origin in range and size non-negative and in range.
    pub open spec fn wf(self) -> bool {
        self.origin.wf() && self.size.wf()
    }

    /// The x coordinate of the left edge.
    pub open spec fn spec_left(self) -> int {
        self.origin.x as int
    }

    /// The y coordinate of the top edge.
    pub open spec fn spec_top(self) -> int {
        self.origin.y as int
    }

    /// The x coordinate just past the right edge.
    pub open spec fn spec_right(self) -> int {
        self.origin.x + self.size.width
    }

    /// The y coordinate just past the bottom edge.
    pub open spec fn spec_bottom(self) -> int {
        self.origin.y + self.size.height
    }

    /// Whether a point lies inside: at or right of the left edge and above
    /// the bottom edge, and likewise horizontally. The right and bottom
    /// edges themselves are outside.
    pub open spec fn spec_contains(self, p: Point) -> bool {
        self.spec_left() <= p.x < self.spec_right() && self.spec_top() <= p.y
            < self.spec_bottom()
    }

    /// The x coordinate of the left edge.
    pub fn left(&self) -> (r: i64)
        ensures
            r == self.spec_left(),
    {
        self.origin.x
    }

    /// The y coordinate of the top edge.
    pub fn top(&self) -> (r: i64)
        ensures
            r == self.spec_top(),
    {
        self.origin.y
    }

    /// The x coordinate just past the right edge.
    pub fn right(&self) -> (r: i64)
        requires
            self.wf(),
        ensures
            r == self.spec_right(),
    {
        self.origin.x + self.size.width
    }

    /// The y coordinate just past the bottom edge.
    pub fn bottom(&self) -> (r: i64)
        requires
            self.wf(),
        ensures
            r == self.spec_bottom(),
    {
        self.origin.y + self.size.height
    }

    /// The lower right corner.
    pub fn lower_right(&self) -> (r: Point)
        requires
            self.wf(),
        ensures
            r.x == self.spec_right(),
            r.y == self.spec_bottom(),
    {
        Point { x: self.origin.x + self.size.width, y: self.origin.y + self.size.height }
    }

    /// Whether a point lies inside these bounds.
    pub fn contains(&self, p: &Point) -> (r: bool)
        requires
            self.wf(),
            p.wf(),
        ensures
            r == self.spec_contains(*p),
    {
        self.origin.x <= p.x && p.x < self.origin.x + self.size.width && self.origin.y <= p.y
            && p.y < self.origin.y + self.size.height
    }
}

/// The squared distance between two points.
pub open spec fn spec_distance_squared(a: Point, b: Point) -> int {
    (b.x - a.x) * (b.x - a.x) + (b.y - a.y) * (b.y - a.y)
}

/// The squared Euclidean distance between two points. Comparing squared
/// distances against a squared threshold avoids square roots while giving
/// the same ordering.
pub fn distance_squared(a: &Point, b: &Point) -> (r: i64)
    requires
        a.wf(),
        b.wf(),
    ensures
        r == spec_distance_squared(*a, *b),
        r >= 0,
{
    let dx: i64 = b.x - a.x;
    let dy: i64 = b.y - a.y;
    proof {
        assert(0 <= dx * dx <= 0x1000_0000_0000_0000) by (nonlinear_arith)
            requires
                -0x4000_0000 <= dx <= 0x4000_0000,
        ;
        assert(0 <= dy * dy <= 0x1000_0000_0000_0000) by (nonlinear_arith)
            requires
                -0x4000_0000 <= dy <= 0x4000_0000,
        ;
    }
    let sx: i64 = dx * dx;
    let sy: i64 = dy * dy;
    sx + sy
}

/// The larger of two values.
pub fn max_i64(a: i64, b: i64) -> (r: i64)
    ensures
        r == if a >= b {
            a as int
        } else {
            b as int
        },
{
    if a >= b {
        a
    } else {
        b
    }
}

/// The smaller of two values.
pub fn min_i64(a: i64, b: i64) -> (r: i64)
    ensures
        r == if a <= b {
            a as int
        } else {
            b as int
        },
{
    if a <= b {
        a
    } else {
        b
    }
}

/// `v` forced into `[lo, hi]`.
pub open spec fn spec_clamp(v: int, lo: int, hi: int) -> int
    recommends
        lo <= hi,
{
    if v < lo {
        lo
    } else if v > hi {
        hi
    } else {
        v
    }
}

/// Force a value into the inclusive range `[lo, hi]`.
pub fn clamp_i64(v: i64, lo: i64, hi: i64) -> (r: i64)
    requires
        lo <= hi,
    ensures
        r == spec_clamp(v as int, lo as int, hi as int),
        lo <= r <= hi,
{
    if v < lo {
        lo
    } else if v > hi {
        hi
    } else {
        v
    }
}

} // verus!
