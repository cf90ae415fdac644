//! Integer geometry: points, sizes, rectangles and padding.
//!
//! All coordinates and lengths are whole length units. To keep every
//! computation in the crate free of overflow, geometry handed to the layout
//! and drag logic is bounded by [`MAX_DIM`] (see [`dim_ok`] and the
//! well-formedness predicates below).

use vstd::prelude::*;

verus! {

/// Largest magnitude, in length units, of any input dimension (a length, a
/// spacing, a padding side, a cursor coordinate) that the layout and drag
/// logic accepts.
pub const MAX_DIM: i64 = 0x100_0000;

/// Largest magnitude of a computed coordinate. Resolved layouts sum many
/// input dimensions, so their positions live in this wider range.
pub const MAX_COORD: i64 = 0x1000_0000_0000;

/// An input dimension the logic can work with.
pub open spec fn dim_ok(v: int) -> bool {
    -MAX_DIM <= v <= MAX_DIM
}

/// A computed coordinate the logic can work with.
pub open spec fn coord_ok(v: int) -> bool {
    -MAX_COORD <= v <= MAX_COORD
}

/// A point in absolute coordinates.
#[derive(Clone, Copy, Debug, PartialEq, Eq, Structural)]
pub struct Point {
    /// The coordinate along the horizontal axis.
    pub x: i64,
    /// The coordinate along the vertical axis.
    pub y: i64,
}

impl Point {
    /// Both coordinates are bounded.
    pub open spec fn wf(self) -> bool {
        dim_ok(self.x as int) && dim_ok(self.y as int)
    }

    /// Builds the point `(x, y)`.
    pub fn new(x: i64, y: i64) -> (p: Point)
        ensures
            p == (Point { x, y }),
    {
        Point { x, y }
    }
}

/// A width and a height.
#[derive(Clone, Copy, Debug, PartialEq, Eq, Structural)]
pub struct Size {
    /// The horizontal extent.
    pub width: i64,
    /// The vertical extent.
    pub height: i64,
}

impl Size {
    /// Both extents are non-negative and bounded.
    pub open spec fn wf(self) -> bool {
        0 <= self.width <= MAX_DIM && 0 <= self.height <= MAX_DIM
    }

    /// Builds the size `width` by `height`.
    pub fn new(width: i64, height: i64) -> (s: Size)
        ensures
            s == (Size { width, height }),
    {
        Size { width, height }
    }

    /// The size with zero width and height.
    pub fn zero() -> (s: Size)
        ensures
            s == (Size { width: 0i64, height: 0i64 }),
    {
        Size { width: 0, height: 0 }
    }
}

/// An axis-aligned rectangle: a top-left corner and a size.
#[derive(Clone, Copy, Debug, PartialEq, Eq, Structural)]
pub struct Rectangle {
    /// The horizontal coordinate of the left edge.
    pub x: i64,
    /// The vertical coordinate of the top edge.
    pub y: i64,
    /// The horizontal extent.
    pub width: i64,
    /// The vertical extent.
    pub height: i64,
}

impl Rectangle {
    /// Coordinates are bounded and the extents are non-negative.
    pub open spec fn wf(self) -> bool {
        &&& coord_ok(self.x as int)
        &&& coord_ok(self.y as int)
        &&& 0 <= self.width <= MAX_COORD
        &&& 0 <= self.height <= MAX_COORD
    }

    /// Whether `p` lies inside the rectangle: at or after the leading edges,
    /// strictly before the trailing edges.
    pub open spec fn spec_contains(self, p: Point) -> bool {
        &&& self.x <= p.x < self.x + self.width
        &&& self.y <= p.y < self.y + self.height
    }

    /// Builds a rectangle from its corner and extents.
    pub fn new(x: i64, y: i64, width: i64, height: i64) -> (r: Rectangle)
        ensures
            r == (Rectangle { x, y, width, height }),
    {
        Rectangle { x, y, width, height }
    }

    /// Whether `p` lies inside the rectangle.
    pub fn contains(&self, p: Point) -> (b: bool)
        requires
            self.wf(),
            p.wf(),
        ensures
            b == self.spec_contains(p),
    {
        self.x <= p.x && p.x < self.x + self.width && self.y <= p.y && p.y < self.y + self.height
    }
}

/// Space around the contents of a container.
#[derive(Clone, Copy, Debug, PartialEq, Eq, Structural)]
pub struct Padding {
    /// Space above the contents.
    pub top: i64,
    /// Space to the right of the contents.
    pub right: i64,
    /// Space below the contents.
    pub bottom: i64,
    /// Space to the left of the contents.
    pub left: i64,
}

impl Padding {
    /// Every side is non-negative and bounded.
    pub open spec fn wf(self) -> bool {
        &&& 0 <= self.top <= MAX_DIM
        &&& 0 <= self.right <= MAX_DIM
        &&& 0 <= self.bottom <= MAX_DIM
        &&& 0 <= self.left <= MAX_DIM
    }

    /// The total horizontal padding.
    pub open spec fn spec_horizontal(self) -> int {
        self.left + self.right
    }

    /// The total vertical padding.
    pub open spec fn spec_vertical(self) -> int {
        self.top + self.bottom
    }

    /// The padding with zero on every side.
    pub fn zero() -> (p: Padding)
        ensures
            p == (Padding { top: 0i64, right: 0i64, bottom: 0i64, left: 0i64 }),
    {
        Padding { top: 0, right: 0, bottom: 0, left: 0 }
    }

    /// The same padding on every side.
    pub fn uniform(v: i64) -> (p: Padding)
        ensures
            p == (Padding { top: v, right: v, bottom: v, left: v }),
    {
        Padding { top: v, right: v, bottom: v, left: v }
    }

    /// The total horizontal padding.
    pub fn horizontal(&self) -> (h: i64)
        requires
            self.wf(),
        ensures
            h == self.spec_horizontal(),
    {
        self.left + self.right
    }

    /// The total vertical padding.
    pub fn vertical(&self) -> (v: i64)
        requires
            self.wf(),
        ensures
            v == self.spec_vertical(),
    {
        self.top + self.bottom
    }
}

/// The squared Euclidean distance between two points.
pub open spec fn dist_sq(p: Point, q: Point) -> int {
    (p.x - q.x) * (p.x - q.x) + (p.y - q.y) * (p.y - q.y)
}

/// Computes the squared Euclidean distance between two points.
pub fn distance_sq(p: Point, q: Point) -> (d: i64)
    requires
        p.wf(),
        q.wf(),
    ensures
        d as int == dist_sq(p, q),
        d >= 0,
{
    let dx: i64 = p.x - q.x;
    let dy: i64 = p.y - q.y;
    proof {
        assert(0 <= (dx as int) * (dx as int) <= 0x10_0000_0000_0000) by (nonlinear_arith)
            requires
                -0x200_0000 <= dx <= 0x200_0000,
        ;
        assert(0 <= (dy as int) * (dy as int) <= 0x10_0000_0000_0000) by (nonlinear_arith)
            requires
                -0x200_0000 <= dy <= 0x200_0000,
        ;
    }
    dx * dx + dy * dy
}


} // verus!
