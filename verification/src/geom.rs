use vstd::prelude::*;

verus! {

/// A two-dimensional position: an `x` column and a `y` row.
#[derive(Clone, Copy, Debug, PartialEq, Eq, Structural)]
pub struct Coord {
    /// X component (column).
    pub x: usize,
    /// Y component (row).
    pub y: usize,
}

/// Width and height of a rectangular region.
#[derive(Clone, Copy, Debug, PartialEq, Eq, Structural)]
pub struct Size {
    /// Number of columns.
    pub width: usize,
    /// Number of rows.
    pub height: usize,
}

/// A rectangle given by inclusive minimum and maximum coordinates.
///
/// Values are only produced with `min_coord <= max_coord` on both axes;
/// that ordering is checked once, at construction, and never changes.
#[derive(Clone, Copy, Debug, PartialEq, Eq, Structural)]
pub struct Rect {
    min_coord: Coord,
    max_coord: Coord,
}

impl Coord {
    /// Create a coordinate at (x, y).
    pub fn new(x: usize, y: usize) -> (c: Coord)
        ensures
            c == (Coord { x, y }),
    {
        Coord { x, y }
    }
}

impl vstd::std_specs::ops::AddSpecImpl for Coord {
    open spec fn obeys_add_spec() -> bool {
        true
    }

    open spec fn add_req(self, other: Coord) -> bool {
        self.x + other.x <= usize::MAX && self.y + other.y <= usize::MAX
    }

    open spec fn add_spec(self, other: Coord) -> Coord {
        Coord { x: (self.x + other.x) as usize, y: (self.y + other.y) as usize }
    }
}

impl core::ops::Add for Coord {
    type Output = Coord;

    /// Component-wise sum of two coordinates.
    fn add(self, other: Coord) -> (c: Coord) {
        Coord { x: self.x + other.x, y: self.y + other.y }
    }
}

impl Size {
    /// The number of elements a container of this size holds.
    pub open spec fn spec_area(self) -> int {
        self.width * self.height
    }

    /// Whether the coordinate lies strictly inside this width and height.
    pub open spec fn spec_contains(self, c: Coord) -> bool {
        c.x < self.width && c.y < self.height
    }

    /// Create a 2D size of (width, height).
    pub fn new(width: usize, height: usize) -> (s: Size)
        ensures
            s == (Size { width, height }),
    {
        Size { width, height }
    }

    /// width * height.
    pub fn area(&self) -> (a: usize)
        requires
            self.spec_area() <= usize::MAX,
        ensures
            a == self.spec_area(),
    {
        self.width * self.height
    }

    /// Return true if the coordinate fits within self's width and
    /// height, false otherwise.
    pub fn contains_coord(&self, coord: Coord) -> (b: bool)
        ensures
            b == self.spec_contains(coord),
    {
        coord.x < self.width && coord.y < self.height
    }

    /// Create a rectangle starting at (0, 0) with `self`'s size.
    /// A zero-area size has no such rectangle, so both extents must be
    /// at least one.
    pub fn rect(&self) -> (r: Rect)
        requires
            self.width >= 1,
            self.height >= 1,
        ensures
            r.spec_min() == (Coord { x: 0, y: 0 }),
            r.spec_max() == (Coord { x: (self.width - 1) as usize, y: (self.height - 1) as usize }),
    {
        Rect {
            min_coord: Coord::new(0, 0),
            max_coord: Coord::new(self.width - 1, self.height - 1),
        }
    }
}

impl Rect {
    /// Both corners are in order: no rectangle is ever seen otherwise.
    #[verifier::type_invariant]
    pub open spec fn ordered(self) -> bool {
        self.spec_min().x <= self.spec_max().x && self.spec_min().y <= self.spec_max().y
    }

    /// Minimum coordinate (inclusive).
    pub closed spec fn spec_min(self) -> Coord {
        self.min_coord
    }

    /// Maximum coordinate (inclusive).
    pub closed spec fn spec_max(self) -> Coord {
        self.max_coord
    }

    /// Number of columns the rectangle spans.
    pub open spec fn spec_width(self) -> int {
        self.spec_max().x - self.spec_min().x + 1
    }

    /// Number of rows the rectangle spans.
    pub open spec fn spec_height(self) -> int {
        self.spec_max().y - self.spec_min().y + 1
    }

    /// Whether the coordinate lies between the two corners, inclusively.
    pub open spec fn spec_contains(self, c: Coord) -> bool {
        self.spec_min().x <= c.x <= self.spec_max().x && self.spec_min().y <= c.y
            <= self.spec_max().y
    }

    /// Create a new Rect defined by inclusive minimum and maximum
    /// coordinates. If min_coord is greater than max_coord on either
    /// axis then None is returned.
    pub fn new(min_coord: Coord, max_coord: Coord) -> (r: Option<Rect>)
        ensures
            r is Some <==> (min_coord.x <= max_coord.x && min_coord.y <= max_coord.y),
            r is Some ==> r->0.spec_min() == min_coord && r->0.spec_max() == max_coord,
    {
        if min_coord.x <= max_coord.x && min_coord.y <= max_coord.y {
            Some(Rect { min_coord, max_coord })
        } else {
            None
        }
    }

    /// Minimum coordinate (inclusive).
    pub fn min_coord(&self) -> (c: Coord)
        ensures
            c == self.spec_min(),
    {
        self.min_coord
    }

    /// Maximum coordinate (inclusive).
    pub fn max_coord(&self) -> (c: Coord)
        ensures
            c == self.spec_max(),
    {
        self.max_coord
    }

    /// Calculate rectangle width.
    pub fn width(&self) -> (w: usize)
        requires
            self.spec_width() <= usize::MAX,
        ensures
            w == self.spec_width(),
    {
        proof {
            use_type_invariant(self);
        }
        self.max_coord.x - self.min_coord.x + 1
    }

    /// Calculate rectangle height.
    pub fn height(&self) -> (h: usize)
        requires
            self.spec_height() <= usize::MAX,
        ensures
            h == self.spec_height(),
    {
        proof {
            use_type_invariant(self);
        }
        self.max_coord.y - self.min_coord.y + 1
    }

    /// Calculate rectangle size.
    pub fn size(&self) -> (s: Size)
        requires
            self.spec_width() <= usize::MAX,
            self.spec_height() <= usize::MAX,
        ensures
            s.width == self.spec_width(),
            s.height == self.spec_height(),
    {
        Size::new(self.width(), self.height())
    }

    /// Return true if the coordinate is between `min_coord` and
    /// `max_coord` (inclusive).
    pub fn contains_coord(&self, coord: Coord) -> (b: bool)
        ensures
            b == self.spec_contains(coord),
    {
        coord.x >= self.min_coord.x && coord.x <= self.max_coord.x && coord.y >= self.min_coord.y
            && coord.y <= self.max_coord.y
    }
}

} // verus!
