use vstd::prelude::*;

verus! {

/// Columns of a level.
pub const WIDTH: usize = 19;

/// Rows of a level.
pub const HEIGHT: usize = 13;

/// Number of cells of a level.
pub const CELLS: usize = 247;

pub open spec fn abs(x: int) -> int {
    if x < 0 { -x } else { x }
}

pub open spec fn max(a: int, b: int) -> int {
    if a < b { b } else { a }
}

/// A position, or an offset between positions.
#[derive(Clone, Copy, Debug, PartialEq, Eq, Structural, Hash)]
pub struct Point(pub i32, pub i32);

impl Point {
    pub open spec fn cheby_spec(self) -> int {
        max(abs(self.0 as int), abs(self.1 as int))
    }

    pub open spec fn taxi_spec(self) -> int {
        abs(self.0 as int) + abs(self.1 as int)
    }

    /// Whether the point lies on the board.
    pub open spec fn on_board(self) -> bool {
        0 <= self.0 < WIDTH && 0 <= self.1 < HEIGHT
    }

    /// Whether the point has a one-byte encoding `row * WIDTH + col`.
    pub open spec fn encodable(self) -> bool {
        0 <= self.0 < WIDTH && 0 <= self.1 && self.1 * WIDTH + self.0 < 256
    }

    /// The cell index (row-major) of a point.
    pub open spec fn index_spec(self) -> int {
        self.1 * WIDTH + self.0
    }

    pub open spec fn of_index(i: int) -> Point {
        Point((i % WIDTH as int) as i32, (i / WIDTH as int) as i32)
    }

    /// Coordinates whose norms fit in `i32`.
    pub open spec fn small(self) -> bool {
        -0x4000_0000 < self.0 < 0x4000_0000 && -0x4000_0000 < self.1 < 0x4000_0000
    }

    /// Coordinates whose differences with other such points are small.
    pub open spec fn near_origin(self) -> bool {
        -0x2000_0000 < self.0 < 0x2000_0000 && -0x2000_0000 < self.1 < 0x2000_0000
    }

    pub fn of_byte(index: u8) -> (r: Point)
        ensures
            r == Point::of_index(index as int),
            r.encodable(),
            r.index_spec() == index,
    {
        Point((index as u32 % WIDTH as u32) as i32, (index as u32 / WIDTH as u32) as i32)
    }

    pub fn as_byte(self) -> (r: u8)
        requires
            self.encodable(),
        ensures
            r == self.index_spec(),
    {
        (self.1 as u32 * WIDTH as u32 + self.0 as u32) as u8
    }

    pub fn add(self, other: Point) -> (r: Point)
        requires
            i32::MIN <= self.0 + other.0 <= i32::MAX,
            i32::MIN <= self.1 + other.1 <= i32::MAX,
        ensures
            r == Point((self.0 + other.0) as i32, (self.1 + other.1) as i32),
    {
        Point(self.0 + other.0, self.1 + other.1)
    }

    pub fn neg(self) -> (r: Point)
        requires
            self.0 > i32::MIN,
            self.1 > i32::MIN,
        ensures
            r.0 == -self.0,
            r.1 == -self.1,
    {
        Point(-self.0, -self.1)
    }

    pub fn sub(self, other: Point) -> (r: Point)
        requires
            i32::MIN <= self.0 - other.0 <= i32::MAX,
            i32::MIN <= self.1 - other.1 <= i32::MAX,
        ensures
            r == Point((self.0 - other.0) as i32, (self.1 - other.1) as i32),
    {
        Point(self.0 - other.0, self.1 - other.1)
    }

    pub fn cheby_norm(self) -> (r: i32)
        requires
            self.small(),
        ensures
            r == self.cheby_spec(),
    {
        let x = if self.0 < 0 { -self.0 } else { self.0 };
        let y = if self.1 < 0 { -self.1 } else { self.1 };
        if x < y { y } else { x }
    }

    pub fn cheby_dist(self, other: Point) -> (r: i32)
        requires
            self.near_origin(),
            other.near_origin(),
        ensures
            r == cheby_between(self, other),
    {
        self.sub(other).cheby_norm()
    }

    pub fn taxi_norm(self) -> (r: i32)
        requires
            self.small(),
        ensures
            r == self.taxi_spec(),
    {
        let x = if self.0 < 0 { -self.0 } else { self.0 };
        let y = if self.1 < 0 { -self.1 } else { self.1 };
        x + y
    }

    pub fn taxi_dist(self, other: Point) -> (r: i32)
        requires
            self.near_origin(),
            other.near_origin(),
        ensures
            r == taxi_between(self, other),
    {
        self.sub(other).taxi_norm()
    }
}

/// Chebyshev distance between two points.
pub open spec fn cheby_between(a: Point, b: Point) -> int {
    max(abs(a.0 - b.0), abs(a.1 - b.1))
}

/// Taxicab distance between two points.
pub open spec fn taxi_between(a: Point, b: Point) -> int {
    abs(a.0 - b.0) + abs(a.1 - b.1)
}

/// The rectangle between two corners, both included.
#[derive(Clone, Copy, Debug, PartialEq, Eq, Structural)]
pub struct Rectangle(pub Point, pub Point);

impl Rectangle {
    /// Corners whose coordinates stay small when grown by up to `r`.
    pub open spec fn modest(self) -> bool {
        -0x1000_0000 < self.0.0 < 0x1000_0000 && -0x1000_0000 < self.0.1 < 0x1000_0000 && -0x1000_0000
            < self.1.0 < 0x1000_0000 && -0x1000_0000 < self.1.1 < 0x1000_0000
    }

    /// The board, corner to corner.
    pub fn board() -> (r: Rectangle)
        ensures
            r == Rectangle(Point(0, 0), Point(18, 12)),
    {
        Rectangle(Point(0, 0), Point(WIDTH as i32 - 1, HEIGHT as i32 - 1))
    }

    /// The rectangle of the single point `p`.
    pub fn point(p: Point) -> (r: Rectangle)
        ensures
            r == Rectangle(p, p),
    {
        Rectangle(p, p)
    }

    /// The same rectangle with its first corner the smaller on both axes.
    pub fn correct(self) -> (r: Rectangle)
        ensures
            r.0.0 == if self.0.0 < self.1.0 { self.0.0 } else { self.1.0 },
            r.0.1 == if self.0.1 < self.1.1 { self.0.1 } else { self.1.1 },
            r.1.0 == if self.0.0 < self.1.0 { self.1.0 } else { self.0.0 },
            r.1.1 == if self.0.1 < self.1.1 { self.1.1 } else { self.0.1 },
    {
        let Rectangle(Point(x1, y1), Point(x2, y2)) = self;
        Rectangle(
            Point(if x1 < x2 { x1 } else { x2 }, if y1 < y2 { y1 } else { y2 }),
            Point(if x1 < x2 { x2 } else { x1 }, if y1 < y2 { y2 } else { y1 }),
        )
    }

    /// The rectangle grown by `r` on every side (shrunk for negative `r`).
    pub fn grow(self, r: i32) -> (g: Rectangle)
        requires
            self.modest(),
            -0x1000_0000 < r < 0x1000_0000,
        ensures
            g.0.0 == self.0.0 - r,
            g.0.1 == self.0.1 - r,
            g.1.0 == self.1.0 + r,
            g.1.1 == self.1.1 + r,
    {
        Rectangle(Point(self.0.0 - r, self.0.1 - r), Point(self.1.0 + r, self.1.1 + r))
    }

    pub fn shrink(self, r: i32) -> (g: Rectangle)
        requires
            self.modest(),
            -0x1000_0000 < r < 0x1000_0000,
        ensures
            g.0.0 == self.0.0 + r,
            g.0.1 == self.0.1 + r,
            g.1.0 == self.1.0 - r,
            g.1.1 == self.1.1 - r,
    {
        self.grow(-r)
    }

    pub fn width(self) -> (w: i32)
        requires
            self.modest(),
        ensures
            w == self.1.0 - self.0.0 + 1,
    {
        self.1.0 - self.0.0 + 1
    }

    pub fn height(self) -> (h: i32)
        requires
            self.modest(),
        ensures
            h == self.1.1 - self.0.1 + 1,
    {
        self.1.1 - self.0.1 + 1
    }

    /// The number of points, for a corrected rectangle of at most `i32::MAX` points.
    pub fn area(self) -> (a: i32)
        requires
            self.modest(),
            (self.1.0 - self.0.0 + 1) * (self.1.1 - self.0.1 + 1) <= i32::MAX,
            (self.1.0 - self.0.0 + 1) * (self.1.1 - self.0.1 + 1) >= i32::MIN,
        ensures
            a == (self.1.0 - self.0.0 + 1) * (self.1.1 - self.0.1 + 1),
    {
        self.width() * self.height()
    }

    pub open spec fn contains_spec(self, p: Point) -> bool {
        self.0.0 <= p.0 <= self.1.0 && self.0.1 <= p.1 <= self.1.1
    }

    pub fn contains(self, point: Point) -> (r: bool)
        ensures
            r == self.contains_spec(point),
    {
        let Rectangle(Point(x1, y1), Point(x2, y2)) = self;
        let Point(x, y) = point;
        x1 <= x && x <= x2 && y1 <= y && y <= y2
    }

    /// The points of the rectangle in row order.
    pub fn points(self) -> (r: Vec<Point>)
        requires
            self.modest(),
        ensures
            forall|p: Point| self.contains_spec(p) <==> r@.contains(p),
    {
        let mut r: Vec<Point> = Vec::new();
        if self.0.0 > self.1.0 || self.0.1 > self.1.1 {
            return r;
        }
        let mut y = self.0.1;
        while y <= self.1.1
            invariant
                self.modest(),
                self.0.0 <= self.1.0,
                self.0.1 <= y <= self.1.1 + 1,
                forall|p: Point| (self.contains_spec(p) && p.1 < y) <==> r@.contains(p),
            decreases self.1.1 + 1 - y,
        {
            let mut x = self.0.0;
            while x <= self.1.0
                invariant
                    self.modest(),
                    self.0.1 <= y <= self.1.1,
                    self.0.0 <= x <= self.1.0 + 1,
                    forall|p: Point|
                        (self.contains_spec(p) && (p.1 < y || (p.1 == y && p.0 < x))) <==> r@.contains(p),
                decreases self.1.0 + 1 - x,
            {
                let ghost before = r@;
                r.push(Point(x, y));
                proof {
                    assert forall|p: Point|
                        (self.contains_spec(p) && (p.1 < y || (p.1 == y && p.0 < x + 1))) <==> r@.contains(p) by {
                        if p.0 == x && p.1 == y {
                            assert(p == Point(x, y));
                            assert(r@[r@.len() - 1] == p);
                        } else if r@.contains(p) {
                            let j = choose|j: int| 0 <= j < r@.len() && r@[j] == p;
                            assert(before[j] == p);
                        } else if self.contains_spec(p) && (p.1 < y || (p.1 == y && p.0 < x)) {
                            let j = choose|j: int| 0 <= j < before.len() && before[j] == p;
                            assert(r@[j] == p);
                        }
                    }
                }
                x = x + 1;
            }
            y = y + 1;
        }
        r
    }
}

} // verus!
