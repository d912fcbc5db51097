use vstd::prelude::*;

verus! {

/// A position in logical pixels. Coordinates may be negative: a widget may
/// ask to be placed partly off-screen.
#[derive(Clone, Copy, Debug, PartialEq, Eq, Structural)]
pub struct Point {
    pub x: i64,
    pub y: i64,
}

/// A size in logical pixels.
#[derive(Clone, Copy, Debug, PartialEq, Eq, Structural)]
pub struct Size {
    pub width: u32,
    pub height: u32,
}

/// An axis-aligned rectangle given by its top-left corner and its size.
#[derive(Clone, Copy, Debug, PartialEq, Eq, Structural)]
pub struct Rect {
    pub origin: Point,
    pub size: Size,
}

impl Point {
    pub fn new(x: i64, y: i64) -> (r: Point)
        ensures
            r.x == x,
            r.y == y,
    {
        Point { x, y }
    }
}

impl Size {
    pub fn new(width: u32, height: u32) -> (r: Size)
        ensures
            r.width == width,
            r.height == height,
    {
        Size { width, height }
    }

    pub fn zero() -> (r: Size)
        ensures
            r.width == 0,
            r.height == 0,
    {
        Size { width: 0, height: 0 }
    }
}

impl Rect {
    /// Whether `p` lies inside this rectangle (left and top edges included,
    /// right and bottom edges excluded).
    pub open spec fn contains_spec(self, p: Point) -> bool {
        self.origin.x <= p.x && p.x < self.origin.x + self.size.width && self.origin.y <= p.y
            && p.y < self.origin.y + self.size.height
    }

    pub fn new(origin: Point, size: Size) -> (r: Rect)
        ensures
            r.origin == origin,
            r.size == size,
    {
        Rect { origin, size }
    }

    /// A rectangle of the given size at the origin.
    pub fn from_size(size: Size) -> (r: Rect)
        ensures
            r.origin == (Point { x: 0, y: 0 }),
            r.size == size,
    {
        Rect { origin: Point { x: 0, y: 0 }, size }
    }

    pub fn min_x(&self) -> (r: i64)
        ensures
            r == self.origin.x,
    {
        self.origin.x
    }

    pub fn min_y(&self) -> (r: i64)
        ensures
            r == self.origin.y,
    {
        self.origin.y
    }

    pub fn width(&self) -> (r: u32)
        ensures
            r == self.size.width,
    {
        self.size.width
    }

    pub fn height(&self) -> (r: u32)
        ensures
            r == self.size.height,
    {
        self.size.height
    }

    pub fn contains(&self, p: Point) -> (r: bool)
        ensures
            r == self.contains_spec(p),
    {
        let x0: i128 = self.origin.x as i128;
        let y0: i128 = self.origin.y as i128;
        let px: i128 = p.x as i128;
        let py: i128 = p.y as i128;
        x0 <= px && px < x0 + self.size.width as i128 && y0 <= py && py < y0
            + self.size.height as i128
    }
}

} // verus!
