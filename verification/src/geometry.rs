//! Points, sizes and rectangles on the pixel grid.
//!
//! Coordinates are `i32`, extents are `u32`; every specification is stated
//! over mathematical integers, so that no statement depends on wrap-around.
use vstd::prelude::*;

verus! {

/// A position on the pixel grid.
#[derive(Clone, Copy, Debug, PartialEq, Eq, Structural)]
pub struct Point {
    pub x: i32,
    pub y: i32,
}

/// A width and a height in pixels.
#[derive(Clone, Copy, Debug, PartialEq, Eq, Structural)]
pub struct Size {
    pub width: u32,
    pub height: u32,
}

/// An axis-aligned rectangle: its top-left pixel and its extent.
///
/// The rectangle covers the pixels `(x, y)` with `left() <= x < right()` and
/// `top() <= y < bottom()`. A rectangle with a zero width or height covers
/// nothing.
#[derive(Clone, Copy, Debug, PartialEq, Eq, Structural)]
pub struct Rectangle {
    pub top_left: Point,
    pub size: Size,
}

impl Point {
    pub fn new(x: i32, y: i32) -> (p: Self)
        ensures
            p == (Point { x, y }),
    {
        Point { x, y }
    }

    pub fn zero() -> (p: Self)
        ensures
            p == (Point { x: 0, y: 0 }),
    {
        Point { x: 0, y: 0 }
    }
}

impl Size {
    pub fn new(width: u32, height: u32) -> (s: Self)
        ensures
            s == (Size { width, height }),
    {
        Size { width, height }
    }

    pub fn zero() -> (s: Self)
        ensures
            s == (Size { width: 0, height: 0 }),
    {
        Size { width: 0, height: 0 }
    }
}

impl Rectangle {
    /// The column of the leftmost pixel.
    pub open spec fn left(self) -> int {
        self.top_left.x as int
    }

    /// The row of the topmost pixel.
    pub open spec fn top(self) -> int {
        self.top_left.y as int
    }

    /// The column just past the rightmost pixel.
    pub open spec fn right(self) -> int {
        self.top_left.x + self.size.width
    }

    /// The row just past the bottommost pixel.
    pub open spec fn bottom(self) -> int {
        self.top_left.y + self.size.height
    }

    /// Whether the pixel at `(x, y)` lies in the rectangle.
    pub open spec fn covers(self, x: int, y: int) -> bool {
        self.left() <= x < self.right() && self.top() <= y < self.bottom()
    }

    /// Whether `point` lies in the rectangle.
    pub open spec fn spec_contains(self, point: Point) -> bool {
        self.covers(point.x as int, point.y as int)
    }

    /// Whether the rectangle covers no pixel at all.
    pub open spec fn is_empty(self) -> bool {
        self.size.width == 0 || self.size.height == 0
    }

    /// Whether every pixel of the rectangle has `i32` coordinates, so that
    /// positions inside it can be handed out as [`Point`]s.
    pub open spec fn representable(self) -> bool {
        self.right() <= i32::MAX && self.bottom() <= i32::MAX
    }

    /// Whether every pixel of `inner` is a pixel of `self`.
    pub open spec fn encloses(self, inner: Rectangle) -> bool {
        inner.is_empty() || (self.left() <= inner.left() && inner.right() <= self.right()
            && self.top() <= inner.top() && inner.bottom() <= self.bottom())
    }

    /// Whether the two rectangles share no pixel.
    pub open spec fn disjoint(self, other: Rectangle) -> bool {
        self.is_empty() || other.is_empty() || self.right() <= other.left() || other.right()
            <= self.left() || self.bottom() <= other.top() || other.bottom() <= self.top()
    }

    /// The rectangle without a margin of `margin.width` at its left and right
    /// and of `margin.height` at its top and bottom. Where the margins do not
    /// leave anything of a side, the result is empty and lies at the far edge.
    pub open spec fn spec_inset(self, margin: Size) -> Rectangle {
        Rectangle {
            top_left: Point {
                x: (self.left() + if margin.width <= self.size.width {
                    margin.width
                } else {
                    self.size.width
                }) as i32,
                y: (self.top() + if margin.height <= self.size.height {
                    margin.height
                } else {
                    self.size.height
                }) as i32,
            },
            size: Size {
                width: if 2 * margin.width <= self.size.width {
                    (self.size.width - 2 * margin.width) as u32
                } else {
                    0
                },
                height: if 2 * margin.height <= self.size.height {
                    (self.size.height - 2 * margin.height) as u32
                } else {
                    0
                },
            },
        }
    }

    pub fn new(top_left: Point, size: Size) -> (r: Self)
        ensures
            r == (Rectangle { top_left, size }),
    {
        Rectangle { top_left, size }
    }

    /// Takes a margin off each side of the rectangle.
    pub fn inset(&self, margin: Size) -> (inner: Rectangle)
        requires
            self.representable(),
        ensures
            inner == self.spec_inset(margin),
            inner.representable(),
            self.left() <= inner.left() && inner.right() <= self.right(),
            self.top() <= inner.top() && inner.bottom() <= self.bottom(),
    {
        let width: u64 = self.size.width as u64;
        let height: u64 = self.size.height as u64;
        let across: u64 = margin.width as u64;
        let down: u64 = margin.height as u64;
        let x: i64 = self.top_left.x as i64 + (if across <= width {
            across
        } else {
            width
        }) as i64;
        let y: i64 = self.top_left.y as i64 + (if down <= height {
            down
        } else {
            height
        }) as i64;
        Rectangle {
            top_left: Point { x: x as i32, y: y as i32 },
            size: Size {
                width: if 2 * across <= width {
                    (width - 2 * across) as u32
                } else {
                    0
                },
                height: if 2 * down <= height {
                    (height - 2 * down) as u32
                } else {
                    0
                },
            },
        }
    }

    /// Tells whether `point` lies inside the rectangle. The left and top edges
    /// belong to it, the right and bottom edges (one past the last pixel) do
    /// not; an empty rectangle contains no point.
    pub fn contains(&self, point: Point) -> (inside: bool)
        ensures
            inside == self.spec_contains(point),
    {
        let x: i64 = point.x as i64;
        let y: i64 = point.y as i64;
        let left: i64 = self.top_left.x as i64;
        let top: i64 = self.top_left.y as i64;
        let right: i64 = left + self.size.width as i64;
        let bottom: i64 = top + self.size.height as i64;
        left <= x && x < right && top <= y && y < bottom
    }

    /// Tells whether the rectangle covers no pixel.
    pub fn is_zero_sized(&self) -> (empty: bool)
        ensures
            empty == self.is_empty(),
    {
        self.size.width == 0 || self.size.height == 0
    }

    /// Two rectangles are disjoint exactly when no pixel lies in both.
    pub proof fn lemma_disjoint_shares_no_pixel(self, other: Rectangle)
        ensures
            self.disjoint(other) <==> (forall|x: int, y: int|
                !(#[trigger] self.covers(x, y) && other.covers(x, y))),
    {
        if !self.disjoint(other) {
            let x = if self.left() >= other.left() {
                self.left()
            } else {
                other.left()
            };
            let y = if self.top() >= other.top() {
                self.top()
            } else {
                other.top()
            };
            assert(self.covers(x, y) && other.covers(x, y));
        }
    }

    /// A rectangle enclosed by another holds none of the pixels outside it.
    pub proof fn lemma_encloses_pixels(self, inner: Rectangle)
        ensures
            self.encloses(inner) <==> (forall|x: int, y: int| #[trigger]
                inner.covers(x, y) ==> self.covers(x, y)),
    {
        if !self.encloses(inner) {
            assert(inner.covers(inner.left(), inner.top()));
            assert(inner.covers(inner.right() - 1, inner.bottom() - 1));
        }
    }
}

} // verus!
