//! Points, sizes and rectangles on the panel's pixel grid.
//!
//! The types hold the same plain numbers as their namesakes in
//! `embedded_graphics_core`, so that a caller converts field by field.

use vstd::prelude::*;

verus! {

/// A position on the pixel grid; `x` grows to the right, `y` downwards.
#[derive(Copy, Clone, Debug, PartialEq, Eq, Structural)]
pub struct Point {
    pub x: i32,
    pub y: i32,
}

/// A width and a height in pixels.
#[derive(Copy, Clone, Debug, PartialEq, Eq, Structural)]
pub struct Size {
    pub width: u32,
    pub height: u32,
}

/// A rectangle given by its top left corner and its size.
///
/// A rectangle whose width or height is zero covers no pixel.
#[derive(Copy, Clone, Debug, PartialEq, Eq, Structural)]
pub struct Rectangle {
    pub top_left: Point,
    pub size: Size,
}

/// A colour value painted at a position.
#[derive(Copy, Clone, Debug, PartialEq, Eq, Structural)]
pub struct Pixel(pub Point, pub u16);

pub open spec fn max_int(a: int, b: int) -> int {
    if a >= b {
        a
    } else {
        b
    }
}

pub open spec fn min_int(a: int, b: int) -> int {
    if a <= b {
        a
    } else {
        b
    }
}

impl Point {
    pub fn new(x: i32, y: i32) -> (p: Point)
        ensures
            p == (Point { x, y }),
    {
        Point { x, y }
    }

    /// The origin.
    pub fn zero() -> (p: Point)
        ensures
            p == (Point { x: 0, y: 0 }),
    {
        Point { x: 0, y: 0 }
    }

    /// Component-wise difference `self - other`.
    pub fn offset_from(self, other: Point) -> (p: Point)
        requires
            i32::MIN <= self.x - other.x <= i32::MAX,
            i32::MIN <= self.y - other.y <= i32::MAX,
        ensures
            p.x == self.x - other.x,
            p.y == self.y - other.y,
    {
        Point { x: self.x - other.x, y: self.y - other.y }
    }
}

impl Size {
    pub fn new(width: u32, height: u32) -> (s: Size)
        ensures
            s == (Size { width, height }),
    {
        Size { width, height }
    }
}

impl Rectangle {
    /// The rectangle at the origin that covers no pixel.
    pub open spec fn spec_zero() -> Rectangle {
        Rectangle { top_left: Point { x: 0, y: 0 }, size: Size { width: 0, height: 0 } }
    }

    pub open spec fn spec_is_zero_sized(&self) -> bool {
        self.size.width == 0 || self.size.height == 0
    }

    /// First column of the rectangle.
    pub open spec fn left(self) -> int {
        self.top_left.x as int
    }

    /// First row of the rectangle.
    pub open spec fn top(self) -> int {
        self.top_left.y as int
    }

    /// The column just past the rectangle's last one.
    pub open spec fn right(self) -> int {
        self.top_left.x + self.size.width
    }

    /// The row just past the rectangle's last one.
    pub open spec fn bottom(self) -> int {
        self.top_left.y + self.size.height
    }

    /// Whether the pixel at column `x`, row `y` lies in the rectangle.
    pub open spec fn covers(self, x: int, y: int) -> bool {
        self.left() <= x < self.right() && self.top() <= y < self.bottom()
    }

    /// Whether the two rectangles have a pixel in common.
    pub open spec fn overlaps(self, other: Rectangle) -> bool {
        &&& max_int(self.left(), other.left()) < min_int(self.right(), other.right())
        &&& max_int(self.top(), other.top()) < min_int(self.bottom(), other.bottom())
    }

    /// The bottom right corner can be computed in `i32`: the rectangle is
    /// zero sized, or neither `top_left + size` nor the size itself leaves
    /// the range of `i32`.
    pub open spec fn corner_fits(self) -> bool {
        self.spec_is_zero_sized() || (self.right() <= i32::MAX && self.bottom() <= i32::MAX
            && self.size.width <= i32::MAX && self.size.height <= i32::MAX)
    }

    /// The last pixel of the rectangle, or `None` where it covers no pixel.
    pub open spec fn spec_bottom_right(&self) -> Option<Point> {
        if self.spec_is_zero_sized() {
            None
        } else {
            Some(Point { x: (self.right() - 1) as i32, y: (self.bottom() - 1) as i32 })
        }
    }

    /// The pixels that both rectangles cover, as a rectangle.
    ///
    /// Where they have none in common the result is the zero sized
    /// rectangle at the origin, with one exception: a zero sized rectangle
    /// whose corner lies in the other, non-empty one is returned as it is.
    pub open spec fn spec_intersection(&self, other: &Rectangle) -> Rectangle {
        if self.overlaps(*other) {
            Rectangle {
                top_left: Point {
                    x: max_int(self.left(), other.left()) as i32,
                    y: max_int(self.top(), other.top()) as i32,
                },
                size: Size {
                    width: (min_int(self.right(), other.right()) - max_int(
                        self.left(),
                        other.left(),
                    )) as u32,
                    height: (min_int(self.bottom(), other.bottom()) - max_int(
                        self.top(),
                        other.top(),
                    )) as u32,
                },
            }
        } else if self.spec_is_zero_sized() && !other.spec_is_zero_sized() && other.covers(
            self.left(),
            self.top(),
        ) {
            *self
        } else if other.spec_is_zero_sized() && !self.spec_is_zero_sized() && self.covers(
            other.left(),
            other.top(),
        ) {
            *other
        } else {
            Rectangle::spec_zero()
        }
    }

    pub fn new(top_left: Point, size: Size) -> (r: Rectangle)
        ensures
            r == (Rectangle { top_left, size }),
    {
        Rectangle { top_left, size }
    }

    /// The rectangle at the origin that covers no pixel.
    #[verifier::when_used_as_spec(spec_zero)]
    pub fn zero() -> (r: Rectangle)
        ensures
            r == Rectangle::spec_zero(),
    {
        Rectangle { top_left: Point { x: 0, y: 0 }, size: Size { width: 0, height: 0 } }
    }

    /// Whether the rectangle covers no pixel.
    #[verifier::when_used_as_spec(spec_is_zero_sized)]
    pub fn is_zero_sized(&self) -> (b: bool)
        ensures
            b == self.spec_is_zero_sized(),
    {
        self.size.width == 0 || self.size.height == 0
    }

    /// Tells whether the bottom right corner can be computed in `i32`.
    pub fn corner_in_range(&self) -> (ok: bool)
        ensures
            ok == self.corner_fits(),
    {
        self.is_zero_sized() || (self.size.width <= 0x7fff_ffff && self.size.height <= 0x7fff_ffff
            && self.top_left.x <= 0x7fff_ffff - (self.size.width as i32) && self.top_left.y
            <= 0x7fff_ffff - (self.size.height as i32))
    }

    /// The last pixel of the rectangle, or `None` where it covers no pixel.
    #[verifier::when_used_as_spec(spec_bottom_right)]
    pub fn bottom_right(&self) -> (corner: Option<Point>)
        requires
            self.corner_fits(),
        ensures
            corner == self.spec_bottom_right(),
    {
        if self.size.width > 0 && self.size.height > 0 {
            Some(
                Point {
                    x: self.top_left.x + (self.size.width as i32) - 1,
                    y: self.top_left.y + (self.size.height as i32) - 1,
                },
            )
        } else {
            None
        }
    }
}

/// Calls `Rectangle::intersection` of `embedded_graphics_core` on the two
/// rectangles.
///
/// Trusted: that method returns the rectangle spanned by the larger of the
/// two top left corners and the smaller of the two bottom right corners
/// where the rectangles share a pixel; a zero sized argument whose corner
/// lies inside the other, non-empty argument unchanged; and the zero sized
/// rectangle at the origin in every other case. It computes both bottom
/// right corners in `i32`, which is why both must fit.
#[verifier::external_body]
pub(crate) fn intersect(a: &Rectangle, b: &Rectangle) -> (r: Rectangle)
    requires
        a.corner_fits(),
        b.corner_fits(),
    ensures
        r == a.spec_intersection(b),
{
    let first = embedded_graphics_core::primitives::Rectangle::new(
        embedded_graphics_core::geometry::Point::new(a.top_left.x, a.top_left.y),
        embedded_graphics_core::geometry::Size::new(a.size.width, a.size.height),
    );
    let second = embedded_graphics_core::primitives::Rectangle::new(
        embedded_graphics_core::geometry::Point::new(b.top_left.x, b.top_left.y),
        embedded_graphics_core::geometry::Size::new(b.size.width, b.size.height),
    );
    let both = first.intersection(&second);
    Rectangle {
        top_left: Point { x: both.top_left.x, y: both.top_left.y },
        size: Size { width: both.size.width, height: both.size.height },
    }
}

} // verus!
