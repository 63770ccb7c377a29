//! Points, vectors and axis-aligned collision rectangles.

use vstd::prelude::*;
use crate::config::SUBPIXELS;

verus! {

/// Largest and smallest value of an `i32`, as mathematical integers.
pub open spec fn clamp_i32(v: int) -> int {
    if v > i32::MAX {
        i32::MAX as int
    } else if v < i32::MIN {
        i32::MIN as int
    } else {
        v
    }
}

/// `v` held in an `i64`: the nearest end of its range where it lies beyond.
pub open spec fn sat_i64(v: int) -> int {
    if v > i64::MAX {
        i64::MAX as int
    } else if v < i64::MIN {
        i64::MIN as int
    } else {
        v
    }
}

/// `a + b`, saturating at the ends of the `i64` range.
pub fn add_saturating(a: i64, b: i64) -> (r: i64)
    ensures
        r == sat_i64(a + b),
{
    let s = a as i128 + b as i128;
    if s > i64::MAX as i128 {
        i64::MAX
    } else if s < i64::MIN as i128 {
        i64::MIN
    } else {
        s as i64
    }
}

/// A position or an extent, in hundredths of a pixel.
#[derive(PartialEq, Eq, Structural, Debug, Clone, Copy)]
pub struct Vector2 {
    pub x: i64,
    pub y: i64,
}

impl Vector2 {
    pub fn new(x: i64, y: i64) -> (r: Vector2)
        ensures
            r.x == x,
            r.y == y,
    {
        Vector2 { x, y }
    }

    /// The vector of `x` by `y` whole pixels.
    pub fn from_pixels(x: i32, y: i32) -> (r: Vector2)
        ensures
            r.x == x * SUBPIXELS,
            r.y == y * SUBPIXELS,
    {
        Vector2 { x: x as i64 * SUBPIXELS, y: y as i64 * SUBPIXELS }
    }
}

/// A point on the screen in whole pixels.
#[derive(PartialEq, Eq, Structural, Debug, Clone, Copy)]
pub struct PixelPoint {
    pub x: i32,
    pub y: i32,
}

/// A position on the playfield, in hundredths of a pixel; the vertical axis
/// points down.
#[derive(PartialEq, Eq, Structural, Debug, Clone, Copy)]
pub struct GamePoint {
    pub x: i64,
    pub y: i64,
}

/// `v` hundredths of a pixel, rounded down to whole pixels and held in an `i32`.
pub open spec fn pixel_of(v: i64) -> int {
    clamp_i32(v as int / SUBPIXELS as int)
}

fn to_pixel(v: i64) -> (r: i32)
    ensures
        r == pixel_of(v),
{
    let q = v / SUBPIXELS;
    let m = v % SUBPIXELS;
    let f = if m < 0 { q - 1 } else { q };
    assert(f as int == v as int / SUBPIXELS as int);
    if f > i32::MAX as i64 {
        i32::MAX
    } else if f < i32::MIN as i64 {
        i32::MIN
    } else {
        f as i32
    }
}

impl GamePoint {
    /// The point at `x`, `y` whole pixels.
    pub fn new(x: i32, y: i32) -> (r: GamePoint)
        ensures
            r.x == x * SUBPIXELS,
            r.y == y * SUBPIXELS,
    {
        GamePoint { x: x as i64 * SUBPIXELS, y: y as i64 * SUBPIXELS }
    }

    pub open spec fn spec_in_rect(self, corner: GamePoint, width: u8, height: u8) -> bool {
        &&& corner.x <= self.x <= corner.x + width * SUBPIXELS
        &&& corner.y - height * SUBPIXELS <= self.y <= corner.y
    }

    /// Whether the point lies in the rectangle whose corner is `rect_corner`,
    /// `width` pixels to the right and `height` pixels upward (toward smaller
    /// `y`), edges included.
    pub fn in_rect(&self, rect_corner: &GamePoint, width: &u8, height: &u8) -> (r: bool)
        ensures
            r == self.spec_in_rect(*rect_corner, *width, *height),
    {
        let x = self.x as i128;
        let y = self.y as i128;
        let cx = rect_corner.x as i128;
        let cy = rect_corner.y as i128;
        let w = *width as i128 * 100;
        let h = *height as i128 * 100;
        x >= cx && x <= cx + w && y <= cy && y >= cy - h
    }

    /// The point as a vector.
    pub fn to_vector(&self) -> (r: Vector2)
        ensures
            r.x == self.x,
            r.y == self.y,
    {
        Vector2 { x: self.x, y: self.y }
    }

    pub open spec fn spec_to_pixel(self) -> PixelPoint {
        PixelPoint { x: pixel_of(self.x) as i32, y: pixel_of(self.y) as i32 }
    }

    /// The pixel that holds the point: both coordinates rounded down.
    pub fn to_pixel(&self) -> (r: PixelPoint)
        ensures
            r == self.spec_to_pixel(),
    {
        PixelPoint { x: to_pixel(self.x), y: to_pixel(self.y) }
    }
}

/// An axis-aligned rectangle: its top-left corner and its extent, both in
/// hundredths of a pixel.
#[derive(PartialEq, Eq, Structural, Debug, Clone, Copy)]
pub struct CollisionRectangle {
    pub position: Vector2,
    pub size: Vector2,
}

/// Whether two rectangles share some area: each one's far edge lies strictly
/// beyond the other's near edge, on both axes. Rectangles that only touch
/// along an edge do not intersect.
pub open spec fn rects_intersect(a: CollisionRectangle, b: CollisionRectangle) -> bool {
    &&& a.position.x + a.size.x > b.position.x
    &&& b.position.x + b.size.x > a.position.x
    &&& a.position.y + a.size.y > b.position.y
    &&& b.position.y + b.size.y > a.position.y
}

/// A rectangle of positive width and height.
pub open spec fn has_area(r: CollisionRectangle) -> bool {
    r.size.x > 0 && r.size.y > 0
}

/// Whether `inner` lies within `outer`, edges included.
pub open spec fn nested_in(inner: CollisionRectangle, outer: CollisionRectangle) -> bool {
    &&& outer.position.x <= inner.position.x
    &&& inner.position.x + inner.size.x <= outer.position.x + outer.size.x
    &&& outer.position.y <= inner.position.y
    &&& inner.position.y + inner.size.y <= outer.position.y + outer.size.y
}

impl CollisionRectangle {
    pub fn new(position: Vector2, size: Vector2) -> (r: CollisionRectangle)
        ensures
            r.position == position,
            r.size == size,
    {
        CollisionRectangle { position, size }
    }

    pub fn intersects(&self, other: &Self) -> (r: bool)
        ensures
            r == rects_intersect(*self, *other),
    {
        let self_right = self.position.x as i128 + self.size.x as i128;
        let self_bottom = self.position.y as i128 + self.size.y as i128;
        let other_right = other.position.x as i128 + other.size.x as i128;
        let other_bottom = other.position.y as i128 + other.size.y as i128;
        self_right > other.position.x as i128 && other_right > self.position.x as i128
            && self_bottom > other.position.y as i128 && other_bottom > self.position.y as i128
    }
}

/// Intersection does not depend on the order of the two rectangles.
pub proof fn lemma_intersects_symmetric(a: CollisionRectangle, b: CollisionRectangle)
    ensures
        rects_intersect(a, b) == rects_intersect(b, a),
{
}

/// Two rectangles that meet only along a vertical edge (one starts where the
/// other ends) do not intersect.
pub proof fn lemma_touching_do_not_intersect(a: CollisionRectangle, b: CollisionRectangle)
    requires
        b.position.x == a.position.x + a.size.x || a.position.x == b.position.x + b.size.x
            || b.position.y == a.position.y + a.size.y || a.position.y == b.position.y
            + b.size.y,
    ensures
        !rects_intersect(a, b),
{
}

/// A rectangle with area that lies within another intersects it.
pub proof fn lemma_nested_intersect(inner: CollisionRectangle, outer: CollisionRectangle)
    requires
        has_area(inner),
        nested_in(inner, outer),
    ensures
        rects_intersect(inner, outer),
        rects_intersect(outer, inner),
{
}

/// A rectangle with area intersects itself.
pub proof fn lemma_identical_intersect(a: CollisionRectangle)
    requires
        has_area(a),
    ensures
        rects_intersect(a, a),
{
}

} // verus!
