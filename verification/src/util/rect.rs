//! Integer vectors and axis-aligned integer rectangles.
//!
//! A rectangle is stored by its two corners, `min` (inclusive) and `max`
//! (exclusive). Nothing forces `min <= max`: a client may describe a rectangle
//! with a negative width, and such a rectangle contains no point.
use vstd::prelude::*;

verus! {

/// `v` is representable as an `i32`.
pub open spec fn fits_i32(v: int) -> bool {
    i32::MIN <= v <= i32::MAX
}

/// The smaller of two integers.
pub open spec fn min_i(a: int, b: int) -> int {
    if a <= b { a } else { b }
}

/// The larger of two integers.
pub open spec fn max_i(a: int, b: int) -> int {
    if a >= b { a } else { b }
}

/// Integer division by two, rounding toward zero (the rounding of `i32 / 2`).
pub open spec fn half_toward_zero(v: int) -> int {
    if v >= 0 { v / 2 } else { -((-v) / 2) }
}

/// A two-dimensional vector of `i32`.
#[derive(Clone, Copy, PartialEq, Eq, Debug, Hash, Structural)]
pub struct IVec2 {
    pub x: i32,
    pub y: i32,
}

/// The vector whose components are `x` and `y`, as a spec value.
pub open spec fn ivec2(x: int, y: int) -> IVec2 {
    IVec2 { x: x as i32, y: y as i32 }
}

impl IVec2 {
    pub fn new(x: i32, y: i32) -> (r: IVec2)
        ensures
            r.x == x,
            r.y == y,
    {
        IVec2 { x, y }
    }

    /// The zero vector.
    pub fn zero() -> (r: IVec2)
        ensures
            r.x == 0,
            r.y == 0,
    {
        IVec2 { x: 0, y: 0 }
    }

    /// `self` and `other` can be added without leaving `i32`.
    pub open spec fn can_add(self, other: IVec2) -> bool {
        fits_i32(self.x + other.x) && fits_i32(self.y + other.y)
    }

    /// `other` can be subtracted from `self` without leaving `i32`.
    pub open spec fn can_sub(self, other: IVec2) -> bool {
        fits_i32(self.x - other.x) && fits_i32(self.y - other.y)
    }

    /// Componentwise sum.
    pub fn add(self, other: IVec2) -> (r: IVec2)
        requires
            self.can_add(other),
        ensures
            r.x == self.x + other.x,
            r.y == self.y + other.y,
    {
        IVec2 { x: self.x + other.x, y: self.y + other.y }
    }

    /// Componentwise difference.
    pub fn sub(self, other: IVec2) -> (r: IVec2)
        requires
            self.can_sub(other),
        ensures
            r.x == self.x - other.x,
            r.y == self.y - other.y,
    {
        IVec2 { x: self.x - other.x, y: self.y - other.y }
    }

    /// Componentwise negation.
    pub fn neg(self) -> (r: IVec2)
        requires
            self.x != i32::MIN,
            self.y != i32::MIN,
        ensures
            r.x == -self.x,
            r.y == -self.y,
    {
        IVec2 { x: -self.x, y: -self.y }
    }
}

/// An axis-aligned rectangle given by its corners `min` and `max`.
#[derive(Clone, Copy, PartialEq, Eq, Debug, Hash, Structural)]
pub struct IRect {
    pub min: IVec2,
    pub max: IVec2,
}

/// The rectangle whose corners are `(x0, y0)` and `(x1, y1)`, as a spec value.
pub open spec fn irect(x0: int, y0: int, x1: int, y1: int) -> IRect {
    IRect { min: ivec2(x0, y0), max: ivec2(x1, y1) }
}

impl IRect {
    /// The width, as a mathematical integer.
    pub open spec fn spec_width(self) -> int {
        self.max.x - self.min.x
    }

    /// The height, as a mathematical integer.
    pub open spec fn spec_height(self) -> int {
        self.max.y - self.min.y
    }

    /// Width and height are representable as `i32`.
    pub open spec fn size_fits(self) -> bool {
        fits_i32(self.spec_width()) && fits_i32(self.spec_height())
    }

    /// The point lies in the rectangle: `min <= p < max` on both axes.
    pub open spec fn contains(self, p: IVec2) -> bool {
        &&& self.min.x <= p.x
        &&& p.x < self.max.x
        &&& self.min.y <= p.y
        &&& p.y < self.max.y
    }

    /// The smallest rectangle holding the corners of both.
    pub open spec fn spec_union(self, other: IRect) -> IRect {
        irect(
            min_i(self.min.x as int, other.min.x as int),
            min_i(self.min.y as int, other.min.y as int),
            max_i(self.max.x as int, other.max.x as int),
            max_i(self.max.y as int, other.max.y as int),
        )
    }

    /// The overlap of both rectangles; where they do not overlap on an axis,
    /// the lower corner is moved onto the upper one so that the result is empty.
    pub open spec fn spec_intersection(self, other: IRect) -> IRect {
        let lo_x = max_i(self.min.x as int, other.min.x as int);
        let lo_y = max_i(self.min.y as int, other.min.y as int);
        let hi_x = min_i(self.max.x as int, other.max.x as int);
        let hi_y = min_i(self.max.y as int, other.max.y as int);
        irect(min_i(lo_x, hi_x), min_i(lo_y, hi_y), hi_x, hi_y)
    }

    /// The rectangle at `(x, y)` with the given width and height.
    pub fn new(x: i32, y: i32, width: i32, height: i32) -> (r: IRect)
        requires
            fits_i32(x + width),
            fits_i32(y + height),
        ensures
            r == irect(x as int, y as int, x + width, y + height),
    {
        IRect { min: IVec2 { x, y }, max: IVec2 { x: x + width, y: y + height } }
    }

    /// The rectangle at `pos` with the given size.
    pub fn from_pos_size(pos: IVec2, size: IVec2) -> (r: IRect)
        requires
            pos.can_add(size),
        ensures
            r == irect(pos.x as int, pos.y as int, pos.x + size.x, pos.y + size.y),
    {
        IRect { min: pos, max: pos.add(size) }
    }

    /// The empty rectangle at the origin.
    pub fn zero() -> (r: IRect)
        ensures
            r == irect(0, 0, 0, 0),
    {
        IRect { min: IVec2::zero(), max: IVec2::zero() }
    }

    pub fn x(&self) -> (r: i32)
        ensures
            r == self.min.x,
    {
        self.min.x
    }

    pub fn y(&self) -> (r: i32)
        ensures
            r == self.min.y,
    {
        self.min.y
    }

    pub fn pos(&self) -> (r: IVec2)
        ensures
            r == self.min,
    {
        self.min
    }

    pub fn width(&self) -> (r: i32)
        requires
            fits_i32(self.spec_width()),
        ensures
            r == self.spec_width(),
    {
        self.max.x - self.min.x
    }

    pub fn height(&self) -> (r: i32)
        requires
            fits_i32(self.spec_height()),
        ensures
            r == self.spec_height(),
    {
        self.max.y - self.min.y
    }

    pub fn size(&self) -> (r: IVec2)
        requires
            self.size_fits(),
        ensures
            r.x == self.spec_width(),
            r.y == self.spec_height(),
    {
        IVec2 { x: self.max.x - self.min.x, y: self.max.y - self.min.y }
    }

    /// Moves the rectangle horizontally so that it starts at `x`; the width is kept.
    pub fn set_x(&mut self, x: i32)
        requires
            fits_i32(old(self).spec_width()),
            fits_i32(x + old(self).spec_width()),
        ensures
            *final(self) == irect(
                x as int,
                old(self).min.y as int,
                x + old(self).spec_width(),
                old(self).max.y as int,
            ),
    {
        let w = self.max.x - self.min.x;
        self.min.x = x;
        self.max.x = x + w;
    }

    /// Moves the rectangle vertically so that it starts at `y`; the height is kept.
    pub fn set_y(&mut self, y: i32)
        requires
            fits_i32(old(self).spec_height()),
            fits_i32(y + old(self).spec_height()),
        ensures
            *final(self) == irect(
                old(self).min.x as int,
                y as int,
                old(self).max.x as int,
                y + old(self).spec_height(),
            ),
    {
        let h = self.max.y - self.min.y;
        self.min.y = y;
        self.max.y = y + h;
    }

    /// Keeps the position and sets the width.
    pub fn set_width(&mut self, width: i32)
        requires
            fits_i32(old(self).min.x + width),
        ensures
            *final(self) == irect(
                old(self).min.x as int,
                old(self).min.y as int,
                old(self).min.x + width,
                old(self).max.y as int,
            ),
    {
        self.max.x = self.min.x + width;
    }

    /// Keeps the position and sets the size.
    pub fn set_size(&mut self, size: IVec2)
        requires
            old(self).min.can_add(size),
        ensures
            *final(self) == irect(
                old(self).min.x as int,
                old(self).min.y as int,
                old(self).min.x + size.x,
                old(self).min.y + size.y,
            ),
    {
        self.max = self.min.add(size);
    }

    /// The midpoint of the two corners, each component rounded toward zero.
    pub fn center(&self) -> (r: IVec2)
        requires
            self.min.can_add(self.max),
        ensures
            r.x == half_toward_zero(self.min.x + self.max.x),
            r.y == half_toward_zero(self.min.y + self.max.y),
    {
        let s = self.min.add(self.max);
        IVec2 { x: s.x / 2, y: s.y / 2 }
    }

    /// The smallest rectangle holding the corners of both rectangles.
    pub fn union(&self, other: IRect) -> (r: IRect)
        ensures
            r == self.spec_union(other),
    {
        IRect {
            min: IVec2 {
                x: if self.min.x <= other.min.x { self.min.x } else { other.min.x },
                y: if self.min.y <= other.min.y { self.min.y } else { other.min.y },
            },
            max: IVec2 {
                x: if self.max.x >= other.max.x { self.max.x } else { other.max.x },
                y: if self.max.y >= other.max.y { self.max.y } else { other.max.y },
            },
        }
    }

    /// The overlap of both rectangles (empty where they do not overlap).
    pub fn intersection(&self, other: IRect) -> (r: IRect)
        ensures
            r == self.spec_intersection(other),
    {
        let lo_x = if self.min.x >= other.min.x { self.min.x } else { other.min.x };
        let lo_y = if self.min.y >= other.min.y { self.min.y } else { other.min.y };
        let hi_x = if self.max.x <= other.max.x { self.max.x } else { other.max.x };
        let hi_y = if self.max.y <= other.max.y { self.max.y } else { other.max.y };
        IRect {
            min: IVec2 {
                x: if lo_x <= hi_x { lo_x } else { hi_x },
                y: if lo_y <= hi_y { lo_y } else { hi_y },
            },
            max: IVec2 { x: hi_x, y: hi_y },
        }
    }

    /// Whether `pos` lies in the rectangle (`min` inclusive, `max` exclusive).
    pub fn include_point(&self, pos: IVec2) -> (r: bool)
        ensures
            r == self.contains(pos),
    {
        self.min.x <= pos.x && pos.x < self.max.x && self.min.y <= pos.y && pos.y < self.max.y
    }

    /// Width times height.
    pub fn area(&self) -> (r: i64)
        requires
            self.size_fits(),
        ensures
            r == self.spec_width() * self.spec_height(),
    {
        let w = (self.max.x - self.min.x) as i64;
        let h = (self.max.y - self.min.y) as i64;
        assert(-0x8000_0000 <= w <= 0x7fff_ffff);
        assert(-0x8000_0000 <= h <= 0x7fff_ffff);
        assert(-0x4000_0000_0000_0000 <= w * h <= 0x4000_0000_0000_0000) by (nonlinear_arith)
            requires
                -0x8000_0000 <= w <= 0x7fff_ffff,
                -0x8000_0000 <= h <= 0x7fff_ffff,
        ;
        w * h
    }
}

/// A point lies in the intersection of two rectangles exactly when it lies in
/// both of them.
pub proof fn lemma_intersection_contains(a: IRect, b: IRect, p: IVec2)
    ensures
        a.spec_intersection(b).contains(p) <==> (a.contains(p) && b.contains(p)),
{
}

/// Every point of either rectangle lies in their union.
pub proof fn lemma_union_covers(a: IRect, b: IRect, p: IVec2)
    ensures
        a.contains(p) ==> a.spec_union(b).contains(p),
        b.contains(p) ==> a.spec_union(b).contains(p),
{
}

/// Union does not depend on the order of its arguments.
pub proof fn lemma_union_commutative(a: IRect, b: IRect)
    ensures
        a.spec_union(b) == b.spec_union(a),
{
}

/// Union is associative.
pub proof fn lemma_union_associative(a: IRect, b: IRect, c: IRect)
    ensures
        a.spec_union(b).spec_union(c) == a.spec_union(b.spec_union(c)),
{
}

/// An intersection never has negative width or height.
pub proof fn lemma_intersection_not_inverted(a: IRect, b: IRect)
    ensures
        a.spec_intersection(b).spec_width() >= 0,
        a.spec_intersection(b).spec_height() >= 0,
{
}

} // verus!
