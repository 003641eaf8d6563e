//! Points, sizes and rectangles, and what pixel rectangles have in common.

use vstd::prelude::*;

verus! {

#[derive(Debug, Clone, Copy, PartialEq)]
pub struct Point<N> {
    pub x: N,
    pub y: N,
}

#[derive(Debug, Clone, Copy, PartialEq)]
pub struct Size<N> {
    pub w: N,
    pub h: N,
}

/// A rectangle given by its top-left corner and its size.
#[derive(Debug, Clone, Copy, PartialEq)]
pub struct Rectangle<N> {
    pub loc: Point<N>,
    pub size: Size<N>,
}

/// A scale along each axis.
#[derive(Debug, Clone, Copy, PartialEq)]
pub struct Scale<N> {
    pub x: N,
    pub y: N,
}

/// The integer nearest to `v` that a coordinate can hold.
pub open spec fn saturated(v: int) -> i32 {
    if v > i32::MAX {
        i32::MAX
    } else if v < i32::MIN {
        i32::MIN
    } else {
        v as i32
    }
}

pub open spec fn max_of(a: i32, b: i32) -> i32 {
    if a > b {
        a
    } else {
        b
    }
}

pub open spec fn min_of(a: i32, b: i32) -> i32 {
    if a < b {
        a
    } else {
        b
    }
}

fn saturate(v: i64) -> (r: i32)
    ensures
        r == saturated(v as int),
{
    if v > 0x7fff_ffff {
        i32::MAX
    } else if v < -0x8000_0000 {
        i32::MIN
    } else {
        v as i32
    }
}

/// `a + b`, held at the bounds of a coordinate.
pub fn saturating_add(a: i32, b: i32) -> (r: i32)
    ensures
        r == saturated(a + b),
{
    saturate(a as i64 + b as i64)
}

/// `a - b`, held at the bounds of a coordinate.
pub fn saturating_sub(a: i32, b: i32) -> (r: i32)
    ensures
        r == saturated(a - b),
{
    saturate(a as i64 - b as i64)
}

fn max(a: i32, b: i32) -> (r: i32)
    ensures
        r == max_of(a, b),
{
    if a > b {
        a
    } else {
        b
    }
}

fn min(a: i32, b: i32) -> (r: i32)
    ensures
        r == min_of(a, b),
{
    if a < b {
        a
    } else {
        b
    }
}

impl Rectangle<i32> {
    /// The first column to the right of the rectangle.
    pub open spec fn right(self) -> i32 {
        saturated(self.loc.x + self.size.w)
    }

    /// The first row below the rectangle.
    pub open spec fn bottom(self) -> i32 {
        saturated(self.loc.y + self.size.h)
    }

    /// A size is never negative, though nothing in the type says so.
    pub open spec fn proper(self) -> bool {
        self.size.w >= 0 && self.size.h >= 0
    }

    /// The pixel at (`x`, `y`) lies inside the rectangle.
    pub open spec fn covers(self, x: int, y: int) -> bool {
        self.loc.x <= x < self.right() && self.loc.y <= y < self.bottom()
    }

    /// The rectangle between a top-left and a bottom-right corner.
    pub open spec fn between(topleft: Point<i32>, bottomright: Point<i32>) -> Self {
        Rectangle {
            loc: topleft,
            size: Size {
                w: saturated(bottomright.x - topleft.x),
                h: saturated(bottomright.y - topleft.y),
            },
        }
    }

    pub open spec fn overlapping(self, other: Self) -> bool {
        &&& self.loc.x < other.right()
        &&& other.loc.x < self.right()
        &&& self.loc.y < other.bottom()
        &&& other.loc.y < self.bottom()
    }

    /// What two rectangles have in common, if they overlap.
    pub open spec fn common(self, other: Self) -> Option<Self> {
        if self.overlapping(other) {
            Some(
                Self::between(
                    Point {
                        x: max_of(self.loc.x, other.loc.x),
                        y: max_of(self.loc.y, other.loc.y),
                    },
                    Point {
                        x: min_of(self.right(), other.right()),
                        y: min_of(self.bottom(), other.bottom()),
                    },
                ),
            )
        } else {
            None
        }
    }

    /// The rectangle between two corners. Its size is held at the bounds of a coordinate, and is
    /// negative where `bottomright` lies left of or above `topleft`.
    pub fn from_extremities(topleft: Point<i32>, bottomright: Point<i32>) -> (r: Self)
        ensures
            r == Self::between(topleft, bottomright),
    {
        Rectangle {
            loc: topleft,
            size: Size {
                w: saturating_sub(bottomright.x, topleft.x),
                h: saturating_sub(bottomright.y, topleft.y),
            },
        }
    }

    /// Rectangles that only touch do not overlap.
    pub fn overlaps(self, other: Self) -> (r: bool)
        ensures
            r == self.overlapping(other),
    {
        self.loc.x < saturating_add(other.loc.x, other.size.w)
            && other.loc.x < saturating_add(self.loc.x, self.size.w)
            && self.loc.y < saturating_add(other.loc.y, other.size.h)
            && other.loc.y < saturating_add(self.loc.y, self.size.h)
    }

    /// The area that two rectangles share, or `None` where they do not overlap.
    pub fn intersection(self, other: Self) -> (r: Option<Self>)
        ensures
            r == self.common(other),
    {
        if !self.overlaps(other) {
            return None;
        }
        Some(
            Self::from_extremities(
                Point { x: max(self.loc.x, other.loc.x), y: max(self.loc.y, other.loc.y) },
                Point {
                    x: min(
                        saturating_add(self.loc.x, self.size.w),
                        saturating_add(other.loc.x, other.size.w),
                    ),
                    y: min(
                        saturating_add(self.loc.y, self.size.h),
                        saturating_add(other.loc.y, other.size.h),
                    ),
                },
            ),
        )
    }
}

/// The intersection of two rectangles covers exactly the pixels that both of them cover.
pub proof fn intersection_covers(a: Rectangle<i32>, b: Rectangle<i32>, x: int, y: int)
    requires
        a.proper(),
        b.proper(),
    ensures
        (a.covers(x, y) && b.covers(x, y)) <==> (a.common(b) matches Some(r) && r.covers(x, y)),
        a.common(b) matches Some(r) ==> r.proper(),
{
}

/// Which of two rectangles comes first does not matter to what they share.
pub proof fn intersection_commutes(a: Rectangle<i32>, b: Rectangle<i32>)
    ensures
        a.common(b) == b.common(a),
{
}

} // verus!
