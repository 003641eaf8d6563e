//! Numbers behind floating-point values, and pixels inside rectangles.

use vstd::arithmetic::div_mod::lemma_div_multiples_vanish_quotient;
use vstd::prelude::*;

use crate::float::{Float32, Float64};
use crate::geometry::Rectangle;
use crate::math::{pixel, snapped, RenderMath};

verus! {

/// A binary64 value is a number or infinite: anything but NaN.
pub open spec fn number64(v: Float64) -> bool {
    v.bits <= 0x7ff0_0000_0000_0000 || 0x8000_0000_0000_0000 <= v.bits <= 0xfff0_0000_0000_0000
}

/// Counts binary64 numbers upwards and downwards from zero.
pub open spec fn place64(v: Float64) -> int {
    if v.bits < 0x8000_0000_0000_0000 {
        v.bits as int
    } else {
        0x8000_0000_0000_0000 - v.bits
    }
}

/// Two binary64 values are the same number.
pub open spec fn equal64(a: Float64, b: Float64) -> bool {
    number64(a) && number64(b) && place64(a) == place64(b)
}

/// A binary32 value is a number or infinite: anything but NaN.
pub open spec fn number32(v: Float32) -> bool {
    v.bits <= 0x7f80_0000 || 0x8000_0000 <= v.bits <= 0xff80_0000
}

/// Counts binary32 numbers upwards and downwards from zero.
pub open spec fn place32(v: Float32) -> int {
    if v.bits < 0x8000_0000 {
        v.bits as int
    } else {
        0x8000_0000 - v.bits
    }
}

/// Two binary32 values are the same number.
pub open spec fn equal32(a: Float32, b: Float32) -> bool {
    number32(a) && number32(b) && place32(a) == place32(b)
}

/// The pixel at (`x`, `y`) lies inside a rectangle. No pixel lies at the last coordinate.
pub open spec fn inside(r: Rectangle<i32>, x: int, y: int) -> bool {
    &&& r.loc.x <= x < r.loc.x + r.size.w
    &&& r.loc.y <= y < r.loc.y + r.size.h
    &&& x < i32::MAX
    &&& y < i32::MAX
}

/// The pixel at (`x`, `y`) lies inside one of some rectangles.
pub open spec fn inside_any(rects: Seq<Rectangle<i32>>, x: int, y: int) -> bool {
    exists|i: int| 0 <= i < rects.len() && inside(#[trigger] rects[i], x, y)
}

/// No rectangle has a negative size.
pub open spec fn sized(rects: Seq<Rectangle<i32>>) -> bool {
    forall|i: int|
        0 <= i < rects.len() ==> (#[trigger] rects[i]).size.w >= 0 && rects[i].size.h >= 0
}

/// `n / d` rounded to the nearest integer, away from zero if two are as near.
pub open spec fn nearest(n: int, d: int) -> int {
    if n >= 0 {
        (2 * n + d) / (2 * d)
    } else {
        -((d - 2 * n) / (2 * d))
    }
}

pub open spec fn larger_of(a: int, b: int) -> int {
    if a > b {
        a
    } else {
        b
    }
}

pub open spec fn smaller_of(a: int, b: int) -> int {
    if a < b {
        a
    } else {
        b
    }
}

/// Reads some floating-point values as fractions with one denominator, the unit.
///
/// Not every value has to be read: those that are have to be read exactly. The unit is the square
/// of a step, so that the product of two values on the grid of steps can be read too.
pub struct Reading {
    /// A value can be read.
    pub exact: spec_fn(Float64) -> bool,
    /// The numerator of a value that can be read.
    pub value: spec_fn(Float64) -> int,
    pub step: int,
    /// How far the grid reaches.
    pub bound: int,
}

impl Reading {
    /// What the number one is read as.
    pub open spec fn unit(self) -> int {
        self.step * self.step
    }

    pub open spec fn is_exact(self, v: Float64) -> bool {
        (self.exact)(v)
    }

    pub open spec fn val(self, v: Float64) -> int {
        (self.value)(v)
    }

    /// `v` is read as `n`.
    pub open spec fn reads(self, v: Float64, n: int) -> bool {
        self.is_exact(v) && self.val(v) == n
    }

    pub open spec fn grid(self, n: int) -> bool {
        n % self.step == 0 && -self.bound <= n <= self.bound
    }

    /// `v` is read, and lies on the grid.
    pub open spec fn coarse(self, v: Float64) -> bool {
        self.is_exact(v) && self.grid(self.val(v))
    }

    /// Arithmetic is exact as far as the reading goes. So it is for binary64 values with a step of
    /// `1 / 1024` and a grid that reaches to 65536.
    pub open spec fn fits<M: RenderMath>(self, math: &M) -> bool {
        let unit = self.unit();
        &&& self.step > 0
        &&& self.reads(Float64 { bits: 0 }, 0)
        &&& self.reads(Float64 { bits: 0x3ff0_0000_0000_0000 }, unit)
        &&& forall|a: Float64, b: Float64|
            #![trigger self.is_exact(a), self.is_exact(b)]
            self.is_exact(a) && self.is_exact(b) ==> {
                &&& number64(a)
                &&& place64(a) < place64(b) <==> self.val(a) < self.val(b)
            }
        &&& forall|v: i64, r: Float64| #[trigger]
            call_ensures(M::from_int, (math, v), r) && self.grid(v * unit) ==> self.reads(
                r,
                v * unit,
            )
        &&& forall|a: Float64, b: Float64, r: Float64| #[trigger]
            call_ensures(M::sum, (math, a, b), r) && self.coarse(a) && self.coarse(b) && self.grid(
                self.val(a) + self.val(b),
            ) ==> self.reads(r, self.val(a) + self.val(b))
        &&& forall|a: Float64, b: Float64, r: Float64| #[trigger]
            call_ensures(M::difference, (math, a, b), r) && self.coarse(a) && self.coarse(b)
                && self.grid(self.val(a) - self.val(b)) ==> self.reads(
                r,
                self.val(a) - self.val(b),
            )
        &&& forall|a: Float64, b: Float64, r: Float64| #[trigger]
            call_ensures(M::product, (math, a, b), r) && self.coarse(a) && self.coarse(b)
                ==> self.is_exact(r) && self.val(r) * unit == self.val(a) * self.val(b)
        &&& forall|a: Float64, b: Float64, r: Float64, q: int| #[trigger]
            call_ensures(M::quotient, (math, a, b), r) && #[trigger] self.grid(q) && self.is_exact(
                a,
            ) && self.coarse(b) && self.val(b) != 0 && q * self.val(b) == self.val(a) * unit
                ==> self.reads(r, q)
        &&& forall|v: Float64, r: Float64| #[trigger]
            call_ensures(M::round, (math, v), r) && self.is_exact(v) ==> self.reads(
                r,
                nearest(self.val(v), unit) * unit,
            )
        &&& forall|v: Float64, r: i32| #[trigger]
            call_ensures(M::to_int, (math, v), r) && self.is_exact(v) && self.val(v) % unit == 0
                && i32::MIN <= self.val(v) / unit <= i32::MAX ==> r == self.val(v) / unit
    }

    /// The physical coordinate nearest to the logical coordinate `v` at the scale `s`, both as
    /// they are read.
    pub open spec fn physical(self, v: int, s: int) -> int {
        nearest(v * s, self.unit() * self.unit())
    }
}

proof fn nearest_cancels(n: int, d: int)
    requires
        d > 0,
    ensures
        nearest(n * d, d * d) == nearest(n, d),
        n * d >= 0 <==> n >= 0,
        d * d > 0,
{
    assert(d * d > 0) by (nonlinear_arith)
        requires
            d > 0,
    ;
    assert(n * d >= 0 <==> n >= 0) by (nonlinear_arith)
        requires
            d > 0,
    ;
    let m = if n >= 0 {
        n
    } else {
        -n
    };
    lemma_div_multiples_vanish_quotient(d, 2 * m + d, 2 * d);
    assert(d * (2 * m + d) == 2 * (m * d) + d * d && d * (2 * d) == 2 * (d * d)
        && (-n) * d == -(n * d)) by (nonlinear_arith);
}

/// Rounding to the nearest integer keeps order.
pub proof fn nearest_keeps_order(m: int, n: int, d: int)
    requires
        d > 0,
        m <= n,
    ensures
        nearest(m, d) <= nearest(n, d),
{
    if m >= 0 {
        vstd::arithmetic::div_mod::lemma_div_is_ordered(2 * m + d, 2 * n + d, 2 * d);
    } else if n < 0 {
        vstd::arithmetic::div_mod::lemma_div_is_ordered(d - 2 * n, d - 2 * m, 2 * d);
    } else {
        vstd::arithmetic::div_mod::lemma_div_pos_is_pos(2 * n + d, 2 * d);
        vstd::arithmetic::div_mod::lemma_div_pos_is_pos(d - 2 * m, 2 * d);
    }
}

/// What is rounded to the nearest integer moves by half at most.
pub proof fn nearest_is_near(n: int, d: int)
    requires
        d > 0,
    ensures
        -d <= 2 * (nearest(n, d) * d - n) <= d,
{
    let m = if n >= 0 {
        2 * n + d
    } else {
        d - 2 * n
    };
    let q = m / (2 * d);
    vstd::arithmetic::div_mod::lemma_fundamental_div_mod(m, 2 * d);
    vstd::arithmetic::div_mod::lemma_mod_bound(m, 2 * d);
    assert((2 * d) * q == 2 * (q * d) && (-q) * d == -(q * d)) by (nonlinear_arith);
}

/// `p` is the physical coordinate of `v`: the product with the scale, rounded to an integer.
pub open spec fn lands<M: RenderMath>(math: &M, scale: Float64, v: Float64, p: i32) -> bool {
    exists|x: Float64, y: Float64|
        {
            &&& #[trigger] call_ensures(M::product, (math, v, scale), x)
            &&& #[trigger] call_ensures(M::round, (math, x), y)
            &&& call_ensures(M::to_int, (math, y), p)
        }
}

/// `r` is where the physical coordinate of `v` lies: the product with the scale, rounded and
/// divided by the scale again.
pub open spec fn rests<M: RenderMath>(math: &M, scale: Float64, v: Float64, r: Float64) -> bool {
    exists|x: Float64, y: Float64|
        {
            &&& #[trigger] call_ensures(M::product, (math, v, scale), x)
            &&& #[trigger] call_ensures(M::round, (math, x), y)
            &&& call_ensures(M::quotient, (math, y, scale), r)
        }
}

/// A logical coordinate becomes the physical one nearest to it times the scale.
pub(crate) proof fn pixel_is_nearest<M: RenderMath>(
    reading: Reading,
    math: &M,
    scale: Float64,
    v: Float64,
    p: i32,
)
    requires
        reading.fits(math),
        reading.coarse(scale),
        reading.coarse(v),
        i32::MIN <= reading.physical(reading.val(v), reading.val(scale)) <= i32::MAX,
        pixel(math, scale, v, p),
    ensures
        p == reading.physical(reading.val(v), reading.val(scale)),
{
    let unit = reading.unit();
    let (x, y) = choose|x: Float64, y: Float64|
        {
            &&& #[trigger] call_ensures(M::product, (math, v, scale), x)
            &&& #[trigger] call_ensures(M::round, (math, x), y)
            &&& call_ensures(M::to_int, (math, y), p)
        };
    assert(unit > 0) by (nonlinear_arith)
        requires
            reading.step > 0,
            unit == reading.step * reading.step,
    ;
    nearest_cancels(reading.val(x), unit);
    let n = nearest(reading.val(x), unit);
    vstd::arithmetic::div_mod::lemma_mod_multiples_basic(n, unit);
    vstd::arithmetic::div_mod::lemma_div_multiples_vanish(n, unit);
    assert(unit * n == n * unit) by (nonlinear_arith);
}

/// A logical coordinate is moved to where the nearest physical one lies.
pub(crate) proof fn snapped_is_nearest<M: RenderMath>(
    reading: Reading,
    math: &M,
    scale: Float64,
    v: Float64,
    r: Float64,
    q: int,
)
    requires
        reading.fits(math),
        reading.coarse(scale),
        reading.coarse(v),
        reading.val(scale) != 0,
        reading.grid(q),
        q * reading.val(scale) == reading.physical(reading.val(v), reading.val(scale))
            * reading.unit() * reading.unit(),
        snapped(math, scale, v, r),
    ensures
        reading.reads(r, q),
{
    let unit = reading.unit();
    let (x, y) = choose|x: Float64, y: Float64|
        {
            &&& #[trigger] call_ensures(M::product, (math, v, scale), x)
            &&& #[trigger] call_ensures(M::round, (math, x), y)
            &&& call_ensures(M::quotient, (math, y, scale), r)
        };
    assert(unit > 0) by (nonlinear_arith)
        requires
            reading.step > 0,
            unit == reading.step * reading.step,
    ;
    nearest_cancels(reading.val(x), unit);
}

} // verus!
