//! Comparisons of numbers, and what rectangles of pixels share.

use vstd::prelude::*;

use crate::float::{Float32, Float64};
use crate::geometry::{saturating_add, saturating_sub, Point, Rectangle};
use crate::laws::values::{
    equal32, equal64, inside, larger_of, number32, number64, place32, place64, smaller_of,
};

verus! {

/// Comparing binary64 values compares the numbers they are. NaN compares with nothing.
pub proof fn comparing_compares_numbers(
    a: Float64,
    b: Float64,
    nan: bool,
    lt: bool,
    le: bool,
    eq: bool,
)
    requires
        call_ensures(Float64::is_nan, (a,), nan),
        call_ensures(Float64::lt, (a, b), lt),
        call_ensures(Float64::le, (a, b), le),
        call_ensures(<Float64 as PartialEq>::eq, (&a, &b), eq),
    ensures
        nan == !number64(a),
        lt == (number64(a) && number64(b) && place64(a) < place64(b)),
        le == (number64(a) && number64(b) && place64(a) <= place64(b)),
        eq == equal64(a, b),
{
}

/// The larger and the smaller of two binary64 values: one of the two, and the right one among
/// numbers. A number comes before NaN.
pub proof fn extremes_are_extreme(a: Float64, b: Float64, max: Float64, min: Float64)
    requires
        call_ensures(Float64::max, (a, b), max),
        call_ensures(Float64::min, (a, b), min),
    ensures
        max == a || max == b,
        min == a || min == b,
        number64(a) && number64(b) ==> {
            &&& place64(max) == larger_of(place64(a), place64(b))
            &&& place64(min) == smaller_of(place64(a), place64(b))
        },
        number64(a) && !number64(b) ==> max == a && min == a,
        !number64(a) ==> max == b && min == b,
{
}

/// Comparing binary32 values compares the numbers they are. NaN compares with nothing.
pub proof fn comparing_compares_small_numbers(
    a: Float32,
    b: Float32,
    nan: bool,
    lt: bool,
    eq: bool,
)
    requires
        call_ensures(Float32::is_nan, (a,), nan),
        call_ensures(Float32::lt, (a, b), lt),
        call_ensures(<Float32 as PartialEq>::eq, (&a, &b), eq),
    ensures
        nan == !number32(a),
        lt == (number32(a) && number32(b) && place32(a) < place32(b)),
        eq == equal32(a, b),
{
}

/// A value is held between zero and one: what lies between stays, what lies beyond goes to the
/// nearer end, and NaN stays NaN.
pub proof fn clamping_moves_to_the_nearer_end(v: Float32, r: Float32)
    requires
        call_ensures(Float32::clamp_to_unit, (v,), r),
    ensures
        !number32(v) ==> r == v,
        number32(v) && place32(v) < 0 ==> r.bits == 0,
        0 <= place32(v) <= 0x3f80_0000 ==> r == v,
        number32(v) && place32(v) > 0x3f80_0000 ==> r.bits == 0x3f80_0000,
{
}

/// Sums and differences of coordinates are exact as far as coordinates go.
pub proof fn coordinates_stop_at_their_bounds(a: i32, b: i32, sum: i32, difference: i32)
    requires
        call_ensures(saturating_add, (a, b), sum),
        call_ensures(saturating_sub, (a, b), difference),
    ensures
        sum == smaller_of(larger_of(a + b, i32::MIN as int), i32::MAX as int),
        difference == smaller_of(larger_of(a - b, i32::MIN as int), i32::MAX as int),
{
}

/// A rectangle between two corners begins at the one and ends at the other.
pub proof fn extremities_are_corners(
    topleft: Point<i32>,
    bottomright: Point<i32>,
    r: Rectangle<i32>,
)
    requires
        i32::MIN <= bottomright.x - topleft.x <= i32::MAX,
        i32::MIN <= bottomright.y - topleft.y <= i32::MAX,
        call_ensures(Rectangle::<i32>::from_extremities, (topleft, bottomright), r),
    ensures
        r.loc == topleft,
        r.loc.x + r.size.w == bottomright.x,
        r.loc.y + r.size.h == bottomright.y,
{
}

/// Two rectangles share exactly the pixels that lie inside both. They overlap if they share one,
/// and only then have something in common.
pub proof fn intersection_is_what_both_hold(
    a: Rectangle<i32>,
    b: Rectangle<i32>,
    overlaps: bool,
    shared: Option<Rectangle<i32>>,
    x: int,
    y: int,
)
    requires
        a.size.w >= 0 && a.size.h >= 0,
        b.size.w >= 0 && b.size.h >= 0,
        call_ensures(Rectangle::<i32>::overlaps, (a, b), overlaps),
        call_ensures(Rectangle::<i32>::intersection, (a, b), shared),
    ensures
        inside(a, x, y) && inside(b, x, y) <==> (shared matches Some(r) && inside(r, x, y)),
        inside(a, x, y) && inside(b, x, y) ==> overlaps,
        shared is Some <==> overlaps,
        shared matches Some(r) ==> r.size.w >= 0 && r.size.h >= 0,
{
}

} // verus!
