//! The computations that the library leaves to its user, and what follows from one step to the
//! next.
//!
//! Nothing is promised of a single computation. A contract names the computation that was made,
//! its arguments and its outcome, through `call_ensures`.

use vstd::prelude::*;

use crate::float::{Float32, Float64};
use crate::geometry::{Point, Rectangle, Size};
use crate::style::CornerRadius;

verus! {

/// Arithmetic on coordinates and radii.
pub trait RenderMath {
    /// The value of an integer.
    fn from_int(&self, v: i64) -> Float64;

    fn sum(&self, a: Float64, b: Float64) -> Float64;

    fn difference(&self, a: Float64, b: Float64) -> Float64;

    fn product(&self, a: Float64, b: Float64) -> Float64;

    fn quotient(&self, a: Float64, b: Float64) -> Float64;

    /// The nearest whole number; halfway cases go away from zero.
    fn round(&self, v: Float64) -> Float64;

    /// The integer that a whole number is, held at the bounds of a coordinate.
    fn to_int(&self, v: Float64) -> i32;

    /// The nearest value of lower precision.
    fn narrow(&self, v: Float64) -> Float32;

    /// A radius made larger by a width.
    fn expanded_by(&self, radius: CornerRadius, width: Float32) -> CornerRadius;

    /// A radius reduced to what fits into a rectangle of the given size.
    fn fit_to(&self, radius: CornerRadius, width: Float32, height: Float32) -> CornerRadius;

    /// How far a floating surface has bobbed at a point in time, given the height of the view.
    fn baba_is_float_offset(&self, now: u64, view_height: Float64) -> Float64;

    /// A logical length rounded to whole physical pixels.
    fn round_logical_in_physical(&self, scale: Float64, v: Float64) -> Float64;
}

/// `r` is `p` moved by `offset`.
pub open spec fn moved<M: RenderMath>(
    math: &M,
    p: Point<Float64>,
    offset: Point<Float64>,
    r: Point<Float64>,
) -> bool {
    &&& call_ensures(M::sum, (math, p.x, offset.x), r.x)
    &&& call_ensures(M::sum, (math, p.y, offset.y), r.y)
}

/// `r` is the way from `origin` to `p`.
pub open spec fn relative<M: RenderMath>(
    math: &M,
    p: Point<Float64>,
    origin: Point<Float64>,
    r: Point<Float64>,
) -> bool {
    &&& call_ensures(M::difference, (math, p.x, origin.x), r.x)
    &&& call_ensures(M::difference, (math, p.y, origin.y), r.y)
}

/// `r` is the physical coordinate nearest to the logical coordinate `v`.
pub open spec fn pixel<M: RenderMath>(math: &M, scale: Float64, v: Float64, r: i32) -> bool {
    exists|scaled: Float64, rounded: Float64|
        {
            &&& #[trigger] call_ensures(M::product, (math, v, scale), scaled)
            &&& #[trigger] call_ensures(M::round, (math, scaled), rounded)
            &&& call_ensures(M::to_int, (math, rounded), r)
        }
}

/// `r` is the logical coordinate `v` rounded to whole physical pixels.
pub open spec fn snapped<M: RenderMath>(math: &M, scale: Float64, v: Float64, r: Float64) -> bool {
    exists|scaled: Float64, rounded: Float64|
        {
            &&& #[trigger] call_ensures(M::product, (math, v, scale), scaled)
            &&& #[trigger] call_ensures(M::round, (math, scaled), rounded)
            &&& call_ensures(M::quotient, (math, rounded, scale), r)
        }
}

pub open spec fn snapped_point<M: RenderMath>(
    math: &M,
    scale: Float64,
    p: Point<Float64>,
    r: Point<Float64>,
) -> bool {
    snapped(math, scale, p.x, r.x) && snapped(math, scale, p.y, r.y)
}

pub open spec fn snapped_size<M: RenderMath>(
    math: &M,
    scale: Float64,
    s: Size<Float64>,
    r: Size<Float64>,
) -> bool {
    snapped(math, scale, s.w, r.w) && snapped(math, scale, s.h, r.h)
}

pub open spec fn snapped_rectangle<M: RenderMath>(
    math: &M,
    scale: Float64,
    a: Rectangle<Float64>,
    r: Rectangle<Float64>,
) -> bool {
    snapped_point(math, scale, a.loc, r.loc) && snapped_size(math, scale, a.size, r.size)
}

/// `r` holds the values of an integer point.
pub open spec fn point_value<M: RenderMath>(
    math: &M,
    p: Point<i32>,
    r: Point<Float64>,
) -> bool {
    &&& call_ensures(M::from_int, (math, p.x as i64), r.x)
    &&& call_ensures(M::from_int, (math, p.y as i64), r.y)
}

/// `r` holds the values of an integer size.
pub open spec fn size_value<M: RenderMath>(math: &M, s: Size<i32>, r: Size<Float64>) -> bool {
    &&& call_ensures(M::from_int, (math, s.w as i64), r.w)
    &&& call_ensures(M::from_int, (math, s.h as i64), r.h)
}

/// The same arguments always give the same outcome.
pub open spec fn repeatable<M: RenderMath>(math: &M) -> bool {
    &&& forall|v: i64, r: Float64, s: Float64| #[trigger]
        call_ensures(M::from_int, (math, v), r) && #[trigger] call_ensures(
            M::from_int,
            (math, v),
            s,
        ) ==> r == s
    &&& forall|a: Float64, b: Float64, r: Float64, s: Float64| #[trigger]
        call_ensures(M::sum, (math, a, b), r) && #[trigger] call_ensures(M::sum, (math, a, b), s)
            ==> r == s
    &&& forall|a: Float64, b: Float64, r: Float64, s: Float64| #[trigger]
        call_ensures(M::difference, (math, a, b), r) && #[trigger] call_ensures(
            M::difference,
            (math, a, b),
            s,
        ) ==> r == s
    &&& forall|a: Float64, b: Float64, r: Float64, s: Float64| #[trigger]
        call_ensures(M::product, (math, a, b), r) && #[trigger] call_ensures(
            M::product,
            (math, a, b),
            s,
        ) ==> r == s
    &&& forall|a: Float64, b: Float64, r: Float64, s: Float64| #[trigger]
        call_ensures(M::quotient, (math, a, b), r) && #[trigger] call_ensures(
            M::quotient,
            (math, a, b),
            s,
        ) ==> r == s
    &&& forall|v: Float64, r: Float64, s: Float64| #[trigger]
        call_ensures(M::round, (math, v), r) && #[trigger] call_ensures(M::round, (math, v), s)
            ==> r == s
    &&& forall|v: Float64, r: i32, s: i32| #[trigger]
        call_ensures(M::to_int, (math, v), r) && #[trigger] call_ensures(M::to_int, (math, v), s)
            ==> r == s
}

/// The same arguments always give the same outcome, for radii and bobbing as well.
pub open spec fn all_repeatable<M: RenderMath>(math: &M) -> bool {
    &&& repeatable(math)
    &&& forall|v: Float64, r: Float32, s: Float32| #[trigger]
        call_ensures(M::narrow, (math, v), r) && #[trigger] call_ensures(M::narrow, (math, v), s)
            ==> r == s
    &&& forall|a: CornerRadius, w: Float32, r: CornerRadius, s: CornerRadius| #[trigger]
        call_ensures(M::expanded_by, (math, a, w), r) && #[trigger] call_ensures(
            M::expanded_by,
            (math, a, w),
            s,
        ) ==> r == s
    &&& forall|a: CornerRadius, w: Float32, h: Float32, r: CornerRadius, s: CornerRadius|
        #[trigger] call_ensures(M::fit_to, (math, a, w, h), r) && #[trigger] call_ensures(
            M::fit_to,
            (math, a, w, h),
            s,
        ) ==> r == s
    &&& forall|now: u64, h: Float64, r: Float64, s: Float64| #[trigger]
        call_ensures(M::baba_is_float_offset, (math, now, h), r) && #[trigger] call_ensures(
            M::baba_is_float_offset,
            (math, now, h),
            s,
        ) ==> r == s
    &&& forall|scale: Float64, v: Float64, r: Float64, s: Float64| #[trigger]
        call_ensures(M::round_logical_in_physical, (math, scale, v), r) && #[trigger] call_ensures(
            M::round_logical_in_physical,
            (math, scale, v),
            s,
        ) ==> r == s
}

pub fn move_point<M: RenderMath>(math: &M, p: Point<Float64>, offset: Point<Float64>) -> (r: Point<
    Float64,
>)
    ensures
        moved(math, p, offset, r),
{
    Point { x: math.sum(p.x, offset.x), y: math.sum(p.y, offset.y) }
}

pub fn relative_to<M: RenderMath>(math: &M, p: Point<Float64>, origin: Point<Float64>) -> (r: Point<
    Float64,
>)
    ensures
        relative(math, p, origin, r),
{
    Point { x: math.difference(p.x, origin.x), y: math.difference(p.y, origin.y) }
}

/// Converts a logical coordinate to the nearest physical one.
pub fn to_pixel<M: RenderMath>(math: &M, scale: Float64, v: Float64) -> (r: i32)
    ensures
        pixel(math, scale, v, r),
{
    let scaled = math.product(v, scale);
    let rounded = math.round(scaled);
    math.to_int(rounded)
}

/// Rounds a logical coordinate to whole physical pixels.
pub fn snap<M: RenderMath>(math: &M, scale: Float64, v: Float64) -> (r: Float64)
    ensures
        snapped(math, scale, v, r),
{
    let scaled = math.product(v, scale);
    let rounded = math.round(scaled);
    math.quotient(rounded, scale)
}

pub fn snap_point<M: RenderMath>(math: &M, scale: Float64, p: Point<Float64>) -> (r: Point<Float64>)
    ensures
        snapped_point(math, scale, p, r),
{
    Point { x: snap(math, scale, p.x), y: snap(math, scale, p.y) }
}

pub fn snap_size<M: RenderMath>(math: &M, scale: Float64, s: Size<Float64>) -> (r: Size<Float64>)
    ensures
        snapped_size(math, scale, s, r),
{
    Size { w: snap(math, scale, s.w), h: snap(math, scale, s.h) }
}

pub fn snap_rectangle<M: RenderMath>(math: &M, scale: Float64, a: Rectangle<Float64>) -> (r:
    Rectangle<Float64>)
    ensures
        snapped_rectangle(math, scale, a, r),
{
    Rectangle { loc: snap_point(math, scale, a.loc), size: snap_size(math, scale, a.size) }
}

pub fn value_of_point<M: RenderMath>(math: &M, p: Point<i32>) -> (r: Point<Float64>)
    ensures
        point_value(math, p, r),
{
    Point { x: math.from_int(p.x as i64), y: math.from_int(p.y as i64) }
}

pub fn value_of_size<M: RenderMath>(math: &M, s: Size<i32>) -> (r: Size<Float64>)
    ensures
        size_value(math, s, r),
{
    Size { w: math.from_int(s.w as i64), h: math.from_int(s.h as i64) }
}

} // verus!
