//! Steps from one coordinate to the next.

use vstd::prelude::*;

use crate::float::Float64;
use crate::geometry::{Point, Rectangle, Size};
use crate::laws::values::{lands, pixel_is_nearest, rests, snapped_is_nearest, Reading};
use crate::math::{
    move_point, relative_to, snap, snap_point, snap_rectangle, snap_size, to_pixel,
    value_of_point, value_of_size, RenderMath,
};

verus! {

/// The way from one point to another leads from the one to the other: moving by it arrives there.
pub proof fn ways_lead_there<M: RenderMath>(
    reading: Reading,
    math: &M,
    from: Point<Float64>,
    to: Point<Float64>,
    way: Point<Float64>,
    arrived: Point<Float64>,
)
    requires
        reading.fits(math),
        reading.coarse(from.x) && reading.coarse(from.y),
        reading.coarse(to.x) && reading.coarse(to.y),
        reading.grid(reading.val(to.x) - reading.val(from.x)),
        reading.grid(reading.val(to.y) - reading.val(from.y)),
        call_ensures(relative_to::<M>, (math, to, from), way),
        call_ensures(move_point::<M>, (math, from, way), arrived),
    ensures
        reading.reads(way.x, reading.val(to.x) - reading.val(from.x)),
        reading.reads(way.y, reading.val(to.y) - reading.val(from.y)),
        reading.reads(arrived.x, reading.val(to.x)),
        reading.reads(arrived.y, reading.val(to.y)),
{
}

/// Moving a point adds to its coordinates, and the way from one point to another is the
/// difference of theirs.
pub proof fn points_move_by_coordinates<M: RenderMath>(
    math: &M,
    p: Point<Float64>,
    q: Point<Float64>,
    moved: Point<Float64>,
    way: Point<Float64>,
)
    requires
        call_ensures(move_point::<M>, (math, p, q), moved),
        call_ensures(relative_to::<M>, (math, p, q), way),
    ensures
        call_ensures(M::sum, (math, p.x, q.x), moved.x),
        call_ensures(M::sum, (math, p.y, q.y), moved.y),
        call_ensures(M::difference, (math, p.x, q.x), way.x),
        call_ensures(M::difference, (math, p.y, q.y), way.y),
{
}

/// A logical coordinate becomes the physical one nearest to its product with the scale.
pub proof fn pixels_are_nearest<M: RenderMath>(
    reading: Reading,
    math: &M,
    scale: Float64,
    v: Float64,
    p: i32,
)
    requires
        reading.fits(math),
        reading.coarse(scale),
        reading.coarse(v),
        i32::MIN <= reading.physical(reading.val(v), reading.val(scale)) <= i32::MAX,
        call_ensures(to_pixel::<M>, (math, scale, v), p),
    ensures
        p == reading.physical(reading.val(v), reading.val(scale)),
{
    pixel_is_nearest(reading, math, scale, v, p);
}

/// Rounding a logical coordinate brings it to where the nearest physical one lies: `q` is where.
pub proof fn snapping_goes_to_the_nearest_pixel<M: RenderMath>(
    reading: Reading,
    math: &M,
    scale: Float64,
    v: Float64,
    r: Float64,
    q: int,
)
    requires
        reading.fits(math),
        reading.coarse(scale),
        reading.val(scale) != 0,
        reading.coarse(v),
        reading.grid(q),
        q * reading.val(scale) == reading.physical(reading.val(v), reading.val(scale))
            * reading.unit() * reading.unit(),
        call_ensures(snap::<M>, (math, scale, v), r),
    ensures
        reading.reads(r, q),
{
    snapped_is_nearest(reading, math, scale, v, r, q);
}

/// Each coordinate of a point, a size or a rectangle is brought to pixels by itself.
pub proof fn snapping_goes_by_coordinates<M: RenderMath>(
    math: &M,
    scale: Float64,
    v: Float64,
    coordinate: Float64,
    physical: i32,
    a: Rectangle<Float64>,
    point: Point<Float64>,
    size: Size<Float64>,
    rectangle: Rectangle<Float64>,
)
    requires
        call_ensures(snap::<M>, (math, scale, v), coordinate),
        call_ensures(to_pixel::<M>, (math, scale, v), physical),
        call_ensures(snap_point::<M>, (math, scale, a.loc), point),
        call_ensures(snap_size::<M>, (math, scale, a.size), size),
        call_ensures(snap_rectangle::<M>, (math, scale, a), rectangle),
    ensures
        rests(math, scale, v, coordinate),
        lands(math, scale, v, physical),
        rests(math, scale, a.loc.x, point.x) && rests(math, scale, a.loc.y, point.y),
        rests(math, scale, a.size.w, size.w) && rests(math, scale, a.size.h, size.h),
        rests(math, scale, a.loc.x, rectangle.loc.x),
        rests(math, scale, a.loc.y, rectangle.loc.y),
        rests(math, scale, a.size.w, rectangle.size.w),
        rests(math, scale, a.size.h, rectangle.size.h),
{
}

/// Integer points and sizes keep their coordinates.
pub proof fn integers_keep_their_values<M: RenderMath>(
    math: &M,
    p: Point<i32>,
    s: Size<i32>,
    point: Point<Float64>,
    size: Size<Float64>,
)
    requires
        call_ensures(value_of_point::<M>, (math, p), point),
        call_ensures(value_of_size::<M>, (math, s), size),
    ensures
        call_ensures(M::from_int, (math, p.x as i64), point.x),
        call_ensures(M::from_int, (math, p.y as i64), point.y),
        call_ensures(M::from_int, (math, s.w as i64), size.w),
        call_ensures(M::from_int, (math, s.h as i64), size.h),
{
}

} // verus!
