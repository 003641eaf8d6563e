//! Subregions: where their rects lie, and which damage is inside them.

use vstd::prelude::*;

use crate::float::Float64;
use crate::geometry::{Point, Rectangle, Scale, Size};
use crate::laws::values::{
    inside, inside_any, lands, larger_of, nearest_keeps_order, number64, pixel_is_nearest, place64,
    sized, smaller_of, Reading,
};
use crate::math::{relative, repeatable, RenderMath};
use crate::subregion::{
    clip, clipped, covered, damage_in, far_corner, filtering_at_repeats, kept_damage_is_exact,
    near_corner, pieces_cover, pixel_point, placed, push_shared, rounded, shared_covers, stretches,
    stretching_repeats, EffectSubregion,
};

verus! {

/// Where a coordinate of a rect lies: scaled, and then moved by the offset.
pub open spec fn lies(reading: Reading, scale: Float64, offset: Float64, v: int) -> int {
    v * reading.val(scale) + reading.val(offset)
}

/// The place of a coordinate can be read, and so can the way to it from the origin.
pub open spec fn lies_well(
    reading: Reading,
    scale: Float64,
    offset: Float64,
    origin: Float64,
    v: int,
) -> bool {
    &&& reading.grid(v * reading.unit())
    &&& reading.grid(v * reading.val(scale))
    &&& reading.grid(lies(reading, scale, offset, v))
    &&& reading.grid(lies(reading, scale, offset, v) - reading.val(origin))
}

/// Everything about a subregion can be read.
pub open spec fn region_reads(
    reading: Reading,
    region: EffectSubregion,
    origin: Point<Float64>,
) -> bool {
    &&& reading.coarse(region.scale.x) && reading.coarse(region.scale.y)
    &&& reading.coarse(region.offset.x) && reading.coarse(region.offset.y)
    &&& reading.coarse(origin.x) && reading.coarse(origin.y)
    &&& forall|i: int|
        0 <= i < region.rects@.len() ==> {
            let r = #[trigger] region.rects@[i];
            &&& lies_well(reading, region.scale.x, region.offset.x, origin.x, r.loc.x as int)
            &&& lies_well(reading, region.scale.y, region.offset.y, origin.y, r.loc.y as int)
            &&& lies_well(
                reading,
                region.scale.x,
                region.offset.x,
                origin.x,
                r.loc.x + r.size.w,
            )
            &&& lies_well(
                reading,
                region.scale.y,
                region.offset.y,
                origin.y,
                r.loc.y + r.size.h,
            )
        }
}

proof fn placed_lies<M: RenderMath>(
    reading: Reading,
    math: &M,
    scale: Float64,
    offset: Float64,
    origin: Float64,
    v: i64,
    r: Float64,
)
    requires
        reading.fits(math),
        reading.coarse(scale),
        reading.coarse(offset),
        lies_well(reading, scale, offset, origin, v as int),
        placed(math, scale, offset, v, r),
    ensures
        reading.reads(r, lies(reading, scale, offset, v as int)),
{
    let unit = reading.unit();
    let k = reading.val(scale);
    let (a, b) = choose|a: Float64, b: Float64|
        {
            &&& #[trigger] call_ensures(M::from_int, (math, v), a)
            &&& #[trigger] call_ensures(M::product, (math, a, scale), b)
            &&& call_ensures(M::sum, (math, b, offset), r)
        };
    assert(reading.val(b) == v * k) by (nonlinear_arith)
        requires
            reading.val(b) * unit == (v * unit) * k,
            unit == reading.step * reading.step,
            reading.step > 0,
    ;
}

/// Everything lines up: the corners of each rect lie where scaling and then moving it puts them.
pub proof fn corners_are_scaled_and_moved<M: RenderMath>(
    reading: Reading,
    region: &EffectSubregion,
    math: &M,
    corners: Vec<(Point<Float64>, Point<Float64>)>,
    i: int,
)
    requires
        reading.fits(math),
        region_reads(reading, *region, Point { x: Float64 { bits: 0 }, y: Float64 { bits: 0 } }),
        call_ensures(EffectSubregion::iter::<M>, (region, math), corners),
        0 <= i < region.rects@.len(),
    ensures
        corners@.len() == region.rects@.len(),
        ({
            let r = region.rects@[i];
            let (near, far) = corners@[i];
            let kx = reading.val(region.scale.x);
            let ky = reading.val(region.scale.y);
            &&& reading.reads(near.x, r.loc.x * kx + reading.val(region.offset.x))
            &&& reading.reads(near.y, r.loc.y * ky + reading.val(region.offset.y))
            &&& reading.reads(far.x, (r.loc.x + r.size.w) * kx + reading.val(region.offset.x))
            &&& reading.reads(far.y, (r.loc.y + r.size.h) * ky + reading.val(region.offset.y))
        }),
{
    let zero = Float64 { bits: 0 };
    let r = region.rects@[i];
    let (near, far) = corners@[i];
    let a = near_corner(r);
    let b = far_corner(r);
    let (s, o) = (region.scale, region.offset);
    placed_lies(reading, math, s.x, o.x, zero, a.x, near.x);
    placed_lies(reading, math, s.y, o.y, zero, a.y, near.y);
    placed_lies(reading, math, s.x, o.x, zero, b.x, far.x);
    placed_lies(reading, math, s.y, o.y, zero, b.y, far.y);
}

/// `r` is a coordinate of a rect, scaled and then moved by the offset.
pub open spec fn put<M: RenderMath>(
    math: &M,
    scale: Float64,
    offset: Float64,
    v: int,
    r: Float64,
) -> bool {
    exists|a: Float64, b: Float64|
        {
            &&& #[trigger] call_ensures(M::from_int, (math, v as i64), a)
            &&& #[trigger] call_ensures(M::product, (math, a, scale), b)
            &&& call_ensures(M::sum, (math, b, offset), r)
        }
}

/// Every rect has its two corners, in order, each computed from coordinates that are exact even
/// where they lie beyond those of rects.
pub proof fn corners_are_computed_from_exact_coordinates<M: RenderMath>(
    region: &EffectSubregion,
    math: &M,
    corners: Vec<(Point<Float64>, Point<Float64>)>,
    i: int,
)
    requires
        call_ensures(EffectSubregion::iter::<M>, (region, math), corners),
        0 <= i < region.rects@.len(),
    ensures
        corners@.len() == region.rects@.len(),
        ({
            let r = region.rects@[i];
            let (near, far) = corners@[i];
            &&& put(math, region.scale.x, region.offset.x, r.loc.x as int, near.x)
            &&& put(math, region.scale.y, region.offset.y, r.loc.y as int, near.y)
            &&& put(math, region.scale.x, region.offset.x, r.loc.x + r.size.w, far.x)
            &&& put(math, region.scale.y, region.offset.y, r.loc.y + r.size.h, far.y)
        }),
{
    let (near, far) = corners@[i];
}

/// Rects that touch go on touching: corners at the same coordinate are placed at the same one.
pub proof fn corners_stay_together<M: RenderMath>(
    region: &EffectSubregion,
    math: &M,
    corners: Vec<(Point<Float64>, Point<Float64>)>,
    i: int,
    j: int,
)
    requires
        repeatable(math),
        call_ensures(EffectSubregion::iter::<M>, (region, math), corners),
        0 <= i < region.rects@.len(),
        0 <= j < region.rects@.len(),
    ensures
        ({
            let r = region.rects@[i];
            let s = region.rects@[j];
            &&& r.loc.x == s.loc.x ==> corners@[i].0.x == corners@[j].0.x
            &&& r.loc.y == s.loc.y ==> corners@[i].0.y == corners@[j].0.y
            &&& r.loc.x + r.size.w == s.loc.x ==> corners@[i].1.x == corners@[j].0.x
            &&& r.loc.y + r.size.h == s.loc.y ==> corners@[i].1.y == corners@[j].0.y
            &&& r.loc.x + r.size.w == s.loc.x + s.size.w ==> corners@[i].1.x == corners@[j].1.x
            &&& r.loc.y + r.size.h == s.loc.y + s.size.h ==> corners@[i].1.y == corners@[j].1.y
        }),
{
    let (a, b) = corners@[i];
    let (c, d) = corners@[j];
}

/// The later of a coordinate and zero. What is no number does not count.
pub open spec fn from_zero(v: Float64, r: Float64) -> bool {
    if number64(v) && place64(v) >= 0 {
        r == v
    } else {
        r.bits == 0
    }
}

/// The earlier of a coordinate and the end of the area. What is no number does not count.
pub open spec fn up_to(v: Float64, end: Float64, r: Float64) -> bool {
    if !number64(v) || (number64(end) && place64(end) < place64(v)) {
        r == end
    } else {
        r == v
    }
}

/// Something lies between two coordinates: the second is not before or at the first.
pub open spec fn leaves_room(a: Float64, b: Float64) -> bool {
    !(number64(a) && number64(b) && place64(b) <= place64(a))
}

/// What is left between two corners inside an area, if anything is.
pub open spec fn cut_to(
    a: Point<Float64>,
    b: Point<Float64>,
    area: Size<Float64>,
    part: Option<(Point<Float64>, Point<Float64>)>,
) -> bool {
    exists|near: Point<Float64>, far: Point<Float64>|
        {
            &&& #[trigger] from_zero(a.x, near.x)
            &&& #[trigger] from_zero(a.y, near.y)
            &&& #[trigger] up_to(b.x, area.w, far.x)
            &&& #[trigger] up_to(b.y, area.h, far.y)
            &&& part is Some <==> leaves_room(near.x, far.x) && leaves_room(near.y, far.y)
            &&& part matches Some((p, q)) ==> p == near && q == far
        }
}

/// Clipping cuts off what lies before zero or beyond the area, whatever the corners are.
pub proof fn clipping_cuts_to_the_area(
    a: Point<Float64>,
    b: Point<Float64>,
    area: Size<Float64>,
    part: Option<(Point<Float64>, Point<Float64>)>,
)
    requires
        call_ensures(clip, (a, b, area), part),
    ensures
        cut_to(a, b, area, part),
{
    clipped_is_cut(a, b, area);
}

proof fn clipped_is_cut(a: Point<Float64>, b: Point<Float64>, area: Size<Float64>)
    ensures
        cut_to(a, b, area, clipped(a, b, area)),
{
    let zero = Float64 { bits: 0 };
    let near = Point { x: a.x.larger(zero), y: a.y.larger(zero) };
    let far = Point { x: b.x.smaller(area.w), y: b.y.smaller(area.h) };
    assert(from_zero(a.x, near.x) && from_zero(a.y, near.y));
    assert(up_to(b.x, area.w, far.x) && up_to(b.y, area.h, far.y));
}

/// Clipping keeps exactly what lies inside the area: from the further of the two near corners to
/// the nearer of the two far corners, if anything lies between.
pub proof fn clipping_keeps_what_is_inside<M: RenderMath>(
    reading: Reading,
    math: &M,
    a: Point<Float64>,
    b: Point<Float64>,
    area: Size<Float64>,
    part: Option<(Point<Float64>, Point<Float64>)>,
)
    requires
        reading.fits(math),
        reading.is_exact(a.x) && reading.is_exact(a.y),
        reading.is_exact(b.x) && reading.is_exact(b.y),
        reading.is_exact(area.w) && reading.is_exact(area.h),
        call_ensures(clip, (a, b, area), part),
    ensures
        ({
            let left = larger_of(reading.val(a.x), 0);
            let top = larger_of(reading.val(a.y), 0);
            let right = smaller_of(reading.val(b.x), reading.val(area.w));
            let bottom = smaller_of(reading.val(b.y), reading.val(area.h));
            &&& part is Some <==> left < right && top < bottom
            &&& part matches Some((near, far)) ==> {
                &&& reading.reads(near.x, left) && reading.reads(near.y, top)
                &&& reading.reads(far.x, right) && reading.reads(far.y, bottom)
            }
        }),
{
    clipped_reads(reading, math, a, b, area);
}

proof fn clipped_reads<M: RenderMath>(
    reading: Reading,
    math: &M,
    a: Point<Float64>,
    b: Point<Float64>,
    area: Size<Float64>,
)
    requires
        reading.fits(math),
        reading.is_exact(a.x) && reading.is_exact(a.y),
        reading.is_exact(b.x) && reading.is_exact(b.y),
        reading.is_exact(area.w) && reading.is_exact(area.h),
    ensures
        ({
            let left = larger_of(reading.val(a.x), 0);
            let top = larger_of(reading.val(a.y), 0);
            let right = smaller_of(reading.val(b.x), reading.val(area.w));
            let bottom = smaller_of(reading.val(b.y), reading.val(area.h));
            &&& clipped(a, b, area) is Some <==> left < right && top < bottom
            &&& clipped(a, b, area) matches Some((near, far)) ==> {
                &&& reading.reads(near.x, left) && reading.reads(near.y, top)
                &&& reading.reads(far.x, right) && reading.reads(far.y, bottom)
            }
        }),
{
    let zero = Float64 { bits: 0 };
    assert(reading.is_exact(zero));
    let ia = Point { x: a.x.larger(zero), y: a.y.larger(zero) };
    let ib = Point { x: b.x.smaller(area.w), y: b.y.smaller(area.h) };
    assert(reading.reads(ia.x, larger_of(reading.val(a.x), 0)));
    assert(reading.reads(ia.y, larger_of(reading.val(a.y), 0)));
    assert(reading.reads(ib.x, smaller_of(reading.val(b.x), reading.val(area.w))));
    assert(reading.reads(ib.y, smaller_of(reading.val(b.y), reading.val(area.h))));
    assert(ib.x.at_most(ia.x) <==> !(place64(ia.x) < place64(ib.x)));
    assert(ib.y.at_most(ia.y) <==> !(place64(ia.y) < place64(ib.y)));
}

proof fn covered_is_inside(rects: Seq<Rectangle<i32>>, x: int, y: int)
    requires
        sized(rects),
    ensures
        covered(rects, x, y) <==> inside_any(rects, x, y),
        crate::subregion::all_proper(rects),
{
    assert forall|i: int| 0 <= i < rects.len() implies (#[trigger] rects[i]).covers(x, y)
        == inside(rects[i], x, y) by {
        assert(rects[i].size.w >= 0);
    }
    if covered(rects, x, y) {
        let i = choose|i: int| 0 <= i < rects.len() && (#[trigger] rects[i]).covers(x, y);
        assert(inside(rects[i], x, y));
    }
    if inside_any(rects, x, y) {
        let i = choose|i: int| 0 <= i < rects.len() && inside(#[trigger] rects[i], x, y);
        assert(rects[i].covers(x, y));
    }
}

proof fn shared_is_sized(r: Rectangle<i32>, damage: Seq<Rectangle<i32>>)
    requires
        r.size.w >= 0 && r.size.h >= 0,
        sized(damage),
    ensures
        sized(crate::subregion::shared(r, damage)),
    decreases damage.len(),
{
    if damage.len() > 0 {
        let rest = damage.drop_last();
        assert(sized(rest)) by {
            assert forall|i: int| 0 <= i < rest.len() implies (#[trigger] rest[i]).size.w >= 0
                && rest[i].size.h >= 0 by {
                assert(damage[i].size.w >= 0);
            }
        }
        shared_is_sized(r, rest);
        assert(damage[damage.len() - 1].size.w >= 0);
    }
}

/// What is appended is what a rect shares with the damage as it was handed in: a pixel lies inside
/// it exactly if it lies inside both. What was there before stays.
pub proof fn shared_damage_lies_in_both(
    r: Rectangle<i32>,
    damage: &[Rectangle<i32>],
    filtered: &mut Vec<Rectangle<i32>>,
    x: int,
    y: int,
)
    requires
        r.size.w >= 0 && r.size.h >= 0,
        sized(damage@),
        call_ensures(push_shared, (r, damage, filtered), ()),
    ensures
        old(filtered)@.len() <= final(filtered)@.len(),
        final(filtered)@.take(old(filtered)@.len() as int) == old(filtered)@,
        inside_any(final(filtered)@.skip(old(filtered)@.len() as int), x, y) <==> inside(r, x, y)
            && inside_any(damage@, x, y),
{
    let added = final(filtered)@.skip(old(filtered)@.len() as int);
    assert(final(filtered)@.take(old(filtered)@.len() as int) =~= old(filtered)@);
    assert(added =~= crate::subregion::shared(r, damage@));
    covered_is_inside(damage@, x, y);
    shared_is_sized(r, damage@);
    covered_is_inside(added, x, y);
    shared_covers(r, damage@, x, y);
}

/// The columns of pixels that a rect takes up, from the first to the one after the last, given
/// where its two edges lie: clipped to a width, scaled and rounded.
pub open spec fn columns(reading: Reading, near: int, far: int, width: int, s: int) -> (int, int) {
    (
        reading.physical(larger_of(near, 0), s),
        reading.physical(smaller_of(far, width), s),
    )
}

/// The pixel at (`x`, `y`) is one of those that a rect of the subregion takes up.
pub open spec fn rect_holds(
    reading: Reading,
    region: EffectSubregion,
    crop: Rectangle<Float64>,
    sx: int,
    sy: int,
    r: Rectangle<i32>,
    x: int,
    y: int,
) -> bool {
    let (kx, ky) = (region.scale.x, region.scale.y);
    let (ox, oy) = (region.offset.x, region.offset.y);
    let (cx, cy) = (reading.val(crop.loc.x), reading.val(crop.loc.y));
    let (left, right) = columns(
        reading,
        lies(reading, kx, ox, r.loc.x as int) - cx,
        lies(reading, kx, ox, r.loc.x + r.size.w) - cx,
        reading.val(crop.size.w),
        sx,
    );
    let (top, bottom) = columns(
        reading,
        lies(reading, ky, oy, r.loc.y as int) - cy,
        lies(reading, ky, oy, r.loc.y + r.size.h) - cy,
        reading.val(crop.size.h),
        sy,
    );
    left <= x < right && top <= y < bottom
}

/// A crop and the area at which it is shown can be read. `sx` and `sy` say how the one is
/// stretched to the other.
pub open spec fn crop_reads(
    reading: Reading,
    crop: Rectangle<Float64>,
    size: Size<i32>,
    sx: int,
    sy: int,
) -> bool {
    let unit = reading.unit();
    &&& reading.coarse(crop.size.w) && reading.val(crop.size.w) > 0
    &&& reading.coarse(crop.size.h) && reading.val(crop.size.h) > 0
    &&& size.w >= 0 && reading.grid(size.w * unit)
    &&& size.h >= 0 && reading.grid(size.h * unit)
    &&& reading.grid(sx) && sx * reading.val(crop.size.w) == size.w * unit * unit
    &&& reading.grid(sy) && sy * reading.val(crop.size.h) == size.h * unit * unit
}

proof fn stretched_reads<M: RenderMath>(
    reading: Reading,
    math: &M,
    crop: Rectangle<Float64>,
    size: Size<i32>,
    sx: int,
    sy: int,
    scale: Scale<Float64>,
)
    requires
        reading.fits(math),
        crop_reads(reading, crop, size, sx, sy),
        stretches(math, crop.size, size, scale),
    ensures
        reading.reads(scale.x, sx),
        reading.reads(scale.y, sy),
{
    let v = choose|v: Size<Float64>|
        {
            &&& #[trigger] crate::math::size_value(math, size, v)
            &&& call_ensures(M::quotient, (math, v.w, crop.size.w), scale.x)
            &&& call_ensures(M::quotient, (math, v.h, crop.size.h), scale.y)
        };
    assert(reading.reads(v.w, size.w * reading.unit()));
    assert(reading.reads(v.h, size.h * reading.unit()));
}

/// Along one axis: pixels are in order, and stay between zero and the size of the area.
proof fn columns_stay_inside(reading: Reading, v: int, w: int, width: int, s: int, size: int)
    requires
        reading.step > 0,
        v <= w,
        width > 0,
        size >= 0,
        s * width == size * reading.unit() * reading.unit(),
    ensures
        reading.physical(v, s) <= reading.physical(w, s),
        0 <= v ==> 0 <= reading.physical(v, s),
        w <= width ==> reading.physical(w, s) <= size,
{
    let unit = reading.unit();
    let d = unit * unit;
    assert(unit > 0) by (nonlinear_arith)
        requires
            unit == reading.step * reading.step,
            reading.step > 0,
    ;
    assert(d > 0) by (nonlinear_arith)
        requires
            unit > 0,
            d == unit * unit,
    ;
    assert(size * unit * unit == size * d) by (nonlinear_arith)
        requires
            d == unit * unit,
    ;
    assert(s >= 0) by (nonlinear_arith)
        requires
            s * width == size * d,
            size >= 0,
            d > 0,
            width > 0,
    ;
    assert(v * s <= w * s) by (nonlinear_arith)
        requires
            v <= w,
            s >= 0,
    ;
    nearest_keeps_order(v * s, w * s, d);
    if 0 <= v {
        assert(0 <= v * s) by (nonlinear_arith)
            requires
                0 <= v,
                s >= 0,
        ;
        vstd::arithmetic::div_mod::lemma_div_pos_is_pos(2 * (v * s) + d, 2 * d);
    }
    if w <= width {
        assert(w * s <= size * d) by (nonlinear_arith)
            requires
                w <= width,
                s >= 0,
                s * width == size * d,
        ;
        assert(size * d >= 0) by (nonlinear_arith)
            requires
                size >= 0,
                d > 0,
        ;
        nearest_keeps_order(w * s, size * d, d);
        assert(2 * (size * d) + d == size * (2 * d) + d) by (nonlinear_arith);
        vstd::arithmetic::div_mod::lemma_fundamental_div_mod_converse(
            2 * (size * d) + d,
            2 * d,
            size,
            d,
        );
    }
}

proof fn piece_holds<M: RenderMath>(
    reading: Reading,
    math: &M,
    region: EffectSubregion,
    crop: Rectangle<Float64>,
    size: Size<i32>,
    sx: int,
    sy: int,
    scale: Scale<Float64>,
    k: int,
    piece: Option<Rectangle<i32>>,
    x: int,
    y: int,
)
    requires
        reading.fits(math),
        region_reads(reading, region, crop.loc),
        crop_reads(reading, crop, size, sx, sy),
        reading.reads(scale.x, sx),
        reading.reads(scale.y, sy),
        0 <= k < region.rects@.len(),
        region.leaves(math, crop, scale, region.rects@[k], piece),
    ensures
        piece matches Some(r) ==> r.proper(),
        rect_holds(reading, region, crop, sx, sy, region.rects@[k], x, y) <==> (
        piece matches Some(r) && r.covers(x, y)),
{
    let rect = region.rects@[k];
    let near = near_corner(rect);
    let far = far_corner(rect);
    let (ks, os) = (region.scale, region.offset);
    let (a, b) = choose|a: Point<Float64>, b: Point<Float64>|
        {
            &&& #[trigger] region.places_from(math, crop.loc, near, a)
            &&& #[trigger] region.places_from(math, crop.loc, far, b)
            &&& rounded(math, scale, clipped(a, b, crop.size), piece)
        };
    let p = choose|q: Point<Float64>| #[trigger]
        region.places(math, near, q) && relative(math, q, crop.loc, a);
    let q = choose|q: Point<Float64>| #[trigger]
        region.places(math, far, q) && relative(math, q, crop.loc, b);
    placed_lies(reading, math, ks.x, os.x, crop.loc.x, near.x, p.x);
    placed_lies(reading, math, ks.y, os.y, crop.loc.y, near.y, p.y);
    placed_lies(reading, math, ks.x, os.x, crop.loc.x, far.x, q.x);
    placed_lies(reading, math, ks.y, os.y, crop.loc.y, far.y, q.y);
    let ax = lies(reading, ks.x, os.x, near.x as int) - reading.val(crop.loc.x);
    let ay = lies(reading, ks.y, os.y, near.y as int) - reading.val(crop.loc.y);
    let bx = lies(reading, ks.x, os.x, far.x as int) - reading.val(crop.loc.x);
    let by = lies(reading, ks.y, os.y, far.y as int) - reading.val(crop.loc.y);
    assert(reading.reads(a.x, ax) && reading.reads(a.y, ay));
    assert(reading.reads(b.x, bx) && reading.reads(b.y, by));
    clipped_reads(reading, math, a, b, crop.size);
    let width = reading.val(crop.size.w);
    let height = reading.val(crop.size.h);
    let left = larger_of(ax, 0);
    let top = larger_of(ay, 0);
    let right = smaller_of(bx, width);
    let bottom = smaller_of(by, height);
    assert(reading.grid(0)) by {
        vstd::arithmetic::div_mod::lemma_small_mod(0, reading.step as nat);
        assert(reading.grid(ax));
    }
    if left < right && top < bottom {
        let (ia, ib) = clipped(a, b, crop.size)->0;
        let (pa, pb) = choose|pa: Point<i32>, pb: Point<i32>|
            {
                &&& #[trigger] pixel_point(math, scale, ia, pa)
                &&& #[trigger] pixel_point(math, scale, ib, pb)
                &&& piece == Some(Rectangle::<i32>::between(pa, pb))
            };
        columns_stay_inside(reading, left, right, width, sx, size.w as int);
        columns_stay_inside(reading, top, bottom, height, sy, size.h as int);
        pixel_is_nearest(reading, math, scale.x, ia.x, pa.x);
        pixel_is_nearest(reading, math, scale.y, ia.y, pa.y);
        pixel_is_nearest(reading, math, scale.x, ib.x, pb.x);
        pixel_is_nearest(reading, math, scale.y, ib.y, pb.y);
    } else {
        if right <= left {
            columns_stay_inside(reading, right, left, width, sx, size.w as int);
        } else {
            columns_stay_inside(reading, bottom, top, height, sy, size.h as int);
        }
    }
}

/// Filtering keeps exactly the damage inside the subregion.
///
/// A pixel lies inside what is appended exactly if it lies inside the damage, as it was handed in,
/// and is one of those that a rect of the subregion takes up. The location of `dst` does not
/// matter. What was there before stays.
pub proof fn filtering_keeps_damage_inside<M: RenderMath>(
    reading: Reading,
    region: &EffectSubregion,
    math: &M,
    crop: Rectangle<Float64>,
    dst: Rectangle<i32>,
    damage: &[Rectangle<i32>],
    filtered: &mut Vec<Rectangle<i32>>,
    sx: int,
    sy: int,
    x: int,
    y: int,
)
    requires
        reading.fits(math),
        region_reads(reading, *region, crop.loc),
        crop_reads(reading, crop, dst.size, sx, sy),
        sized(damage@),
        call_ensures(
            EffectSubregion::filter_damage::<M>,
            (region, math, crop, dst, damage, filtered),
            (),
        ),
    ensures
        old(filtered)@.len() <= final(filtered)@.len(),
        final(filtered)@.take(old(filtered)@.len() as int) == old(filtered)@,
        inside_any(final(filtered)@.skip(old(filtered)@.len() as int), x, y) <==> inside_any(
            damage@,
            x,
            y,
        ) && exists|i: int|
            0 <= i < region.rects@.len() && rect_holds(
                reading,
                *region,
                crop,
                sx,
                sy,
                #[trigger] region.rects@[i],
                x,
                y,
            ),
{
    let before = old(filtered)@;
    let after = final(filtered)@;
    let scale = choose|scale: Scale<Float64>| #[trigger]
        stretches(math, crop.size, dst.size, scale) && region.filters_at(
            math,
            crop,
            scale,
            damage@,
            before,
            after,
        );
    let pieces = choose|pieces: Seq<Option<Rectangle<i32>>>|
        {
            &&& #[trigger] region.leaves_all(math, crop, scale, pieces)
            &&& after == before + damage_in(pieces, damage@)
        };
    stretched_reads(reading, math, crop, dst.size, sx, sy, scale);
    let added = after.skip(before.len() as int);
    assert(after.take(before.len() as int) =~= before);
    assert(added =~= damage_in(pieces, damage@));
    assert forall|i: int| 0 <= i < pieces.len() implies (#[trigger] pieces[i] matches Some(r)
        ==> r.proper()) && (rect_holds(reading, *region, crop, sx, sy, region.rects@[i], x, y) <==> (
    pieces[i] matches Some(r) && r.covers(x, y))) by {
        piece_holds(
            reading,
            math,
            *region,
            crop,
            dst.size,
            sx,
            sy,
            scale,
            i,
            pieces[i],
            x,
            y,
        );
    }
    covered_is_inside(damage@, x, y);
    kept_damage_is_exact(pieces, damage@, x, y);
    kept_is_sized(pieces, damage@);
    covered_is_inside(added, x, y);
    if pieces_cover(pieces, x, y) {
        let i = choose|i: int|
            0 <= i < pieces.len() && (#[trigger] pieces[i] matches Some(r) && r.covers(x, y));
        assert(rect_holds(reading, *region, crop, sx, sy, region.rects@[i], x, y));
    }
    if exists|i: int|
        0 <= i < region.rects@.len() && rect_holds(
            reading,
            *region,
            crop,
            sx,
            sy,
            #[trigger] region.rects@[i],
            x,
            y,
        ) {
        let i = choose|i: int|
            0 <= i < region.rects@.len() && rect_holds(
                reading,
                *region,
                crop,
                sx,
                sy,
                #[trigger] region.rects@[i],
                x,
                y,
            );
        assert(pieces[i] matches Some(r) && r.covers(x, y));
    }
}

proof fn kept_is_sized(pieces: Seq<Option<Rectangle<i32>>>, damage: Seq<Rectangle<i32>>)
    requires
        forall|i: int|
            0 <= i < pieces.len() ==> (#[trigger] pieces[i] matches Some(r) ==> r.proper()),
        sized(damage),
    ensures
        sized(damage_in(pieces, damage)),
    decreases pieces.len(),
{
    if pieces.len() > 0 {
        let rest = pieces.drop_last();
        assert forall|i: int| 0 <= i < rest.len() implies (#[trigger] rest[i] matches Some(r)
            ==> r.proper()) by {
            assert(pieces[i] == rest[i]);
        }
        kept_is_sized(rest, damage);
        assert(pieces[pieces.len() - 1] == pieces.last());
        if let Some(r) = pieces.last() {
            shared_is_sized(r, damage);
        }
    }
}

/// A corner of a rect, seen from the origin.
pub open spec fn seen_from<M: RenderMath>(
    math: &M,
    scale: Float64,
    offset: Float64,
    origin: Float64,
    v: int,
    r: Float64,
) -> bool {
    exists|q: Float64| #[trigger]
        put(math, scale, offset, v, q) && call_ensures(M::difference, (math, q, origin), r)
}

/// `piece` are the pixels that a rect takes up: its corners, seen from the crop, cut to the crop
/// and brought to the nearest pixels.
pub open spec fn takes_up<M: RenderMath>(
    math: &M,
    region: EffectSubregion,
    crop: Rectangle<Float64>,
    scale: Scale<Float64>,
    r: Rectangle<i32>,
    piece: Option<Rectangle<i32>>,
) -> bool {
    let (k, o, c) = (region.scale, region.offset, crop.loc);
    exists|
        a: Point<Float64>,
        b: Point<Float64>,
        part: Option<(Point<Float64>, Point<Float64>)>,
    |
        {
            &&& #[trigger] cut_to(a, b, crop.size, part)
            &&& seen_from(math, k.x, o.x, c.x, r.loc.x as int, a.x)
            &&& seen_from(math, k.y, o.y, c.y, r.loc.y as int, a.y)
            &&& seen_from(math, k.x, o.x, c.x, r.loc.x + r.size.w, b.x)
            &&& seen_from(math, k.y, o.y, c.y, r.loc.y + r.size.h, b.y)
            &&& part is Some <==> piece is Some
            &&& part matches Some((near, far)) ==> spans(math, scale, near, far, piece->0)
        }
}

/// A rectangle goes from the pixel nearest to one corner to the pixel nearest to the other.
pub open spec fn spans<M: RenderMath>(
    math: &M,
    scale: Scale<Float64>,
    near: Point<Float64>,
    far: Point<Float64>,
    r: Rectangle<i32>,
) -> bool {
    &&& lands(math, scale.x, near.x, r.loc.x)
    &&& lands(math, scale.y, near.y, r.loc.y)
    &&& exists|end: Point<i32>|
        {
            &&& #[trigger] lands(math, scale.x, far.x, end.x)
            &&& #[trigger] lands(math, scale.y, far.y, end.y)
            &&& i32::MIN <= end.x - r.loc.x <= i32::MAX ==> r.loc.x + r.size.w == end.x
            &&& i32::MIN <= end.y - r.loc.y <= i32::MAX ==> r.loc.y + r.size.h == end.y
        }
}

/// A scale stretches the crop to the size at which it is shown.
pub open spec fn stretched_to<M: RenderMath>(
    math: &M,
    crop: Size<Float64>,
    size: Size<i32>,
    scale: Scale<Float64>,
) -> bool {
    exists|w: Float64, h: Float64|
        {
            &&& #[trigger] call_ensures(M::from_int, (math, size.w as i64), w)
            &&& #[trigger] call_ensures(M::from_int, (math, size.h as i64), h)
            &&& call_ensures(M::quotient, (math, w, crop.w), scale.x)
            &&& call_ensures(M::quotient, (math, h, crop.h), scale.y)
        }
}

/// Bringing coordinates to pixels keeps their order.
pub open spec fn landing_keeps_order<M: RenderMath>(math: &M, scale: Float64) -> bool {
    forall|u: Float64, v: Float64, p: i32, q: i32|
        #![trigger lands(math, scale, u, p), lands(math, scale, v, q)]
        number64(u) && number64(v) && place64(u) <= place64(v) && lands(math, scale, u, p) && lands(
            math,
            scale,
            v,
            q,
        ) ==> p <= q
}

/// What is added is the damage inside the pieces, which are the pixels that each rect of the
/// subregion takes up: a pixel lies inside what is added exactly if it lies inside the damage and
/// inside a piece.
pub open spec fn is_damage_inside<M: RenderMath>(
    math: &M,
    region: EffectSubregion,
    crop: Rectangle<Float64>,
    size: Size<i32>,
    damage: Seq<Rectangle<i32>>,
    added: Seq<Rectangle<i32>>,
    scale: Scale<Float64>,
    pieces: Seq<Option<Rectangle<i32>>>,
) -> bool {
    &&& stretched_to(math, crop.size, size, scale)
    &&& pieces.len() == region.rects@.len()
    &&& forall|i: int|
        0 <= i < pieces.len() ==> takes_up(
            math,
            region,
            crop,
            scale,
            region.rects@[i],
            #[trigger] pieces[i],
        )
    &&& forall|x: int, y: int|
        #![trigger inside_any(damage, x, y)]
        inside_any(added, x, y) <==> inside_any(damage, x, y) && exists|i: int|
            0 <= i < pieces.len() && (#[trigger] pieces[i] matches Some(r) && inside(r, x, y))
}

/// Filtering keeps exactly the damage inside the subregion, whatever the coordinates are: a pixel
/// lies inside what is appended exactly if it lies inside the damage, as it was handed in, and
/// inside the pixels that some rect of the subregion takes up.
pub proof fn filtering_keeps_damage_on_rects<M: RenderMath>(
    region: &EffectSubregion,
    math: &M,
    crop: Rectangle<Float64>,
    dst: Rectangle<i32>,
    damage: &[Rectangle<i32>],
    filtered: &mut Vec<Rectangle<i32>>,
)
    requires
        number64(crop.size.w),
        number64(crop.size.h),
        forall|scale: Scale<Float64>| #[trigger]
            stretched_to(math, crop.size, dst.size, scale) ==> landing_keeps_order(math, scale.x)
                && landing_keeps_order(math, scale.y),
        sized(damage@),
        call_ensures(
            EffectSubregion::filter_damage::<M>,
            (region, math, crop, dst, damage, filtered),
            (),
        ),
    ensures
        old(filtered)@.len() <= final(filtered)@.len(),
        final(filtered)@.take(old(filtered)@.len() as int) == old(filtered)@,
        exists|scale: Scale<Float64>, pieces: Seq<Option<Rectangle<i32>>>| #[trigger]
            is_damage_inside(
                math,
                *region,
                crop,
                dst.size,
                damage@,
                final(filtered)@.skip(old(filtered)@.len() as int),
                scale,
                pieces,
            ),
{
    let before = old(filtered)@;
    let after = final(filtered)@;
    let scale = choose|scale: Scale<Float64>| #[trigger]
        stretches(math, crop.size, dst.size, scale) && region.filters_at(
            math,
            crop,
            scale,
            damage@,
            before,
            after,
        );
    let pieces = choose|pieces: Seq<Option<Rectangle<i32>>>|
        {
            &&& #[trigger] region.leaves_all(math, crop, scale, pieces)
            &&& after == before + damage_in(pieces, damage@)
        };
    let added = after.skip(before.len() as int);
    assert(after.take(before.len() as int) =~= before);
    assert(added =~= damage_in(pieces, damage@));
    let v = choose|v: Size<Float64>|
        {
            &&& #[trigger] crate::math::size_value(math, dst.size, v)
            &&& call_ensures(M::quotient, (math, v.w, crop.size.w), scale.x)
            &&& call_ensures(M::quotient, (math, v.h, crop.size.h), scale.y)
        };
    assert(stretched_to(math, crop.size, dst.size, scale));
    assert forall|i: int| 0 <= i < pieces.len() implies takes_up(
        math,
        *region,
        crop,
        scale,
        region.rects@[i],
        #[trigger] pieces[i],
    ) && (pieces[i] matches Some(r) ==> r.proper()) by {
        left_is_taken_up(math, *region, crop, scale, region.rects@[i], pieces[i]);
    }
    kept_is_sized(pieces, damage@);
    assert forall|x: int, y: int|
        #![trigger inside_any(damage@, x, y)]
        inside_any(added, x, y) <==> inside_any(damage@, x, y) && exists|i: int|
            0 <= i < pieces.len() && (#[trigger] pieces[i] matches Some(r) && inside(r, x, y)) by {
        covered_is_inside(damage@, x, y);
        covered_is_inside(added, x, y);
        kept_damage_is_exact(pieces, damage@, x, y);
        assert forall|i: int| 0 <= i < pieces.len() implies (#[trigger] pieces[i] matches Some(
            r,
        ) ==> r.covers(x, y) == inside(r, x, y)) by {}
        if pieces_cover(pieces, x, y) {
            let i = choose|i: int|
                0 <= i < pieces.len() && (#[trigger] pieces[i] matches Some(r) && r.covers(x, y));
            assert(pieces[i] matches Some(r) && inside(r, x, y));
        }
        if exists|i: int|
            0 <= i < pieces.len() && (#[trigger] pieces[i] matches Some(r) && inside(r, x, y)) {
            let i = choose|i: int|
                0 <= i < pieces.len() && (#[trigger] pieces[i] matches Some(r) && inside(r, x, y));
            assert(pieces[i] matches Some(r) && r.covers(x, y));
        }
    }
    assert(is_damage_inside(math, *region, crop, dst.size, damage@, added, scale, pieces));
}

proof fn left_is_taken_up<M: RenderMath>(
    math: &M,
    region: EffectSubregion,
    crop: Rectangle<Float64>,
    scale: Scale<Float64>,
    rect: Rectangle<i32>,
    piece: Option<Rectangle<i32>>,
)
    requires
        number64(crop.size.w),
        number64(crop.size.h),
        landing_keeps_order(math, scale.x),
        landing_keeps_order(math, scale.y),
        region.leaves(math, crop, scale, rect, piece),
    ensures
        takes_up(math, region, crop, scale, rect, piece),
        piece matches Some(r) ==> r.proper(),
{
    let near = near_corner(rect);
    let far = far_corner(rect);
    let (k, o, c) = (region.scale, region.offset, crop.loc);
    let (a, b) = choose|a: Point<Float64>, b: Point<Float64>|
        {
            &&& #[trigger] region.places_from(math, crop.loc, near, a)
            &&& #[trigger] region.places_from(math, crop.loc, far, b)
            &&& rounded(math, scale, clipped(a, b, crop.size), piece)
        };
    let p = choose|q: Point<Float64>| #[trigger]
        region.places(math, near, q) && relative(math, q, crop.loc, a);
    let q = choose|q: Point<Float64>| #[trigger]
        region.places(math, far, q) && relative(math, q, crop.loc, b);
    assert(put(math, k.x, o.x, rect.loc.x as int, p.x));
    assert(put(math, k.y, o.y, rect.loc.y as int, p.y));
    assert(put(math, k.x, o.x, rect.loc.x + rect.size.w, q.x));
    assert(put(math, k.y, o.y, rect.loc.y + rect.size.h, q.y));
    assert(seen_from(math, k.x, o.x, c.x, rect.loc.x as int, a.x));
    assert(seen_from(math, k.y, o.y, c.y, rect.loc.y as int, a.y));
    assert(seen_from(math, k.x, o.x, c.x, rect.loc.x + rect.size.w, b.x));
    assert(seen_from(math, k.y, o.y, c.y, rect.loc.y + rect.size.h, b.y));
    let part = clipped(a, b, crop.size);
    clipped_is_cut(a, b, crop.size);
    if let Some((ia, ib)) = part {
        let (pa, pb) = choose|pa: Point<i32>, pb: Point<i32>|
            {
                &&& #[trigger] pixel_point(math, scale, ia, pa)
                &&& #[trigger] pixel_point(math, scale, ib, pb)
                &&& piece == Some(Rectangle::<i32>::between(pa, pb))
            };
        pixel_lands(math, scale.x, ia.x, pa.x);
        pixel_lands(math, scale.y, ia.y, pa.y);
        pixel_lands(math, scale.x, ib.x, pb.x);
        pixel_lands(math, scale.y, ib.y, pb.y);
        assert(number64(ia.x) && number64(ib.x) && place64(ia.x) <= place64(ib.x));
        assert(number64(ia.y) && number64(ib.y) && place64(ia.y) <= place64(ib.y));
        assert(spans(math, scale, ia, ib, piece->0));
    }
}

proof fn pixel_lands<M: RenderMath>(math: &M, scale: Float64, v: Float64, p: i32)
    requires
        crate::math::pixel(math, scale, v, p),
    ensures
        lands(math, scale, v, p),
{
    let (x, y) = choose|x: Float64, y: Float64|
        {
            &&& #[trigger] call_ensures(M::product, (math, v, scale), x)
            &&& #[trigger] call_ensures(M::round, (math, x), y)
            &&& call_ensures(M::to_int, (math, y), p)
        };
}

/// What filtering appends depends neither on where the destination lies nor on what was there
/// before.
pub proof fn filtering_ignores_the_location<M: RenderMath>(
    region: &EffectSubregion,
    math: &M,
    crop: Rectangle<Float64>,
    dst: Rectangle<i32>,
    elsewhere: Rectangle<i32>,
    damage: &[Rectangle<i32>],
    filtered: &mut Vec<Rectangle<i32>>,
    other: &mut Vec<Rectangle<i32>>,
)
    requires
        repeatable(math),
        dst.size == elsewhere.size,
        call_ensures(
            EffectSubregion::filter_damage::<M>,
            (region, math, crop, dst, damage, filtered),
            (),
        ),
        call_ensures(
            EffectSubregion::filter_damage::<M>,
            (region, math, crop, elsewhere, damage, other),
            (),
        ),
    ensures
        final(filtered)@.skip(old(filtered)@.len() as int) == final(other)@.skip(
            old(other)@.len() as int,
        ),
{
    let a = choose|scale: Scale<Float64>| #[trigger]
        stretches(math, crop.size, dst.size, scale) && region.filters_at(
            math,
            crop,
            scale,
            damage@,
            old(filtered)@,
            final(filtered)@,
        );
    let b = choose|scale: Scale<Float64>| #[trigger]
        stretches(math, crop.size, dst.size, scale) && region.filters_at(
            math,
            crop,
            scale,
            damage@,
            old(other)@,
            final(other)@,
        );
    stretching_repeats(math, crop.size, dst.size, a, b);
    let p = choose|pieces: Seq<Option<Rectangle<i32>>>|
        {
            &&& #[trigger] region.leaves_all(math, crop, a, pieces)
            &&& final(filtered)@ == old(filtered)@ + damage_in(pieces, damage@)
        };
    let q = choose|pieces: Seq<Option<Rectangle<i32>>>|
        {
            &&& #[trigger] region.leaves_all(math, crop, b, pieces)
            &&& final(other)@ == old(other)@ + damage_in(pieces, damage@)
        };
    let none = Seq::<Rectangle<i32>>::empty();
    let x = none + damage_in(p, damage@);
    let y = none + damage_in(q, damage@);
    assert(region.filters_at(math, crop, a, damage@, none, x));
    assert(region.filters_at(math, crop, a, damage@, none, y));
    filtering_at_repeats(math, *region, crop, a, damage@, none, x, y);
    assert(final(filtered)@.skip(old(filtered)@.len() as int) =~= x);
    assert(final(other)@.skip(old(other)@.len() as int) =~= y);
}

} // verus!
