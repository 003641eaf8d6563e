//! The part of a surface behind which an effect is drawn.

use std::sync::Arc;

use vstd::prelude::*;

use crate::float::Float64;
use crate::geometry::{Point, Rectangle, Scale, Size};
use crate::math::{
    pixel, relative, relative_to, repeatable, size_value, to_pixel, value_of_size, RenderMath,
};

verus! {

#[derive(Debug, Clone)]
pub struct EffectSubregion {
    /// Non-overlapping rects in surface-local coordinates.
    pub rects: Arc<Vec<Rectangle<i32>>>,
    /// Scale to apply to each rect.
    pub scale: Scale<Float64>,
    /// Translation to apply to each rect after scaling.
    pub offset: Point<Float64>,
}

/// The top-left corner of a rect.
pub open spec fn near_corner(r: Rectangle<i32>) -> Point<i64> {
    Point { x: r.loc.x as i64, y: r.loc.y as i64 }
}

/// The bottom-right corner of a rect, which may lie beyond what a coordinate of a rect can hold.
pub open spec fn far_corner(r: Rectangle<i32>) -> Point<i64> {
    Point { x: (r.loc.x + r.size.w) as i64, y: (r.loc.y + r.size.h) as i64 }
}

/// `r` is the coordinate `v` scaled and then moved by `offset`.
pub open spec fn placed<M: RenderMath>(
    math: &M,
    scale: Float64,
    offset: Float64,
    v: i64,
    r: Float64,
) -> bool {
    exists|value: Float64, scaled: Float64|
        {
            &&& #[trigger] call_ensures(M::from_int, (math, v), value)
            &&& #[trigger] call_ensures(M::product, (math, value, scale), scaled)
            &&& call_ensures(M::sum, (math, scaled, offset), r)
        }
}

fn place<M: RenderMath>(math: &M, scale: Float64, offset: Float64, v: i64) -> (r: Float64)
    ensures
        placed(math, scale, offset, v, r),
{
    let value = math.from_int(v);
    let scaled = math.product(value, scale);
    math.sum(scaled, offset)
}

/// `r` is the physical point nearest to the logical point `p`.
pub open spec fn pixel_point<M: RenderMath>(
    math: &M,
    scale: Scale<Float64>,
    p: Point<Float64>,
    r: Point<i32>,
) -> bool {
    pixel(math, scale.x, p.x, r.x) && pixel(math, scale.y, p.y, r.y)
}

/// The part between `a` and `b` that lies in an area of the given size at the origin: its two
/// corners, or `None` if it is empty.
pub open spec fn clipped(a: Point<Float64>, b: Point<Float64>, area: Size<Float64>) -> Option<
    (Point<Float64>, Point<Float64>),
> {
    let zero = Float64 { bits: 0 };
    let ia = Point { x: a.x.larger(zero), y: a.y.larger(zero) };
    let ib = Point { x: b.x.smaller(area.w), y: b.y.smaller(area.h) };
    if ib.x.at_most(ia.x) || ib.y.at_most(ia.y) {
        None
    } else {
        Some((ia, ib))
    }
}

pub fn clip(a: Point<Float64>, b: Point<Float64>, area: Size<Float64>) -> (r: Option<
    (Point<Float64>, Point<Float64>),
>)
    ensures
        r == clipped(a, b, area),
{
    let ia = Point { x: a.x.max(Float64::zero()), y: a.y.max(Float64::zero()) };
    let ib = Point { x: b.x.min(area.w), y: b.y.min(area.h) };
    if ib.x.le(ia.x) || ib.y.le(ia.y) {
        // No intersection.
        None
    } else {
        Some((ia, ib))
    }
}

/// What a rect shares with each of some others, in their order. Those that do not overlap it are
/// left out.
pub open spec fn shared(r: Rectangle<i32>, damage: Seq<Rectangle<i32>>) -> Seq<Rectangle<i32>>
    decreases damage.len(),
{
    if damage.len() == 0 {
        seq![]
    } else {
        let before = shared(r, damage.drop_last());
        match r.common(damage.last()) {
            Some(common) => before.push(common),
            None => before,
        }
    }
}

/// What the pieces share with the damage, piece by piece.
pub open spec fn damage_in(
    pieces: Seq<Option<Rectangle<i32>>>,
    damage: Seq<Rectangle<i32>>,
) -> Seq<Rectangle<i32>>
    decreases pieces.len(),
{
    if pieces.len() == 0 {
        seq![]
    } else {
        let before = damage_in(pieces.drop_last(), damage);
        match pieces.last() {
            Some(r) => before + shared(r, damage),
            None => before,
        }
    }
}

/// Appends what `r` shares with each damaged rect.
pub fn push_shared(
    r: Rectangle<i32>,
    damage: &[Rectangle<i32>],
    filtered: &mut Vec<Rectangle<i32>>,
)
    ensures
        final(filtered)@ == old(filtered)@ + shared(r, damage@),
{
    let ghost before = filtered@;
    assert(filtered@ =~= before + shared(r, damage@.take(0)));
    for i in 0..damage.len()
        invariant
            filtered@ == before + shared(r, damage@.take(i as int)),
    {
        assert(damage@.take(i + 1).drop_last() =~= damage@.take(i as int));
        if let Some(intersection) = r.intersection(damage[i]) {
            filtered.push(intersection);
        }
        assert(filtered@ =~= before + shared(r, damage@.take(i + 1)));
    }
    assert(damage@.take(damage@.len() as int) =~= damage@);
}

/// `scale` stretches an area of the size of `crop` to the size of `dst`.
pub open spec fn stretches<M: RenderMath>(
    math: &M,
    crop: Size<Float64>,
    dst: Size<i32>,
    scale: Scale<Float64>,
) -> bool {
    exists|size: Size<Float64>|
        {
            &&& #[trigger] size_value(math, dst, size)
            &&& call_ensures(M::quotient, (math, size.w, crop.w), scale.x)
            &&& call_ensures(M::quotient, (math, size.h, crop.h), scale.y)
        }
}

/// `piece` is the rectangle of pixels between the corners of `part`, if there is a part.
pub open spec fn rounded<M: RenderMath>(
    math: &M,
    scale: Scale<Float64>,
    part: Option<(Point<Float64>, Point<Float64>)>,
    piece: Option<Rectangle<i32>>,
) -> bool {
    match part {
        None => piece is None,
        Some((ia, ib)) => exists|a: Point<i32>, b: Point<i32>|
            {
                &&& #[trigger] pixel_point(math, scale, ia, a)
                &&& #[trigger] pixel_point(math, scale, ib, b)
                &&& piece == Some(Rectangle::<i32>::between(a, b))
            },
    }
}

impl EffectSubregion {
    /// `r` is where the corner `p` of a rect ends up.
    pub open spec fn places<M: RenderMath>(
        self,
        math: &M,
        p: Point<i64>,
        r: Point<Float64>,
    ) -> bool {
        &&& placed(math, self.scale.x, self.offset.x, p.x, r.x)
        &&& placed(math, self.scale.y, self.offset.y, p.y, r.y)
    }

    /// `r` is where the corner `p` of a rect ends up, relative to `origin`.
    pub open spec fn places_from<M: RenderMath>(
        self,
        math: &M,
        origin: Point<Float64>,
        p: Point<i64>,
        r: Point<Float64>,
    ) -> bool {
        exists|q: Point<Float64>| #[trigger]
            self.places(math, p, q) && relative(math, q, origin, r)
    }

    /// `piece` is what is left of `rect`, in pixels, once it is placed, clipped to `crop` and
    /// rounded. Nothing may be left.
    pub open spec fn leaves<M: RenderMath>(
        self,
        math: &M,
        crop: Rectangle<Float64>,
        scale: Scale<Float64>,
        rect: Rectangle<i32>,
        piece: Option<Rectangle<i32>>,
    ) -> bool {
        exists|a: Point<Float64>, b: Point<Float64>|
            {
                &&& #[trigger] self.places_from(math, crop.loc, near_corner(rect), a)
                &&& #[trigger] self.places_from(math, crop.loc, far_corner(rect), b)
                &&& rounded(math, scale, clipped(a, b, crop.size), piece)
            }
    }

    /// `pieces` are what is left of each rect.
    pub open spec fn leaves_all<M: RenderMath>(
        self,
        math: &M,
        crop: Rectangle<Float64>,
        scale: Scale<Float64>,
        pieces: Seq<Option<Rectangle<i32>>>,
    ) -> bool {
        &&& pieces.len() == self.rects@.len()
        &&& forall|i: int|
            0 <= i < pieces.len() ==> self.leaves(
                math,
                crop,
                scale,
                self.rects@[i],
                #[trigger] pieces[i],
            )
    }

    /// Filtering with a given scale turns `before` into `after`: the damage inside what is left
    /// of the rects, in order, is appended.
    pub open spec fn filters_at<M: RenderMath>(
        self,
        math: &M,
        crop: Rectangle<Float64>,
        scale: Scale<Float64>,
        damage: Seq<Rectangle<i32>>,
        before: Seq<Rectangle<i32>>,
        after: Seq<Rectangle<i32>>,
    ) -> bool {
        exists|pieces: Seq<Option<Rectangle<i32>>>|
            {
                &&& #[trigger] self.leaves_all(math, crop, scale, pieces)
                &&& after == before + damage_in(pieces, damage)
            }
    }

    /// Filtering turns `before` into `after`, with the scale that stretches `crop` to `dst`.
    pub open spec fn filters<M: RenderMath>(
        self,
        math: &M,
        crop: Rectangle<Float64>,
        dst: Rectangle<i32>,
        damage: Seq<Rectangle<i32>>,
        before: Seq<Rectangle<i32>>,
        after: Seq<Rectangle<i32>>,
    ) -> bool {
        exists|scale: Scale<Float64>| #[trigger]
            stretches(math, crop.size, dst.size, scale) && self.filters_at(
                math,
                crop,
                scale,
                damage,
                before,
                after,
            )
    }

    fn place_corner<M: RenderMath>(&self, math: &M, p: Point<i64>) -> (r: Point<Float64>)
        ensures
            self.places(math, p, r),
    {
        Point {
            x: place(math, self.scale.x, self.offset.x, p.x),
            y: place(math, self.scale.y, self.offset.y, p.y),
        }
    }

    /// The top-left and bottom-right corners of the transformed rects, in order.
    ///
    /// Everything lines up as long as coordinates are integers, and adjacent rects have to remain
    /// adjacent afterwards. So it is the corners of a rect that are transformed, rather than its
    /// location and size: coordinates that are equal undergo exactly the same operations.
    pub fn iter<M: RenderMath>(&self, math: &M) -> (r: Vec<(Point<Float64>, Point<Float64>)>)
        ensures
            r@.len() == self.rects@.len(),
            forall|i: int|
                #![trigger r@[i]]
                0 <= i < r@.len() ==> {
                    &&& self.places(math, near_corner(self.rects@[i]), r@[i].0)
                    &&& self.places(math, far_corner(self.rects@[i]), r@[i].1)
                },
    {
        let mut corners: Vec<(Point<Float64>, Point<Float64>)> = Vec::new();
        for i in 0..self.rects.len()
            invariant
                corners@.len() == i,
                forall|j: int|
                    #![trigger corners@[j]]
                    0 <= j < i ==> {
                        &&& self.places(math, near_corner(self.rects@[j]), corners@[j].0)
                        &&& self.places(math, far_corner(self.rects@[j]), corners@[j].1)
                    },
        {
            let r = self.rects[i];
            let near = Point { x: r.loc.x as i64, y: r.loc.y as i64 };
            let far = Point {
                x: r.loc.x as i64 + r.size.w as i64,
                y: r.loc.y as i64 + r.size.h as i64,
            };
            let a = self.place_corner(math, near);
            let b = self.place_corner(math, far);
            corners.push((a, b));
        }
        corners
    }

    /// Appends to `filtered` the parts of the damage that lie inside the subregion.
    ///
    /// `crop` is in the coordinate space of [`EffectSubregion::iter`], and is shown at `dst`. The
    /// damage is relative to `dst`.
    pub fn filter_damage<M: RenderMath>(
        &self,
        math: &M,
        crop: Rectangle<Float64>,
        dst: Rectangle<i32>,
        damage: &[Rectangle<i32>],
        filtered: &mut Vec<Rectangle<i32>>,
    )
        ensures
            self.filters(math, crop, dst, damage@, old(filtered)@, final(filtered)@),
    {
        let ghost before = filtered@;
        let size = value_of_size(math, dst.size);
        let scale = Scale {
            x: math.quotient(size.w, crop.size.w),
            y: math.quotient(size.h, crop.size.h),
        };
        let corners = self.iter(math);
        let ghost mut pieces: Seq<Option<Rectangle<i32>>> = seq![];
        assert(filtered@ =~= before + damage_in(pieces, damage@));
        for i in 0..corners.len()
            invariant
                corners@.len() == self.rects@.len(),
                forall|j: int|
                    #![trigger corners@[j]]
                    0 <= j < corners@.len() ==> {
                        &&& self.places(math, near_corner(self.rects@[j]), corners@[j].0)
                        &&& self.places(math, far_corner(self.rects@[j]), corners@[j].1)
                    },
                pieces.len() == i,
                forall|j: int|
                    0 <= j < i ==> self.leaves(
                        math,
                        crop,
                        scale,
                        self.rects@[j],
                        #[trigger] pieces[j],
                    ),
                filtered@ == before + damage_in(pieces, damage@),
        {
            let (near, far) = corners[i];
            assert(self.places(math, near_corner(self.rects@[i as int]), corners@[i as int].0));
            // Convert to dst-relative.
            let a = relative_to(math, near, crop.loc);
            let b = relative_to(math, far, crop.loc);
            assert(self.places_from(math, crop.loc, near_corner(self.rects@[i as int]), a));
            assert(self.places_from(math, crop.loc, far_corner(self.rects@[i as int]), b));

            let ghost mut piece: Option<Rectangle<i32>> = None;
            // Intersect with crop.
            if let Some((ia, ib)) = clip(a, b, crop.size) {
                // Round extremities to physical pixels, ensuring that adjacent rectangles stay
                // adjacent at fractional scales.
                let pa = Point {
                    x: to_pixel(math, scale.x, ia.x),
                    y: to_pixel(math, scale.y, ia.y),
                };
                let pb = Point {
                    x: to_pixel(math, scale.x, ib.x),
                    y: to_pixel(math, scale.y, ib.y),
                };
                assert(pixel_point(math, scale, ia, pa));
                assert(pixel_point(math, scale, ib, pb));
                let r = Rectangle::<i32>::from_extremities(pa, pb);
                proof {
                    piece = Some(r);
                }
                // Intersect with each damage rect.
                push_shared(r, damage, filtered);
            }
            assert(rounded(math, scale, clipped(a, b, crop.size), piece));
            assert(self.leaves(math, crop, scale, self.rects@[i as int], piece));
            assert(pieces.push(piece).drop_last() =~= pieces);
            assert(filtered@ =~= before + damage_in(pieces.push(piece), damage@));
            proof {
                pieces = pieces.push(piece);
            }
        }
        assert(stretches(math, crop.size, dst.size, scale));
        assert(self.leaves_all(math, crop, scale, pieces));
        assert(self.filters_at(math, crop, scale, damage@, before, filtered@));
    }
}

/// The pixel at (`x`, `y`) lies inside one of the rects.
pub open spec fn covered(rects: Seq<Rectangle<i32>>, x: int, y: int) -> bool {
    exists|i: int| 0 <= i < rects.len() && (#[trigger] rects[i]).covers(x, y)
}

/// The pixel at (`x`, `y`) lies inside one of the pieces.
pub open spec fn pieces_cover(pieces: Seq<Option<Rectangle<i32>>>, x: int, y: int) -> bool {
    exists|i: int|
        0 <= i < pieces.len() && (#[trigger] pieces[i] matches Some(r) && r.covers(x, y))
}

pub open spec fn all_proper(rects: Seq<Rectangle<i32>>) -> bool {
    forall|i: int| 0 <= i < rects.len() ==> (#[trigger] rects[i]).proper()
}

proof fn covered_push(rects: Seq<Rectangle<i32>>, r: Rectangle<i32>, x: int, y: int)
    ensures
        covered(rects.push(r), x, y) <==> covered(rects, x, y) || r.covers(x, y),
{
    let all = rects.push(r);
    if covered(rects, x, y) {
        let i = choose|i: int| 0 <= i < rects.len() && (#[trigger] rects[i]).covers(x, y);
        assert(all[i].covers(x, y));
    }
    if r.covers(x, y) {
        assert(all[rects.len() as int].covers(x, y));
    }
    if covered(all, x, y) {
        let i = choose|i: int| 0 <= i < all.len() && (#[trigger] all[i]).covers(x, y);
        if i < rects.len() {
            assert(rects[i].covers(x, y));
        }
    }
}

proof fn covered_sum(a: Seq<Rectangle<i32>>, b: Seq<Rectangle<i32>>, x: int, y: int)
    ensures
        covered(a + b, x, y) <==> covered(a, x, y) || covered(b, x, y),
{
    let all = a + b;
    if covered(a, x, y) {
        let i = choose|i: int| 0 <= i < a.len() && (#[trigger] a[i]).covers(x, y);
        assert(all[i].covers(x, y));
    }
    if covered(b, x, y) {
        let i = choose|i: int| 0 <= i < b.len() && (#[trigger] b[i]).covers(x, y);
        assert(all[a.len() + i].covers(x, y));
    }
    if covered(all, x, y) {
        let i = choose|i: int| 0 <= i < all.len() && (#[trigger] all[i]).covers(x, y);
        if i < a.len() {
            assert(a[i].covers(x, y));
        } else {
            assert(b[i - a.len()].covers(x, y));
        }
    }
}

pub(crate) proof fn shared_covers(r: Rectangle<i32>, damage: Seq<Rectangle<i32>>, x: int, y: int)
    requires
        r.proper(),
        all_proper(damage),
    ensures
        covered(shared(r, damage), x, y) <==> r.covers(x, y) && covered(damage, x, y),
    decreases damage.len(),
{
    if damage.len() > 0 {
        let rest = damage.drop_last();
        let last = damage.last();
        assert forall|i: int| 0 <= i < rest.len() implies (#[trigger] rest[i]).proper() by {
            assert(damage[i].proper());
        }
        assert(damage[damage.len() - 1].proper());
        shared_covers(r, rest, x, y);
        covered_push(rest, last, x, y);
        assert(rest.push(last) =~= damage);
        crate::geometry::intersection_covers(r, last, x, y);
        if let Some(common) = r.common(last) {
            covered_push(shared(r, rest), common, x, y);
        }
    }
}

/// What is kept of the damage covers exactly the pixels that are damaged and lie inside a piece
/// of the subregion.
pub(crate) proof fn kept_damage_is_exact(
    pieces: Seq<Option<Rectangle<i32>>>,
    damage: Seq<Rectangle<i32>>,
    x: int,
    y: int,
)
    requires
        forall|i: int|
            0 <= i < pieces.len() ==> (#[trigger] pieces[i] matches Some(r) ==> r.proper()),
        all_proper(damage),
    ensures
        covered(damage_in(pieces, damage), x, y) <==> pieces_cover(pieces, x, y) && covered(
            damage,
            x,
            y,
        ),
    decreases pieces.len(),
{
    if pieces.len() > 0 {
        let rest = pieces.drop_last();
        let last = pieces.last();
        let n = pieces.len() - 1;
        assert(pieces[n] == last);
        assert forall|i: int| 0 <= i < rest.len() implies (#[trigger] rest[i] matches Some(r)
            ==> r.proper()) by {
            assert(pieces[i] == rest[i]);
        }
        kept_damage_is_exact(rest, damage, x, y);
        if pieces_cover(rest, x, y) {
            let i = choose|i: int|
                0 <= i < rest.len() && (#[trigger] rest[i] matches Some(r) && r.covers(x, y));
            assert(pieces[i] == rest[i]);
        }
        if pieces_cover(pieces, x, y) {
            let i = choose|i: int|
                0 <= i < pieces.len() && (#[trigger] pieces[i] matches Some(r) && r.covers(x, y));
            if i < n {
                assert(rest[i] == pieces[i]);
            }
        }
        if let Some(r) = last {
            shared_covers(r, damage, x, y);
            covered_sum(damage_in(rest, damage), shared(r, damage), x, y);
        }
    }
}

proof fn shared_member(r: Rectangle<i32>, damage: Seq<Rectangle<i32>>, k: int) -> (j: int)
    requires
        0 <= k < shared(r, damage).len(),
    ensures
        0 <= j < damage.len(),
        r.common(damage[j]) == Some(shared(r, damage)[k]),
    decreases damage.len(),
{
    let rest = damage.drop_last();
    if k < shared(r, rest).len() {
        shared_member(r, rest, k)
    } else {
        damage.len() - 1
    }
}

/// Every rect that is kept is what one piece of the subregion shares with one damaged rect.
pub proof fn kept_rects_are_intersections(
    pieces: Seq<Option<Rectangle<i32>>>,
    damage: Seq<Rectangle<i32>>,
    k: int,
) -> (at: (int, int))
    requires
        0 <= k < damage_in(pieces, damage).len(),
    ensures
        0 <= at.0 < pieces.len(),
        0 <= at.1 < damage.len(),
        pieces[at.0] matches Some(r) && r.common(damage[at.1]) == Some(
            damage_in(pieces, damage)[k],
        ),
    decreases pieces.len(),
{
    let rest = pieces.drop_last();
    let before = damage_in(rest, damage);
    if k < before.len() {
        kept_rects_are_intersections(rest, damage, k)
    } else {
        let j = shared_member(pieces.last()->0, damage, k - before.len());
        (pieces.len() - 1, j)
    }
}

/// Rounding to pixels never swaps two coordinates.
pub open spec fn pixels_keep_order<M: RenderMath>(math: &M, scale: Float64) -> bool {
    forall|u: Float64, v: Float64, p: i32, q: i32|
        u.at_most(v) && #[trigger] pixel(math, scale, u, p) && #[trigger] pixel(math, scale, v, q)
            ==> p <= q
}

/// Placing the corners of rects never swaps two coordinates.
pub open spec fn placing_keeps_order<M: RenderMath>(
    math: &M,
    region: EffectSubregion,
    origin: Point<Float64>,
) -> bool {
    forall|u: Point<i64>, v: Point<i64>, p: Point<Float64>, q: Point<Float64>|
        #[trigger] region.places_from(math, origin, u, p) && #[trigger] region.places_from(
            math,
            origin,
            v,
            q,
        ) ==> {
            &&& u.x <= v.x ==> p.x.at_most(q.x)
            &&& u.y <= v.y ==> p.y.at_most(q.y)
        }
}

/// The corners of rects are placed at numbers.
pub open spec fn placing_gives_numbers<M: RenderMath>(
    math: &M,
    region: EffectSubregion,
    origin: Point<Float64>,
) -> bool {
    forall|u: Point<i64>, p: Point<Float64>|
        #[trigger] region.places_from(math, origin, u, p) ==> !p.x.nan() && !p.y.nan()
}

/// What is left of a rect never has a negative size.
pub proof fn pieces_are_proper<M: RenderMath>(
    math: &M,
    region: EffectSubregion,
    crop: Rectangle<Float64>,
    scale: Scale<Float64>,
    rect: Rectangle<i32>,
    piece: Rectangle<i32>,
)
    requires
        !crop.size.w.nan(),
        !crop.size.h.nan(),
        pixels_keep_order(math, scale.x),
        pixels_keep_order(math, scale.y),
        region.leaves(math, crop, scale, rect, Some(piece)),
    ensures
        piece.proper(),
{
    let (a, b) = choose|a: Point<Float64>, b: Point<Float64>|
        {
            &&& #[trigger] region.places_from(math, crop.loc, near_corner(rect), a)
            &&& #[trigger] region.places_from(math, crop.loc, far_corner(rect), b)
            &&& rounded(math, scale, clipped(a, b, crop.size), Some(piece))
        };
    let (ia, ib) = clipped(a, b, crop.size)->0;
    let (p, q) = choose|p: Point<i32>, q: Point<i32>|
        {
            &&& #[trigger] pixel_point(math, scale, ia, p)
            &&& #[trigger] pixel_point(math, scale, ib, q)
            &&& Some(piece) == Some(Rectangle::<i32>::between(p, q))
        };
    assert(ia.x.at_most(ib.x));
    assert(ia.y.at_most(ib.y));
    assert(pixel(math, scale.x, ia.x, p.x) && pixel(math, scale.x, ib.x, q.x));
    assert(pixel(math, scale.y, ia.y, p.y) && pixel(math, scale.y, ib.y, q.y));
}

proof fn pixel_repeats<M: RenderMath>(math: &M, scale: Float64, v: Float64, p: i32, q: i32)
    requires
        repeatable(math),
        pixel(math, scale, v, p),
        pixel(math, scale, v, q),
    ensures
        p == q,
{
}

proof fn placing_repeats<M: RenderMath>(
    math: &M,
    scale: Float64,
    offset: Float64,
    v: i64,
    p: Float64,
    q: Float64,
)
    requires
        repeatable(math),
        placed(math, scale, offset, v, p),
        placed(math, scale, offset, v, q),
    ensures
        p == q,
{
}

/// Adjacent rects remain adjacent: where one rect ends at the column at which another begins, what
/// is left of the one ends at the column of pixels at which what is left of the other begins. The
/// same goes for rows.
pub proof fn adjacent_rects_stay_adjacent<M: RenderMath>(
    math: &M,
    region: EffectSubregion,
    crop: Rectangle<Float64>,
    scale: Scale<Float64>,
    first: Rectangle<i32>,
    second: Rectangle<i32>,
    p: Rectangle<i32>,
    q: Rectangle<i32>,
)
    requires
        repeatable(math),
        placing_gives_numbers(math, region, crop.loc),
        !crop.size.w.nan(),
        !crop.size.h.nan(),
        region.leaves(math, crop, scale, first, Some(p)),
        region.leaves(math, crop, scale, second, Some(q)),
    ensures
        far_corner(first).x == near_corner(second).x ==> p.size.w == crate::geometry::saturated(
            q.loc.x - p.loc.x,
        ),
        far_corner(first).y == near_corner(second).y ==> p.size.h == crate::geometry::saturated(
            q.loc.y - p.loc.y,
        ),
        far_corner(first).x == near_corner(second).x && i32::MIN <= q.loc.x - p.loc.x <= i32::MAX
            ==> p.right() == q.loc.x,
        far_corner(first).y == near_corner(second).y && i32::MIN <= q.loc.y - p.loc.y <= i32::MAX
            ==> p.bottom() == q.loc.y,
{
    let (a1, b1) = choose|a: Point<Float64>, b: Point<Float64>|
        {
            &&& #[trigger] region.places_from(math, crop.loc, near_corner(first), a)
            &&& #[trigger] region.places_from(math, crop.loc, far_corner(first), b)
            &&& rounded(math, scale, clipped(a, b, crop.size), Some(p))
        };
    let (a2, b2) = choose|a: Point<Float64>, b: Point<Float64>|
        {
            &&& #[trigger] region.places_from(math, crop.loc, near_corner(second), a)
            &&& #[trigger] region.places_from(math, crop.loc, far_corner(second), b)
            &&& rounded(math, scale, clipped(a, b, crop.size), Some(q))
        };
    let (ia1, ib1) = clipped(a1, b1, crop.size)->0;
    let (ia2, ib2) = clipped(a2, b2, crop.size)->0;
    let (pa, pb) = choose|x: Point<i32>, y: Point<i32>|
        {
            &&& #[trigger] pixel_point(math, scale, ia1, x)
            &&& #[trigger] pixel_point(math, scale, ib1, y)
            &&& Some(p) == Some(Rectangle::<i32>::between(x, y))
        };
    let (qa, qb) = choose|x: Point<i32>, y: Point<i32>|
        {
            &&& #[trigger] pixel_point(math, scale, ia2, x)
            &&& #[trigger] pixel_point(math, scale, ib2, y)
            &&& Some(q) == Some(Rectangle::<i32>::between(x, y))
        };
    let far = choose|r: Point<Float64>| #[trigger]
        region.places(math, far_corner(first), r) && relative(math, r, crop.loc, b1);
    let near = choose|r: Point<Float64>| #[trigger]
        region.places(math, near_corner(second), r) && relative(math, r, crop.loc, a2);
    if far_corner(first).x == near_corner(second).x {
        placing_repeats(
            math,
            region.scale.x,
            region.offset.x,
            far_corner(first).x,
            far.x,
            near.x,
        );
        assert(b1.x == a2.x);
        assert(ib1.x == ia2.x);
        pixel_repeats(math, scale.x, ib1.x, pb.x, qa.x);
    }
    if far_corner(first).y == near_corner(second).y {
        placing_repeats(
            math,
            region.scale.y,
            region.offset.y,
            far_corner(first).y,
            far.y,
            near.y,
        );
        assert(b1.y == a2.y);
        assert(ib1.y == ia2.y);
        pixel_repeats(math, scale.y, ib1.y, pb.y, qa.y);
    }
}

/// Rects that do not overlap stay apart: where one rect ends before or at the column at which
/// another begins, or likewise for rows, what is left of them does not overlap either.
pub proof fn disjoint_rects_stay_disjoint<M: RenderMath>(
    math: &M,
    region: EffectSubregion,
    crop: Rectangle<Float64>,
    scale: Scale<Float64>,
    first: Rectangle<i32>,
    second: Rectangle<i32>,
    p: Rectangle<i32>,
    q: Rectangle<i32>,
)
    requires
        pixels_keep_order(math, scale.x),
        pixels_keep_order(math, scale.y),
        placing_keeps_order(math, region, crop.loc),
        !crop.size.w.nan(),
        !crop.size.h.nan(),
        far_corner(first).x <= near_corner(second).x || far_corner(first).y <= near_corner(
            second,
        ).y,
        region.leaves(math, crop, scale, first, Some(p)),
        region.leaves(math, crop, scale, second, Some(q)),
    ensures
        !p.overlapping(q),
{
    pieces_are_proper(math, region, crop, scale, first, p);
    let (a1, b1) = choose|a: Point<Float64>, b: Point<Float64>|
        {
            &&& #[trigger] region.places_from(math, crop.loc, near_corner(first), a)
            &&& #[trigger] region.places_from(math, crop.loc, far_corner(first), b)
            &&& rounded(math, scale, clipped(a, b, crop.size), Some(p))
        };
    let (a2, b2) = choose|a: Point<Float64>, b: Point<Float64>|
        {
            &&& #[trigger] region.places_from(math, crop.loc, near_corner(second), a)
            &&& #[trigger] region.places_from(math, crop.loc, far_corner(second), b)
            &&& rounded(math, scale, clipped(a, b, crop.size), Some(q))
        };
    let (ia1, ib1) = clipped(a1, b1, crop.size)->0;
    let (ia2, ib2) = clipped(a2, b2, crop.size)->0;
    let (pa, pb) = choose|x: Point<i32>, y: Point<i32>|
        {
            &&& #[trigger] pixel_point(math, scale, ia1, x)
            &&& #[trigger] pixel_point(math, scale, ib1, y)
            &&& Some(p) == Some(Rectangle::<i32>::between(x, y))
        };
    let (qa, qb) = choose|x: Point<i32>, y: Point<i32>|
        {
            &&& #[trigger] pixel_point(math, scale, ia2, x)
            &&& #[trigger] pixel_point(math, scale, ib2, y)
            &&& Some(q) == Some(Rectangle::<i32>::between(x, y))
        };
    if far_corner(first).x <= near_corner(second).x {
        assert(b1.x.at_most(a2.x));
        assert(ib1.x.at_most(ia2.x));
        assert(pixel(math, scale.x, ib1.x, pb.x) && pixel(math, scale.x, ia2.x, qa.x));
        assert(p.right() <= pb.x);
    } else {
        assert(b1.y.at_most(a2.y));
        assert(ib1.y.at_most(ia2.y));
        assert(pixel(math, scale.y, ib1.y, pb.y) && pixel(math, scale.y, ia2.y, qa.y));
        assert(p.bottom() <= pb.y);
    }
}

/// What [`EffectSubregion::filter_damage`] keeps covers exactly the damaged pixels that lie inside
/// what is left of the subregion.
pub proof fn filtered_damage_is_exact<M: RenderMath>(
    math: &M,
    region: EffectSubregion,
    crop: Rectangle<Float64>,
    scale: Scale<Float64>,
    pieces: Seq<Option<Rectangle<i32>>>,
    damage: Seq<Rectangle<i32>>,
    x: int,
    y: int,
)
    requires
        !crop.size.w.nan(),
        !crop.size.h.nan(),
        pixels_keep_order(math, scale.x),
        pixels_keep_order(math, scale.y),
        region.leaves_all(math, crop, scale, pieces),
        all_proper(damage),
    ensures
        covered(damage_in(pieces, damage), x, y) <==> pieces_cover(pieces, x, y) && covered(
            damage,
            x,
            y,
        ),
{
    assert forall|i: int| 0 <= i < pieces.len() implies (#[trigger] pieces[i] matches Some(r)
        ==> r.proper()) by {
        if let Some(r) = pieces[i] {
            pieces_are_proper(math, region, crop, scale, region.rects@[i], r);
        }
    }
    kept_damage_is_exact(pieces, damage, x, y);
}

pub(crate) proof fn stretching_repeats<M: RenderMath>(
    math: &M,
    crop: Size<Float64>,
    dst: Size<i32>,
    r: Scale<Float64>,
    s: Scale<Float64>,
)
    requires
        repeatable(math),
        stretches(math, crop, dst, r),
        stretches(math, crop, dst, s),
    ensures
        r == s,
{
}

proof fn corner_repeats<M: RenderMath>(
    math: &M,
    region: EffectSubregion,
    origin: Point<Float64>,
    corner: Point<i64>,
    p: Point<Float64>,
    q: Point<Float64>,
)
    requires
        repeatable(math),
        region.places_from(math, origin, corner, p),
        region.places_from(math, origin, corner, q),
    ensures
        p == q,
{
    let a = choose|r: Point<Float64>| #[trigger]
        region.places(math, corner, r) && relative(math, r, origin, p);
    let b = choose|r: Point<Float64>| #[trigger]
        region.places(math, corner, r) && relative(math, r, origin, q);
    placing_repeats(math, region.scale.x, region.offset.x, corner.x, a.x, b.x);
    placing_repeats(math, region.scale.y, region.offset.y, corner.y, a.y, b.y);
}

proof fn rounding_repeats<M: RenderMath>(
    math: &M,
    scale: Scale<Float64>,
    part: Option<(Point<Float64>, Point<Float64>)>,
    p: Option<Rectangle<i32>>,
    q: Option<Rectangle<i32>>,
)
    requires
        repeatable(math),
        rounded(math, scale, part, p),
        rounded(math, scale, part, q),
    ensures
        p == q,
{
    if let Some((ia, ib)) = part {
        let (pa, pb) = choose|x: Point<i32>, y: Point<i32>|
            {
                &&& #[trigger] pixel_point(math, scale, ia, x)
                &&& #[trigger] pixel_point(math, scale, ib, y)
                &&& p == Some(Rectangle::<i32>::between(x, y))
            };
        let (qa, qb) = choose|x: Point<i32>, y: Point<i32>|
            {
                &&& #[trigger] pixel_point(math, scale, ia, x)
                &&& #[trigger] pixel_point(math, scale, ib, y)
                &&& q == Some(Rectangle::<i32>::between(x, y))
            };
        pixel_repeats(math, scale.x, ia.x, pa.x, qa.x);
        pixel_repeats(math, scale.y, ia.y, pa.y, qa.y);
        pixel_repeats(math, scale.x, ib.x, pb.x, qb.x);
        pixel_repeats(math, scale.y, ib.y, pb.y, qb.y);
    }
}

proof fn leaving_repeats<M: RenderMath>(
    math: &M,
    region: EffectSubregion,
    crop: Rectangle<Float64>,
    scale: Scale<Float64>,
    rect: Rectangle<i32>,
    p: Option<Rectangle<i32>>,
    q: Option<Rectangle<i32>>,
)
    requires
        repeatable(math),
        region.leaves(math, crop, scale, rect, p),
        region.leaves(math, crop, scale, rect, q),
    ensures
        p == q,
{
    let near = near_corner(rect);
    let far = far_corner(rect);
    let (a, b) = choose|a: Point<Float64>, b: Point<Float64>|
        {
            &&& #[trigger] region.places_from(math, crop.loc, near, a)
            &&& #[trigger] region.places_from(math, crop.loc, far, b)
            &&& rounded(math, scale, clipped(a, b, crop.size), p)
        };
    let (c, d) = choose|a: Point<Float64>, b: Point<Float64>|
        {
            &&& #[trigger] region.places_from(math, crop.loc, near, a)
            &&& #[trigger] region.places_from(math, crop.loc, far, b)
            &&& rounded(math, scale, clipped(a, b, crop.size), q)
        };
    corner_repeats(math, region, crop.loc, near, a, c);
    corner_repeats(math, region, crop.loc, far, b, d);
    rounding_repeats(math, scale, clipped(a, b, crop.size), p, q);
}

proof fn damage_in_sum(
    first: Seq<Option<Rectangle<i32>>>,
    second: Seq<Option<Rectangle<i32>>>,
    damage: Seq<Rectangle<i32>>,
)
    ensures
        damage_in(first + second, damage) == damage_in(first, damage) + damage_in(second, damage),
    decreases second.len(),
{
    if second.len() == 0 {
        assert(first + second =~= first);
    } else {
        assert((first + second).drop_last() =~= first + second.drop_last());
        assert((first + second).last() == second.last());
        damage_in_sum(first, second.drop_last(), damage);
    }
    assert(damage_in(first + second, damage) =~= damage_in(first, damage) + damage_in(
        second,
        damage,
    ));
}

/// Filtering goes rect by rect: with a given scale, what filtering with two joined lists of rects
/// may leave is exactly what filtering with the one and then with the other may leave.
pub proof fn filtering_goes_rect_by_rect<M: RenderMath>(
    math: &M,
    first: EffectSubregion,
    second: EffectSubregion,
    joined: EffectSubregion,
    crop: Rectangle<Float64>,
    scale: Scale<Float64>,
    damage: Seq<Rectangle<i32>>,
    before: Seq<Rectangle<i32>>,
    after: Seq<Rectangle<i32>>,
)
    requires
        first.scale == joined.scale,
        first.offset == joined.offset,
        second.scale == joined.scale,
        second.offset == joined.offset,
        joined.rects@ == first.rects@ + second.rects@,
    ensures
        joined.filters_at(math, crop, scale, damage, before, after) <==> exists|
            between: Seq<Rectangle<i32>>,
        |
            {
                &&& #[trigger] first.filters_at(math, crop, scale, damage, before, between)
                &&& second.filters_at(math, crop, scale, damage, between, after)
            },
{
    let n = first.rects@.len() as int;
    if joined.filters_at(math, crop, scale, damage, before, after) {
        let p = choose|pieces: Seq<Option<Rectangle<i32>>>|
            {
                &&& #[trigger] joined.leaves_all(math, crop, scale, pieces)
                &&& after == before + damage_in(pieces, damage)
            };
        let p1 = p.take(n);
        let p2 = p.skip(n);
        let between = before + damage_in(p1, damage);
        assert forall|i: int| 0 <= i < p1.len() implies first.leaves(
            math,
            crop,
            scale,
            first.rects@[i],
            #[trigger] p1[i],
        ) by {
            assert(joined.leaves(math, crop, scale, joined.rects@[i], p[i]));
            leaving_ignores_rects(math, joined, first, crop, scale, first.rects@[i], p[i]);
        }
        assert forall|i: int| 0 <= i < p2.len() implies second.leaves(
            math,
            crop,
            scale,
            second.rects@[i],
            #[trigger] p2[i],
        ) by {
            assert(joined.leaves(math, crop, scale, joined.rects@[n + i], p[n + i]));
            leaving_ignores_rects(math, joined, second, crop, scale, second.rects@[i], p[n + i]);
        }
        assert(first.leaves_all(math, crop, scale, p1));
        assert(second.leaves_all(math, crop, scale, p2));
        assert(p =~= p1 + p2);
        damage_in_sum(p1, p2, damage);
        assert(after =~= between + damage_in(p2, damage));
        assert(first.filters_at(math, crop, scale, damage, before, between));
    }
    if exists|between: Seq<Rectangle<i32>>|
        {
            &&& #[trigger] first.filters_at(math, crop, scale, damage, before, between)
            &&& second.filters_at(math, crop, scale, damage, between, after)
        } {
        let between = choose|between: Seq<Rectangle<i32>>|
            {
                &&& #[trigger] first.filters_at(math, crop, scale, damage, before, between)
                &&& second.filters_at(math, crop, scale, damage, between, after)
            };
        let p1 = choose|pieces: Seq<Option<Rectangle<i32>>>|
            {
                &&& #[trigger] first.leaves_all(math, crop, scale, pieces)
                &&& between == before + damage_in(pieces, damage)
            };
        let p2 = choose|pieces: Seq<Option<Rectangle<i32>>>|
            {
                &&& #[trigger] second.leaves_all(math, crop, scale, pieces)
                &&& after == between + damage_in(pieces, damage)
            };
        let p = p1 + p2;
        assert forall|i: int| 0 <= i < p.len() implies joined.leaves(
            math,
            crop,
            scale,
            joined.rects@[i],
            #[trigger] p[i],
        ) by {
            if i < n {
                assert(first.leaves(math, crop, scale, first.rects@[i], p1[i]));
                leaving_ignores_rects(math, first, joined, crop, scale, first.rects@[i], p1[i]);
            } else {
                let rect = second.rects@[i - n];
                assert(second.leaves(math, crop, scale, rect, p2[i - n]));
                leaving_ignores_rects(math, second, joined, crop, scale, rect, p2[i - n]);
            }
        }
        assert(joined.leaves_all(math, crop, scale, p));
        damage_in_sum(p1, p2, damage);
        assert(after =~= before + damage_in(p, damage));
    }
}

proof fn leaving_ignores_rects<M: RenderMath>(
    math: &M,
    region: EffectSubregion,
    other: EffectSubregion,
    crop: Rectangle<Float64>,
    scale: Scale<Float64>,
    rect: Rectangle<i32>,
    piece: Option<Rectangle<i32>>,
)
    requires
        region.scale == other.scale,
        region.offset == other.offset,
        region.leaves(math, crop, scale, rect, piece),
    ensures
        other.leaves(math, crop, scale, rect, piece),
{
    let near = near_corner(rect);
    let far = far_corner(rect);
    let (a, b) = choose|a: Point<Float64>, b: Point<Float64>|
        {
            &&& #[trigger] region.places_from(math, crop.loc, near, a)
            &&& #[trigger] region.places_from(math, crop.loc, far, b)
            &&& rounded(math, scale, clipped(a, b, crop.size), piece)
        };
    let p = choose|q: Point<Float64>| #[trigger]
        region.places(math, near, q) && relative(math, q, crop.loc, a);
    let q = choose|q: Point<Float64>| #[trigger]
        region.places(math, far, q) && relative(math, q, crop.loc, b);
    assert(other.places(math, near, p));
    assert(other.places(math, far, q));
    assert(other.places_from(math, crop.loc, near, a));
    assert(other.places_from(math, crop.loc, far, b));
}

pub(crate) proof fn filtering_at_repeats<M: RenderMath>(
    math: &M,
    region: EffectSubregion,
    crop: Rectangle<Float64>,
    scale: Scale<Float64>,
    damage: Seq<Rectangle<i32>>,
    before: Seq<Rectangle<i32>>,
    a: Seq<Rectangle<i32>>,
    b: Seq<Rectangle<i32>>,
)
    requires
        repeatable(math),
        region.filters_at(math, crop, scale, damage, before, a),
        region.filters_at(math, crop, scale, damage, before, b),
    ensures
        a == b,
{
    let p = choose|pieces: Seq<Option<Rectangle<i32>>>|
        {
            &&& #[trigger] region.leaves_all(math, crop, scale, pieces)
            &&& a == before + damage_in(pieces, damage)
        };
    let q = choose|pieces: Seq<Option<Rectangle<i32>>>|
        {
            &&& #[trigger] region.leaves_all(math, crop, scale, pieces)
            &&& b == before + damage_in(pieces, damage)
        };
    assert forall|i: int| 0 <= i < p.len() implies #[trigger] p[i] == q[i] by {
        leaving_repeats(math, region, crop, scale, region.rects@[i], p[i], q[i]);
    }
    assert(p =~= q);
}

/// Filtering with one list of rects and then with another leaves what filtering with the two
/// joined leaves.
pub proof fn filtering_twice_is_filtering_once<M: RenderMath>(
    math: &M,
    first: EffectSubregion,
    second: EffectSubregion,
    joined: EffectSubregion,
    crop: Rectangle<Float64>,
    dst: Rectangle<i32>,
    damage: Seq<Rectangle<i32>>,
    before: Seq<Rectangle<i32>>,
    between: Seq<Rectangle<i32>>,
    after: Seq<Rectangle<i32>>,
    at_once: Seq<Rectangle<i32>>,
)
    requires
        repeatable(math),
        first.scale == joined.scale,
        first.offset == joined.offset,
        second.scale == joined.scale,
        second.offset == joined.offset,
        joined.rects@ == first.rects@ + second.rects@,
        first.filters(math, crop, dst, damage, before, between),
        second.filters(math, crop, dst, damage, between, after),
        joined.filters(math, crop, dst, damage, before, at_once),
    ensures
        after == at_once,
{
    let s1 = choose|scale: Scale<Float64>| #[trigger]
        stretches(math, crop.size, dst.size, scale) && first.filters_at(
            math,
            crop,
            scale,
            damage,
            before,
            between,
        );
    let s2 = choose|scale: Scale<Float64>| #[trigger]
        stretches(math, crop.size, dst.size, scale) && second.filters_at(
            math,
            crop,
            scale,
            damage,
            between,
            after,
        );
    let s = choose|scale: Scale<Float64>| #[trigger]
        stretches(math, crop.size, dst.size, scale) && joined.filters_at(
            math,
            crop,
            scale,
            damage,
            before,
            at_once,
        );
    stretching_repeats(math, crop.size, dst.size, s1, s);
    stretching_repeats(math, crop.size, dst.size, s2, s);
    filtering_goes_rect_by_rect(math, first, second, joined, crop, s, damage, before, after);
    filtering_at_repeats(math, joined, crop, s, damage, before, after, at_once);
}

/// Pixels are counted from the origin of an area of the size of `crop`, which ends where `dst`
/// does.
pub open spec fn pixels_fill<M: RenderMath>(
    math: &M,
    scale: Scale<Float64>,
    crop: Size<Float64>,
    dst: Size<i32>,
) -> bool {
    let zero = Float64 { bits: 0 };
    &&& pixel(math, scale.x, zero, 0)
    &&& pixel(math, scale.y, zero, 0)
    &&& pixel(math, scale.x, crop.w, dst.w)
    &&& pixel(math, scale.y, crop.h, dst.h)
}

proof fn pieces_stay_inside<M: RenderMath>(
    math: &M,
    region: EffectSubregion,
    crop: Rectangle<Float64>,
    scale: Scale<Float64>,
    dst: Size<i32>,
    rect: Rectangle<i32>,
    piece: Rectangle<i32>,
)
    requires
        !crop.size.w.nan(),
        !crop.size.h.nan(),
        pixels_keep_order(math, scale.x),
        pixels_keep_order(math, scale.y),
        pixels_fill(math, scale, crop.size, dst),
        region.leaves(math, crop, scale, rect, Some(piece)),
    ensures
        0 <= piece.loc.x && piece.right() <= dst.w,
        0 <= piece.loc.y && piece.bottom() <= dst.h,
{
    let zero = Float64 { bits: 0 };
    let (a, b) = choose|a: Point<Float64>, b: Point<Float64>|
        {
            &&& #[trigger] region.places_from(math, crop.loc, near_corner(rect), a)
            &&& #[trigger] region.places_from(math, crop.loc, far_corner(rect), b)
            &&& rounded(math, scale, clipped(a, b, crop.size), Some(piece))
        };
    let (ia, ib) = clipped(a, b, crop.size)->0;
    let (p, q) = choose|p: Point<i32>, q: Point<i32>|
        {
            &&& #[trigger] pixel_point(math, scale, ia, p)
            &&& #[trigger] pixel_point(math, scale, ib, q)
            &&& Some(piece) == Some(Rectangle::<i32>::between(p, q))
        };
    assert(zero.at_most(ia.x) && ia.x.at_most(ib.x) && ib.x.at_most(crop.size.w));
    assert(zero.at_most(ia.y) && ia.y.at_most(ib.y) && ib.y.at_most(crop.size.h));
    assert(pixel(math, scale.x, ia.x, p.x) && pixel(math, scale.x, ib.x, q.x));
    assert(pixel(math, scale.y, ia.y, p.y) && pixel(math, scale.y, ib.y, q.y));
}

/// What [`EffectSubregion::filter_damage`] keeps lies inside `dst`, from whose origin the damage
/// is measured.
pub proof fn kept_damage_stays_inside<M: RenderMath>(
    math: &M,
    region: EffectSubregion,
    crop: Rectangle<Float64>,
    dst: Rectangle<i32>,
    damage: Seq<Rectangle<i32>>,
    before: Seq<Rectangle<i32>>,
    after: Seq<Rectangle<i32>>,
    k: int,
)
    requires
        !crop.size.w.nan(),
        !crop.size.h.nan(),
        forall|scale: Scale<Float64>| #[trigger]
            stretches(math, crop.size, dst.size, scale) ==> {
                &&& pixels_keep_order(math, scale.x)
                &&& pixels_keep_order(math, scale.y)
                &&& pixels_fill(math, scale, crop.size, dst.size)
            },
        region.filters(math, crop, dst, damage, before, after),
        before.len() <= k < after.len(),
    ensures
        0 <= after[k].loc.x && after[k].right() <= dst.size.w,
        0 <= after[k].loc.y && after[k].bottom() <= dst.size.h,
{
    let scale = choose|scale: Scale<Float64>| #[trigger]
        stretches(math, crop.size, dst.size, scale) && region.filters_at(
            math,
            crop,
            scale,
            damage,
            before,
            after,
        );
    let pieces = choose|pieces: Seq<Option<Rectangle<i32>>>|
        {
            &&& #[trigger] region.leaves_all(math, crop, scale, pieces)
            &&& after == before + damage_in(pieces, damage)
        };
    let (i, j) = kept_rects_are_intersections(pieces, damage, k - before.len());
    let piece = pieces[i]->0;
    pieces_stay_inside(math, region, crop, scale, dst.size, region.rects@[i], piece);
}

} // verus!
