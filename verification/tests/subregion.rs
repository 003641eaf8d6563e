use std::sync::Arc;

use layer_effects::float::{Float32, Float64};
use layer_effects::geometry::{Point, Rectangle, Scale, Size};
use layer_effects::math::RenderMath;
use layer_effects::style::CornerRadius;
use layer_effects::subregion::{clip, push_shared, EffectSubregion};

fn f(v: f64) -> Float64 {
    Float64 { bits: v.to_bits() }
}

fn d(v: Float64) -> f64 {
    f64::from_bits(v.bits)
}

fn g(v: f32) -> Float32 {
    Float32 { bits: v.to_bits() }
}

fn e(v: Float32) -> f32 {
    f32::from_bits(v.bits)
}

fn map_radius(r: CornerRadius, f: impl Fn(f32) -> f32) -> CornerRadius {
    CornerRadius {
        top_left: g(f(e(r.top_left))),
        top_right: g(f(e(r.top_right))),
        bottom_right: g(f(e(r.bottom_right))),
        bottom_left: g(f(e(r.bottom_left))),
    }
}

struct Native;

impl RenderMath for Native {
    fn from_int(&self, v: i64) -> Float64 {
        f(v as f64)
    }
    fn sum(&self, a: Float64, b: Float64) -> Float64 {
        f(d(a) + d(b))
    }
    fn difference(&self, a: Float64, b: Float64) -> Float64 {
        f(d(a) - d(b))
    }
    fn product(&self, a: Float64, b: Float64) -> Float64 {
        f(d(a) * d(b))
    }
    fn quotient(&self, a: Float64, b: Float64) -> Float64 {
        f(d(a) / d(b))
    }
    fn round(&self, v: Float64) -> Float64 {
        f(d(v).round())
    }
    fn to_int(&self, v: Float64) -> i32 {
        d(v) as i32
    }
    fn narrow(&self, v: Float64) -> Float32 {
        g(d(v) as f32)
    }
    fn expanded_by(&self, radius: CornerRadius, width: Float32) -> CornerRadius {
        map_radius(radius, |r| if r > 0. { r + e(width) } else { r })
    }
    fn fit_to(&self, radius: CornerRadius, width: Float32, height: Float32) -> CornerRadius {
        let limit = e(width).min(e(height)) / 2.;
        map_radius(radius, |r| r.min(limit))
    }
    fn baba_is_float_offset(&self, now: u64, view_height: Float64) -> Float64 {
        f(now as f64 * d(view_height))
    }
    fn round_logical_in_physical(&self, scale: Float64, v: Float64) -> Float64 {
        f((d(v) * d(scale)).round() / d(scale))
    }
}

fn rect(x: i32, y: i32, w: i32, h: i32) -> Rectangle<i32> {
    Rectangle { loc: Point { x, y }, size: Size { w, h } }
}

fn area(x: f64, y: f64, w: f64, h: f64) -> Rectangle<Float64> {
    Rectangle { loc: Point { x: f(x), y: f(y) }, size: Size { w: f(w), h: f(h) } }
}

fn point(x: f64, y: f64) -> Point<Float64> {
    Point { x: f(x), y: f(y) }
}

fn subregion(rects: Vec<Rectangle<i32>>, scale: f64, x: f64, y: f64) -> EffectSubregion {
    EffectSubregion {
        rects: Arc::new(rects),
        scale: Scale { x: f(scale), y: f(scale) },
        offset: point(x, y),
    }
}

fn inside(r: &Rectangle<i32>, x: i32, y: i32) -> bool {
    r.loc.x <= x && x < r.loc.x + r.size.w && r.loc.y <= y && y < r.loc.y + r.size.h
}

/// The pieces of a subregion, computed on plain floating-point numbers.
fn pieces(s: &EffectSubregion, crop: Rectangle<Float64>, dst: Rectangle<i32>) -> Vec<Rectangle<i32>> {
    let (sx, sy) = (
        dst.size.w as f64 / d(crop.size.w),
        dst.size.h as f64 / d(crop.size.h),
    );
    let mut out = Vec::new();
    for r in s.rects.iter() {
        let ax = r.loc.x as f64 * d(s.scale.x) + d(s.offset.x) - d(crop.loc.x);
        let ay = r.loc.y as f64 * d(s.scale.y) + d(s.offset.y) - d(crop.loc.y);
        let bx =
            (r.loc.x as f64 + r.size.w as f64) * d(s.scale.x) + d(s.offset.x) - d(crop.loc.x);
        let by =
            (r.loc.y as f64 + r.size.h as f64) * d(s.scale.y) + d(s.offset.y) - d(crop.loc.y);
        let (iax, iay) = (f64::max(ax, 0.), f64::max(ay, 0.));
        let (ibx, iby) = (f64::min(bx, d(crop.size.w)), f64::min(by, d(crop.size.h)));
        if ibx <= iax || iby <= iay {
            continue;
        }
        let (x, y) = ((iax * sx).round() as i32, (iay * sy).round() as i32);
        let (r, b) = ((ibx * sx).round() as i32, (iby * sy).round() as i32);
        out.push(rect(x, y, r - x, b - y));
    }
    out
}

#[test]
fn corners_are_scaled_and_moved() {
    let s = subregion(vec![rect(1, 2, 10, 20), rect(-5, 0, 5, 1)], 2., 0.5, -1.);
    let corners = s.iter(&Native);
    assert_eq!(
        corners,
        vec![
            (point(2.5, 3.), point(22.5, 43.)),
            (point(-9.5, -1.), point(0.5, 1.)),
        ]
    );
}

#[test]
fn axes_are_scaled_separately() {
    let s = EffectSubregion {
        rects: Arc::new(vec![rect(1, 1, 1, 1)]),
        scale: Scale { x: f(2.), y: f(3.) },
        offset: point(10., 20.),
    };
    assert_eq!(s.iter(&Native), vec![(point(12., 23.), point(14., 26.))]);
}

#[test]
fn far_corners_beyond_the_last_coordinate_are_exact() {
    let s = subregion(vec![rect(i32::MAX, 0, i32::MAX, 1)], 1., 0., 0.);
    let far = s.iter(&Native)[0].1;
    assert_eq!(d(far.x), 4294967294.);
}

#[test]
fn clipping_to_an_area() {
    let size = Size { w: f(10.), h: f(10.) };
    assert_eq!(
        clip(point(-5., 2.), point(5., 20.), size),
        Some((point(0., 2.), point(5., 10.)))
    );
    assert_eq!(clip(point(10., 0.), point(20., 5.), size), None);
    assert_eq!(clip(point(-10., 0.), point(0., 5.), size), None);
    assert_eq!(clip(point(0., 5.), point(5., 5.), size), None);
    let odd = clip(point(f64::NAN, 1.), point(f64::NAN, 2.), size);
    assert_eq!(odd, Some((point(0., 1.), point(10., 2.))));
}

#[test]
fn shared_parts_are_appended_in_order() {
    let mut filtered = vec![rect(9, 9, 9, 9)];
    let damage = [rect(0, 0, 2, 2), rect(50, 50, 1, 1), rect(5, 5, 10, 10)];
    push_shared(rect(1, 1, 10, 10), &damage, &mut filtered);
    assert_eq!(filtered, vec![rect(9, 9, 9, 9), rect(1, 1, 1, 1), rect(5, 5, 6, 6)]);
}

#[test]
fn damage_is_filtered_to_the_subregion() {
    let s = subregion(vec![rect(0, 0, 10, 10), rect(20, 0, 10, 10)], 1., 0., 0.);
    let mut filtered = Vec::new();
    s.filter_damage(
        &Native,
        area(0., 0., 100., 100.),
        rect(0, 0, 100, 100),
        &[rect(5, 5, 20, 2)],
        &mut filtered,
    );
    assert_eq!(filtered, vec![rect(5, 5, 5, 2), rect(20, 5, 5, 2)]);
}

#[test]
fn crop_moves_and_stretches() {
    let s = subregion(vec![rect(0, 0, 10, 10)], 1., 5., 5.);
    let mut filtered = vec![];
    s.filter_damage(
        &Native,
        area(10., 10., 20., 20.),
        rect(0, 0, 40, 60),
        &[rect(0, 0, 40, 60)],
        &mut filtered,
    );
    assert_eq!(filtered, vec![rect(0, 0, 10, 15)]);
}

#[test]
fn rects_outside_the_crop_are_skipped() {
    let s = subregion(vec![rect(0, 0, 10, 10), rect(200, 0, 10, 10)], 1., 0., 0.);
    let mut filtered = vec![];
    s.filter_damage(
        &Native,
        area(10., 0., 50., 50.),
        rect(0, 0, 50, 50),
        &[rect(0, 0, 50, 50)],
        &mut filtered,
    );
    assert_eq!(filtered, vec![]);
}

#[test]
fn filtering_agrees_with_plain_numbers() {
    let rects = vec![
        rect(0, 0, 7, 5),
        rect(7, 0, 6, 5),
        rect(0, 5, 13, 8),
        rect(30, 30, 11, 1),
        rect(-20, -20, 5, 5),
    ];
    let damage = [rect(0, 0, 9, 9), rect(4, 3, 30, 40), rect(60, 60, 2, 2)];
    for scale in [0.75, 1., 1.1, 1.5, 2.25] {
        for offset in [-3.3, 0., 0.4, 10.7] {
            for crop in [area(0., 0., 40., 40.), area(2.5, -1.25, 17.3, 31.9)] {
                for dst in [rect(0, 0, 40, 40), rect(0, 0, 61, 47)] {
                    let s = subregion(rects.clone(), scale, offset, offset / 2.);
                    let mut filtered = vec![rect(1, 1, 1, 1)];
                    s.filter_damage(&Native, crop, dst, &damage, &mut filtered);
                    let mut expected = vec![rect(1, 1, 1, 1)];
                    for piece in pieces(&s, crop, dst) {
                        for r in damage {
                            expected.extend(piece.intersection(r));
                        }
                    }
                    assert_eq!(filtered, expected);
                }
            }
        }
    }
}

#[test]
fn adjacent_rects_remain_adjacent_at_fractional_scales() {
    let all = rect(0, 0, 1000, 1000);
    for scale in [1.1, 1.25, 1.333, 1.5, 1.75] {
        let mut rects = Vec::new();
        for i in 0..20 {
            rects.push(rect(i * 3, 0, 3, 7));
            rects.push(rect(i * 3, 7, 3, 5));
        }
        let s = subregion(rects, 1., 0.3, 0.7);
        let mut filtered = vec![];
        let size = (100. * scale as f64).round() as i32;
        s.filter_damage(
            &Native,
            area(0., 0., 100., 100.),
            rect(0, 0, size, size),
            &[all],
            &mut filtered,
        );
        assert_eq!(filtered.len(), 40);
        for i in 0..19 {
            let (top, bottom, next) = (filtered[2 * i], filtered[2 * i + 1], filtered[2 * i + 2]);
            assert_eq!(top.loc.x + top.size.w, next.loc.x);
            assert_eq!(top.loc.y + top.size.h, bottom.loc.y);
            assert!(!top.overlaps(next));
            assert!(!top.overlaps(bottom));
        }
    }
}

#[test]
fn kept_damage_covers_damaged_pixels_inside_the_subregion() {
    let s = subregion(vec![rect(0, 0, 6, 6), rect(8, 2, 5, 9)], 1.25, 0.5, 0.25);
    let crop = area(0., 0., 20., 20.);
    let dst = rect(0, 0, 30, 30);
    let damage = [rect(2, 2, 12, 6), rect(10, 1, 4, 20)];
    let mut filtered = vec![];
    s.filter_damage(&Native, crop, dst, &damage, &mut filtered);
    let parts = pieces(&s, crop, dst);
    for x in 0..40 {
        for y in 0..40 {
            let kept = filtered.iter().any(|r| inside(r, x, y));
            let damaged = damage.iter().any(|r| inside(r, x, y));
            let within = parts.iter().any(|r| inside(r, x, y));
            assert_eq!(kept, damaged && within);
        }
    }
}

#[test]
fn filtering_twice_is_filtering_with_the_joined_rects() {
    let first = vec![rect(0, 0, 7, 5), rect(30, 30, 11, 1)];
    let second = vec![rect(7, 0, 6, 5), rect(-20, -20, 5, 5), rect(0, 5, 13, 8)];
    let joined: Vec<_> = first.iter().chain(&second).copied().collect();
    let crop = area(2.5, -1.25, 17.3, 31.9);
    let dst = rect(0, 0, 61, 47);
    let damage = [rect(0, 0, 9, 9), rect(4, 3, 30, 40)];
    let mut twice = vec![rect(1, 1, 1, 1)];
    subregion(first, 1.1, 0.4, 0.2).filter_damage(&Native, crop, dst, &damage, &mut twice);
    subregion(second, 1.1, 0.4, 0.2).filter_damage(&Native, crop, dst, &damage, &mut twice);
    let mut once = vec![rect(1, 1, 1, 1)];
    subregion(joined, 1.1, 0.4, 0.2).filter_damage(&Native, crop, dst, &damage, &mut once);
    assert_eq!(twice, once);
    assert!(once.len() > 2);
}

#[test]
fn kept_damage_lies_inside_the_destination() {
    let s = subregion(vec![rect(-50, -50, 60, 60), rect(10, -50, 500, 500)], 1.5, 0.3, -0.7);
    let mut filtered = vec![];
    s.filter_damage(
        &Native,
        area(1.25, 2., 30.5, 20.25),
        rect(7, 9, 46, 31),
        &[rect(-100, -100, 1000, 1000), rect(40, 20, 100, 5)],
        &mut filtered,
    );
    assert_eq!(filtered.len(), 3);
    for r in filtered {
        assert!(r.loc.x >= 0 && r.loc.x + r.size.w <= 46);
        assert!(r.loc.y >= 0 && r.loc.y + r.size.h <= 31);
    }
}
