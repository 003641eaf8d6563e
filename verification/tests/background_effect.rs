use layer_effects::background_effect::{
    BackgroundEffect, BackgroundEffectElement, EffectDraw, ExtraDamage, Options, RenderParams,
    XrayPos,
};
use layer_effects::float::{Float32, Float64};
use layer_effects::geometry::{Point, Rectangle, Size};
use layer_effects::math::RenderMath;
use layer_effects::style::{BackgroundEffectRule, Blur, BlurKernel, CornerRadius};

fn f(v: f64) -> Float64 {
    Float64 { bits: v.to_bits() }
}

fn d(v: Float64) -> f64 {
    f64::from_bits(v.bits)
}

fn g(v: f32) -> Float32 {
    Float32 { bits: v.to_bits() }
}

fn e(v: Float32) -> f32 {
    f32::from_bits(v.bits)
}

fn map_radius(r: CornerRadius, f: impl Fn(f32) -> f32) -> CornerRadius {
    CornerRadius {
        top_left: g(f(e(r.top_left))),
        top_right: g(f(e(r.top_right))),
        bottom_right: g(f(e(r.bottom_right))),
        bottom_left: g(f(e(r.bottom_left))),
    }
}

struct Native;

impl RenderMath for Native {
    fn from_int(&self, v: i64) -> Float64 {
        f(v as f64)
    }
    fn sum(&self, a: Float64, b: Float64) -> Float64 {
        f(d(a) + d(b))
    }
    fn difference(&self, a: Float64, b: Float64) -> Float64 {
        f(d(a) - d(b))
    }
    fn product(&self, a: Float64, b: Float64) -> Float64 {
        f(d(a) * d(b))
    }
    fn quotient(&self, a: Float64, b: Float64) -> Float64 {
        f(d(a) / d(b))
    }
    fn round(&self, v: Float64) -> Float64 {
        f(d(v).round())
    }
    fn to_int(&self, v: Float64) -> i32 {
        d(v) as i32
    }
    fn narrow(&self, v: Float64) -> Float32 {
        g(d(v) as f32)
    }
    fn expanded_by(&self, radius: CornerRadius, width: Float32) -> CornerRadius {
        map_radius(radius, |r| if r > 0. { r + e(width) } else { r })
    }
    fn fit_to(&self, radius: CornerRadius, width: Float32, height: Float32) -> CornerRadius {
        let limit = e(width).min(e(height)) / 2.;
        map_radius(radius, |r| r.min(limit))
    }
    fn baba_is_float_offset(&self, now: u64, view_height: Float64) -> Float64 {
        f(now as f64 * d(view_height))
    }
    fn round_logical_in_physical(&self, scale: Float64, v: Float64) -> Float64 {
        f((d(v) * d(scale)).round() / d(scale))
    }
}

fn blur_config() -> Blur {
    Blur { off: false, noise: f(0.02), saturation: f(1.5), kernel: BlurKernel { handle: 3 } }
}

fn rule(blur: Option<bool>, xray: Option<bool>) -> BackgroundEffectRule {
    BackgroundEffectRule { blur, xray, noise: None, saturation: None }
}

fn radius(v: f32) -> CornerRadius {
    CornerRadius { top_left: g(v), top_right: g(v), bottom_right: g(v), bottom_left: g(v) }
}

fn rect(x: f64, y: f64, w: f64, h: f64) -> Rectangle<Float64> {
    Rectangle { loc: Point { x: f(x), y: f(y) }, size: Size { w: f(w), h: f(h) } }
}

fn params(clip: bool) -> RenderParams {
    RenderParams {
        geometry: rect(1., 2., 100., 50.),
        subregion: None,
        clip: if clip { Some((rect(1., 2., 100., 50.), CornerRadius::default())) } else { None },
        scale: f(1.5),
    }
}

fn options_for(rule: BackgroundEffectRule, has_blur_region: bool) -> Options {
    let mut effect = BackgroundEffect::new(blur_config());
    effect.update_render_elements(CornerRadius::default(), rule, has_blur_region);
    effect.options
}

/// Draws with a backdrop, and gives the effect that is drawn last.
fn drawn(effect: &BackgroundEffect) -> EffectDraw {
    let mut elements = effect.render(&Native, None, params(false), XrayPos::new(), true);
    match elements.pop() {
        Some(BackgroundEffectElement::Xray { effect, .. }) => effect,
        other => panic!("unexpected {other:?}"),
    }
}

#[test]
fn a_new_effect_is_invisible() {
    let effect = BackgroundEffect::new(blur_config());
    assert!(!effect.is_visible());
    assert_eq!(effect.options, Options::default());
    assert_eq!(effect.damage, ExtraDamage::new());
    assert!(effect.render(&Native, None, params(true), XrayPos::new(), true).is_empty());
}

#[test]
fn visibility_of_single_options() {
    let none = Options::default();
    assert!(!none.is_visible());
    assert!(Options { blur: true, ..none }.is_visible());
    assert!(Options { xray: true, ..none }.is_visible());
    assert!(Options { noise: Some(f(0.01)), ..none }.is_visible());
    assert!(!Options { noise: Some(f(0.)), ..none }.is_visible());
    assert!(!Options { noise: Some(f(-0.)), ..none }.is_visible());
    assert!(!Options { noise: Some(f(-1.)), ..none }.is_visible());
    assert!(!Options { noise: Some(f(f64::NAN)), ..none }.is_visible());
    assert!(Options { saturation: Some(f(0.)), ..none }.is_visible());
    assert!(Options { saturation: Some(f(1.1)), ..none }.is_visible());
    assert!(Options { saturation: Some(f(f64::NAN)), ..none }.is_visible());
    assert!(!Options { saturation: Some(f(1.)), ..none }.is_visible());
}

#[test]
fn blur_follows_rule_and_request() {
    assert!(!options_for(rule(None, None), false).blur);
    assert!(options_for(rule(None, None), true).blur);
    assert!(options_for(rule(Some(true), None), false).blur);
    assert!(options_for(rule(Some(true), None), true).blur);
    assert!(!options_for(rule(Some(false), None), false).blur);
    assert!(!options_for(rule(Some(false), None), true).blur);
}

#[test]
fn xray_defaults_to_on_with_any_effect() {
    assert!(options_for(rule(Some(true), None), false).xray);
    assert!(options_for(rule(None, None), true).xray);
    assert!(!options_for(rule(None, None), false).xray);
    assert!(!options_for(rule(Some(true), Some(false)), true).xray);
    assert!(options_for(rule(None, Some(true)), false).xray);
    let noisy = BackgroundEffectRule { noise: Some(f(0.1)), ..rule(None, None) };
    assert!(options_for(noisy, false).xray);
    let gray = BackgroundEffectRule { saturation: Some(f(0.)), ..rule(None, None) };
    assert!(options_for(gray, false).xray);
    let plain = BackgroundEffectRule {
        noise: Some(f(0.)),
        saturation: Some(f(1.)),
        ..rule(None, None)
    };
    assert!(!options_for(plain, false).xray);
}

#[test]
fn changes_damage_once() {
    let mut effect = BackgroundEffect::new(blur_config());
    effect.update_render_elements(radius(0.), rule(None, None), false);
    assert_eq!(effect.damage.generation, 0);
    effect.update_render_elements(radius(0.), rule(Some(true), None), false);
    assert_eq!(effect.damage.generation, 1);
    effect.update_render_elements(radius(0.), rule(Some(true), None), false);
    assert_eq!(effect.damage.generation, 1);
    effect.update_render_elements(radius(8.), rule(Some(true), None), false);
    assert_eq!(effect.damage.generation, 2);
    assert_eq!(effect.corner_radius, radius(8.));

    effect.update_config(blur_config());
    assert_eq!(effect.damage.generation, 2);
    let other = Blur { kernel: BlurKernel { handle: 4 }, ..blur_config() };
    effect.update_config(other);
    assert_eq!(effect.damage.generation, 3);
    assert_eq!(effect.blur_config, other);
    effect.update_config(Blur { noise: f(0.5), ..other });
    assert_eq!(effect.damage.generation, 4);
    effect.update_config(Blur { noise: f(0.5), off: true, ..other });
    assert_eq!(effect.damage.generation, 5);
}

#[test]
fn settings_that_are_not_numbers_always_damage() {
    let mut effect = BackgroundEffect::new(blur_config());
    let odd = BackgroundEffectRule { noise: Some(f(f64::NAN)), ..rule(None, None) };
    effect.update_render_elements(radius(0.), odd, false);
    effect.update_render_elements(radius(0.), odd, false);
    assert_eq!(effect.damage.generation, 2);
}

#[test]
fn damage_wraps_around() {
    let mut damage = ExtraDamage { generation: usize::MAX };
    damage.damage_all();
    assert_eq!(damage.generation, 0);
    damage.damage_all();
    assert_eq!(damage.generation, 1);
}

#[test]
fn xray_effect_is_drawn_with_blur_defaults() {
    let mut effect = BackgroundEffect::new(blur_config());
    effect.update_render_elements(radius(8.), rule(Some(true), None), false);
    let pos = XrayPos::new().offset(Point { x: f(4.), y: f(5.) });
    let mut elements = effect.render(&Native, Some(7), params(true), pos, true);
    assert_eq!(elements.len(), 2);
    let element = match elements.pop() {
        Some(BackgroundEffectElement::Xray { effect, xray_pos }) => {
            assert_eq!(xray_pos.offsets, vec![Point { x: f(4.), y: f(5.) }]);
            effect
        }
        other => panic!("unexpected {other:?}"),
    };
    assert!(element.blur);
    assert_eq!(e(element.noise), 0.02);
    assert_eq!(e(element.saturation), 1.5);
    assert_eq!(element.params.geometry, rect(1., 2., 100., 50.));
    assert_eq!(element.params.scale, f(1.5));
    assert!(element.params.subregion.is_none());
    let (clip, fitted) = element.params.clip.unwrap();
    assert_eq!(clip, rect(1., 2., 100., 50.));
    assert_eq!(fitted, radius(9.));
    match elements.pop() {
        Some(BackgroundEffectElement::ExtraDamage(damage)) => {
            assert_eq!(damage.damage, effect.damage);
            assert_eq!(damage.damage.generation, 1);
            assert_eq!(damage.geometry, rect(1., 2., 100., 50.));
        }
        other => panic!("unexpected {other:?}"),
    }
}

#[test]
fn xray_effect_needs_a_backdrop() {
    let mut effect = BackgroundEffect::new(blur_config());
    effect.update_render_elements(radius(8.), rule(Some(true), None), false);
    assert!(effect.is_visible());
    assert!(effect.render(&Native, None, params(true), XrayPos::new(), false).is_empty());
}

#[test]
fn effect_without_xray_needs_no_backdrop() {
    let mut effect = BackgroundEffect::new(blur_config());
    effect.update_render_elements(radius(8.), rule(Some(true), Some(false)), false);
    let mut elements = effect.render(&Native, Some(7), params(false), XrayPos::new(), false);
    assert_eq!(elements.len(), 1);
    let element = match elements.pop() {
        Some(BackgroundEffectElement::NonXray { effect, ns: Some(7) }) => effect,
        other => panic!("unexpected {other:?}"),
    };
    assert!(element.blur);
    assert_eq!(e(element.noise), 0.02);
    assert!(element.params.clip.is_none());
}

#[test]
fn blur_that_is_off_leaves_no_traces() {
    let mut effect = BackgroundEffect::new(Blur { off: true, ..blur_config() });
    effect.update_render_elements(radius(0.), rule(Some(true), None), false);
    let element = drawn(&effect);
    assert!(!element.blur);
    assert_eq!(e(element.noise), 0.);
    assert_eq!(e(element.saturation), 1.);
}

#[test]
fn own_noise_and_saturation_are_drawn() {
    let mut effect = BackgroundEffect::new(blur_config());
    let own = BackgroundEffectRule {
        noise: Some(f(0.25)),
        saturation: Some(f(0.5)),
        ..rule(Some(true), None)
    };
    effect.update_render_elements(radius(0.), own, false);
    let element = drawn(&effect);
    assert_eq!(e(element.noise), 0.25);
    assert_eq!(e(element.saturation), 0.5);

    let unblurred = BackgroundEffectRule { blur: None, saturation: None, ..own };
    effect.update_render_elements(radius(0.), unblurred, false);
    let element = drawn(&effect);
    assert!(!element.blur);
    assert_eq!(e(element.noise), 0.25);
    assert_eq!(e(element.saturation), 1.);
}

#[test]
fn clip_radius_is_expanded_and_fitted() {
    let mut p = params(true);
    p.clip = Some((rect(0., 0., 100., 50.), radius(10.)));
    p.fit_clip_radius(&Native);
    assert_eq!(p.clip, Some((rect(0., 0., 100., 50.), radius(11.))));
    p.clip = Some((rect(0., 0., 100., 50.), radius(100.)));
    p.fit_clip_radius(&Native);
    assert_eq!(p.clip, Some((rect(0., 0., 100., 50.), radius(25.))));
    p.clip = Some((rect(0., 0., 100., 50.), radius(0.)));
    p.fit_clip_radius(&Native);
    assert_eq!(p.clip, Some((rect(0., 0., 100., 50.), radius(0.))));
    p.clip = None;
    p.fit_clip_radius(&Native);
    assert_eq!(p.clip, None);
}
