use std::sync::Arc;

use layer_effects::background_effect::{BackgroundEffectElement, EffectDraw, XrayPos};
use layer_effects::float::{Float32, Float64};
use layer_effects::geometry::{Point, Rectangle, Size};
use layer_effects::kde_blur::SurfaceId;
use layer_effects::layer::{
    effect_shape, has_blur_region, main_surface_geo, BlurRegion, Config, EffectShape,
    ExclusiveZone, Kind, Layer, LayerRules, LayerSurfaceCachedState, LayerSurfaceRenderElement,
    MappedLayer, MergeShadow, Popup, RenderCtx, RenderTarget, SurfaceState, SurfaceView,
};
use layer_effects::math::RenderMath;
use layer_effects::style::{
    BackgroundEffectRule, BlockOutFrom, Blur, BlurKernel, CornerRadius, ResolvedLayerRules,
    ShadowConfig, ShadowLook, ShadowRule,
};

fn f(v: f64) -> Float64 {
    Float64 { bits: v.to_bits() }
}

fn d(v: Float64) -> f64 {
    f64::from_bits(v.bits)
}

fn g(v: f32) -> Float32 {
    Float32 { bits: v.to_bits() }
}

fn e(v: Float32) -> f32 {
    f32::from_bits(v.bits)
}

fn map_radius(r: CornerRadius, f: impl Fn(f32) -> f32) -> CornerRadius {
    CornerRadius {
        top_left: g(f(e(r.top_left))),
        top_right: g(f(e(r.top_right))),
        bottom_right: g(f(e(r.bottom_right))),
        bottom_left: g(f(e(r.bottom_left))),
    }
}

struct Native;

impl RenderMath for Native {
    fn from_int(&self, v: i64) -> Float64 {
        f(v as f64)
    }
    fn sum(&self, a: Float64, b: Float64) -> Float64 {
        f(d(a) + d(b))
    }
    fn difference(&self, a: Float64, b: Float64) -> Float64 {
        f(d(a) - d(b))
    }
    fn product(&self, a: Float64, b: Float64) -> Float64 {
        f(d(a) * d(b))
    }
    fn quotient(&self, a: Float64, b: Float64) -> Float64 {
        f(d(a) / d(b))
    }
    fn round(&self, v: Float64) -> Float64 {
        f(d(v).round())
    }
    fn to_int(&self, v: Float64) -> i32 {
        d(v) as i32
    }
    fn narrow(&self, v: Float64) -> Float32 {
        g(d(v) as f32)
    }
    fn expanded_by(&self, radius: CornerRadius, width: Float32) -> CornerRadius {
        map_radius(radius, |r| if r > 0. { r + e(width) } else { r })
    }
    fn fit_to(&self, radius: CornerRadius, width: Float32, height: Float32) -> CornerRadius {
        let limit = e(width).min(e(height)) / 2.;
        map_radius(radius, |r| r.min(limit))
    }
    fn baba_is_float_offset(&self, now: u64, view_height: Float64) -> Float64 {
        f(now as f64 * d(view_height))
    }
    fn round_logical_in_physical(&self, scale: Float64, v: Float64) -> Float64 {
        f((d(v) * d(scale)).round() / d(scale))
    }
}

/// Hides whatever is to be hidden from some outputs.
struct Screencast;

impl RenderTarget for Screencast {
    fn should_block_out(&self, block_out_from: Option<BlockOutFrom>) -> bool {
        block_out_from.is_some()
    }
}

/// A rule with an odd handle turns the shadow on; its handle is the look.
struct Merge;

impl MergeShadow for Merge {
    fn merge_with(&self, shadow: ShadowConfig, rule: ShadowRule) -> ShadowConfig {
        ShadowConfig {
            on: shadow.on || rule.handle % 2 == 1,
            look: if rule.handle > 0 { ShadowLook { handle: rule.handle } } else { shadow.look },
        }
    }
}

/// Applies the same rules to one surface, and bobs only at startup.
struct Rules(ResolvedLayerRules);

impl LayerRules for Rules {
    fn compute(&self, surface: SurfaceId, is_at_startup: bool) -> ResolvedLayerRules {
        assert_eq!(surface, SurfaceId { id: 7 });
        ResolvedLayerRules { baba_is_float: is_at_startup, ..self.0 }
    }
}

fn point(x: f64, y: f64) -> Point<Float64> {
    Point { x: f(x), y: f(y) }
}

fn size(w: f64, h: f64) -> Size<Float64> {
    Size { w: f(w), h: f(h) }
}

fn radius(v: f32) -> CornerRadius {
    CornerRadius { top_left: g(v), top_right: g(v), bottom_right: g(v), bottom_left: g(v) }
}

fn rules() -> ResolvedLayerRules {
    ResolvedLayerRules {
        opacity: None,
        block_out_from: None,
        shadow: ShadowRule { handle: 0 },
        geometry_corner_radius: None,
        place_within_backdrop: false,
        baba_is_float: false,
        background_effect: BackgroundEffectRule {
            blur: None,
            xray: None,
            noise: None,
            saturation: None,
        },
    }
}

fn blurred() -> ResolvedLayerRules {
    let mut r = rules();
    r.background_effect.blur = Some(true);
    r
}

fn config() -> Config {
    Config {
        shadow: ShadowConfig { on: true, look: ShadowLook { handle: 100 } },
        blur: Blur {
            off: false,
            noise: f(0.02),
            saturation: f(1.5),
            kernel: BlurKernel { handle: 1 },
        },
    }
}

fn layer(rules: ResolvedLayerRules) -> MappedLayer {
    MappedLayer::new(SurfaceId { id: 7 }, rules, size(1920., 1080.), f(1.5), &Merge, &config())
}

fn ctx() -> RenderCtx<Native, Screencast> {
    RenderCtx { math: Native, target: Screencast, has_xray: true, now: 0 }
}

fn region(n: i32) -> BlurRegion {
    let rect = |i| Rectangle { loc: Point { x: i, y: 0 }, size: Size { w: 1, h: 5 } };
    Some(Arc::new((0..n).map(rect).collect()))
}

fn no_region() -> SurfaceState {
    SurfaceState { blur_region: None, view: None }
}

/// The effect on the backdrop that is drawn last, right after its damage.
fn xray_effect(elements: &[LayerSurfaceRenderElement]) -> (&EffectDraw, &XrayPos) {
    assert_eq!(elements.len(), 4);
    let damage = match &elements[2] {
        LayerSurfaceRenderElement::BackgroundEffect(BackgroundEffectElement::ExtraDamage(d)) => d,
        other => panic!("unexpected {other:?}"),
    };
    match &elements[3] {
        LayerSurfaceRenderElement::BackgroundEffect(BackgroundEffectElement::Xray {
            effect,
            xray_pos,
        }) => {
            assert_eq!(damage.geometry, effect.params.geometry);
            (effect, xray_pos)
        }
        other => panic!("unexpected {other:?}"),
    }
}

#[test]
fn a_new_layer_is_as_described() {
    let l = layer(blurred());
    assert_eq!(*l.surface(), SurfaceId { id: 7 });
    assert!(*l.rules() == blurred());
    assert_eq!(l.block_out_buffer.size, size(0., 0.));
    assert_eq!(l.block_out_buffer.color.red, g(0.));
    assert_eq!(l.block_out_buffer.color.alpha, g(1.));
    assert_eq!(l.view_size, size(1920., 1080.));
    assert_eq!(l.scale, f(1.5));
    assert!(l.background_effect.blur_config == config().blur);
    assert!(!l.background_effect.is_visible());
    assert!(!l.are_animations_ongoing());
    assert!(layer(ResolvedLayerRules { baba_is_float: true, ..rules() }).are_animations_ongoing());
}

#[test]
fn shadows_have_to_be_enabled_by_a_rule() {
    assert_eq!(layer(rules()).shadow, ShadowConfig { on: false, look: ShadowLook { handle: 100 } });
    let on = ResolvedLayerRules { shadow: ShadowRule { handle: 5 }, ..rules() };
    assert_eq!(layer(on).shadow, ShadowConfig { on: true, look: ShadowLook { handle: 5 } });
    let off = ResolvedLayerRules { shadow: ShadowRule { handle: 6 }, ..rules() };
    assert_eq!(layer(off).shadow, ShadowConfig { on: false, look: ShadowLook { handle: 6 } });
}

#[test]
fn new_settings_are_taken_over() {
    let mut l = layer(rules());
    let mut c = config();
    l.update_config(&Merge, &c);
    assert_eq!(l.shadow, ShadowConfig { on: false, look: ShadowLook { handle: 100 } });
    assert_eq!(l.background_effect.damage.generation, 0);
    c.shadow.look.handle = 200;
    c.blur.off = true;
    l.update_config(&Merge, &c);
    assert_eq!(l.shadow, ShadowConfig { on: false, look: ShadowLook { handle: 200 } });
    assert_eq!(l.background_effect.damage.generation, 1);
    assert!(l.background_effect.blur_config.off);

    l.update_sizes(size(800., 600.), f(2.));
    assert_eq!(l.view_size, size(800., 600.));
    assert_eq!(l.scale, f(2.));
}

#[test]
fn sizes_are_rounded_to_physical_pixels() {
    let mut l = layer(ResolvedLayerRules { geometry_corner_radius: Some(radius(4.)), ..rules() });
    let update = l.update_render_elements(&Native, size(101., 51.), &None);
    assert_eq!(update.size, size(152. / 1.5, 77. / 1.5));
    assert!(update.is_active);
    assert_eq!(update.radius, radius(4.));
    assert_eq!(update.scale, f(1.5));
    assert_eq!(update.alpha, g(1.));
    assert_eq!(l.block_out_buffer.size, update.size);
    assert_eq!(l.background_effect.corner_radius, radius(4.));
    assert!(!l.background_effect.is_visible());
}

#[test]
fn a_blur_region_turns_blur_on() {
    let mut l = layer(rules());
    l.update_render_elements(&Native, size(10., 10.), &region(0));
    assert!(!l.background_effect.is_visible());
    let update = l.update_render_elements(&Native, size(10., 10.), &region(1));
    assert_eq!(update.radius, radius(0.));
    assert!(l.background_effect.options.blur);
    assert!(l.background_effect.options.xray);
    assert_eq!(l.background_effect.damage.generation, 1);
    assert!(has_blur_region(&region(2)));
    assert!(!has_blur_region(&region(0)));
    assert!(!has_blur_region(&None));
}

#[test]
fn rules_are_recomputed() {
    let mut l = layer(rules());
    assert!(!l.recompute_layer_rules(&Rules(rules()), false));
    assert!(l.recompute_layer_rules(&Rules(rules()), true));
    assert!(l.are_animations_ongoing());
    assert!(!l.recompute_layer_rules(&Rules(rules()), true));
    assert!(l.recompute_layer_rules(&Rules(blurred()), true));
    assert_eq!(l.rules().background_effect.blur, Some(true));

    let changes = [
        ResolvedLayerRules { opacity: Some(g(0.5)), ..rules() },
        ResolvedLayerRules { block_out_from: Some(BlockOutFrom { handle: 1 }), ..rules() },
        ResolvedLayerRules { shadow: ShadowRule { handle: 3 }, ..rules() },
        ResolvedLayerRules { geometry_corner_radius: Some(radius(1.)), ..rules() },
        ResolvedLayerRules { place_within_backdrop: true, ..rules() },
        ResolvedLayerRules { baba_is_float: true, ..rules() },
        blurred(),
    ];
    for change in changes {
        let mut l = layer(rules());
        assert!(l.set_rules(change));
        assert!(!l.set_rules(change));
        assert!(l.set_rules(rules()));
    }
    let odd = ResolvedLayerRules { opacity: Some(g(f32::NAN)), ..rules() };
    assert!(l.set_rules(odd));
    assert!(l.set_rules(odd));
}

#[test]
fn only_some_surfaces_are_placed_within_the_backdrop() {
    let state = |layer, exclusive_zone| LayerSurfaceCachedState { layer, exclusive_zone };
    let mut l = layer(rules());
    assert!(!l.place_within_backdrop(&state(Layer::Background, ExclusiveZone::DontCare)));
    l.set_rules(ResolvedLayerRules { place_within_backdrop: true, ..rules() });
    assert!(l.place_within_backdrop(&state(Layer::Background, ExclusiveZone::DontCare)));
    assert!(!l.place_within_backdrop(&state(Layer::Bottom, ExclusiveZone::DontCare)));
    assert!(!l.place_within_backdrop(&state(Layer::Top, ExclusiveZone::DontCare)));
    assert!(!l.place_within_backdrop(&state(Layer::Overlay, ExclusiveZone::DontCare)));
    assert!(!l.place_within_backdrop(&state(Layer::Background, ExclusiveZone::Neutral)));
    assert!(!l.place_within_backdrop(&state(Layer::Background, ExclusiveZone::Exclusive(0))));
}

#[test]
fn floating_surfaces_bob() {
    let mut l = layer(rules());
    assert_eq!(l.bob_offset(&Native, 2), point(0., 0.));
    l.set_rules(ResolvedLayerRules { baba_is_float: true, ..rules() });
    l.update_sizes(size(10., 0.3), f(2.));
    assert_eq!(l.bob_offset(&Native, 2), point(0., 0.5));
}

#[test]
fn surface_and_shadow_are_drawn() {
    let mut l = layer(ResolvedLayerRules { opacity: Some(g(2.)), ..rules() });
    l.update_render_elements(&Native, size(20., 10.), &None);
    let elements = l.render_normal(&ctx(), None, point(3.1, 5.), XrayPos::new(), no_region());
    assert_eq!(elements.len(), 2);
    match &elements[0] {
        LayerSurfaceRenderElement::Wayland { position, scale, alpha, kind } => {
            assert_eq!(*position, Point { x: 5, y: 8 });
            assert_eq!(*scale, f(1.5));
            assert_eq!(*alpha, g(1.));
            assert_eq!(*kind, Kind::ScanoutCandidate);
        }
        other => panic!("unexpected {other:?}"),
    }
    match &elements[1] {
        LayerSurfaceRenderElement::Shadow { location } => {
            assert_eq!(*location, point(5. / 1.5, 8. / 1.5));
        }
        other => panic!("unexpected {other:?}"),
    }
}

#[test]
fn blocked_out_surface_is_drawn_as_a_plain_area() {
    let mut blocked = blurred();
    blocked.block_out_from = Some(BlockOutFrom { handle: 1 });
    blocked.opacity = Some(g(0.5));
    let mut l = layer(blocked);
    l.update_render_elements(&Native, size(20., 10.), &region(3));
    let state = SurfaceState { blur_region: region(3), view: None };
    let elements = l.render_normal(&ctx(), None, point(3.1, 5.), XrayPos::new(), state);
    match &elements[0] {
        LayerSurfaceRenderElement::SolidColor { buffer, location, alpha, kind } => {
            assert_eq!(*buffer, l.block_out_buffer);
            assert_eq!(buffer.size, size(20., 10.));
            assert_eq!(*location, point(5. / 1.5, 8. / 1.5));
            assert_eq!(*alpha, g(0.5));
            assert_eq!(*kind, Kind::Unspecified);
        }
        other => panic!("unexpected {other:?}"),
    }
    let (effect, _) = xray_effect(&elements);
    assert!(effect.params.subregion.is_none());
    assert!(effect.params.clip.is_some());
    assert_eq!(effect.params.geometry.loc, point(5. / 1.5, 8. / 1.5));
    assert_eq!(effect.params.geometry.size, size(20., 10.));
    let popups = vec![Popup { offset: Point { x: 1, y: 1 }, geometry_loc: Point { x: 0, y: 0 } }];
    assert_eq!(l.render_popups(&ctx(), point(0., 0.), &popups).len(), 0);
}

#[test]
fn blur_from_a_rule_follows_the_corner_radius() {
    let mut r = blurred();
    r.geometry_corner_radius = Some(radius(4.));
    let mut l = layer(r);
    l.update_render_elements(&Native, size(20., 10.), &None);
    let pos = XrayPos::new().offset(point(100., 100.));
    let elements = l.render_normal(&ctx(), None, point(2., 4.), pos, no_region());
    let (effect, xray_pos) = xray_effect(&elements);
    let (clip, fitted) = effect.params.clip.unwrap();
    assert_eq!(clip, effect.params.geometry);
    assert_eq!(clip.loc, point(2., 4.));
    assert_eq!(clip.size, size(20., 10.));
    assert_eq!(fitted, radius(5.));
    assert_eq!(effect.params.scale, f(1.5));
    assert!(effect.params.subregion.is_none());
    assert!(effect.blur);
    assert_eq!(xray_pos.offsets, vec![point(100., 100.), point(0., 0.), point(0., 0.)]);
}

#[test]
fn blur_from_the_surface_follows_its_region() {
    let mut l = layer(rules());
    l.update_render_elements(&Native, size(20., 10.), &region(3));
    let view = SurfaceView { offset: Point { x: 3, y: 1 }, dst: Size { w: 15, h: 9 } };
    let state = SurfaceState { blur_region: region(3), view: Some(view) };
    let elements = l.render_normal(&ctx(), Some(4), point(2., 4.), XrayPos::new(), state);
    let (effect, xray_pos) = xray_effect(&elements);
    assert!(effect.params.clip.is_none());
    let subregion = effect.params.subregion.as_ref().unwrap();
    assert_eq!(Some(subregion.rects.clone()), region(3));
    assert_eq!(subregion.offset, point(5. - 8. / 1.5, 5. - 8. / 1.5));
    assert_eq!(subregion.scale.x, f(1.));
    assert_eq!(subregion.scale.y, f(1.));
    assert_eq!(effect.params.geometry.loc, point(8. / 1.5, 8. / 1.5));
    assert_eq!(effect.params.geometry.size, size(23. / 1.5, 14. / 1.5));
    let way = point(8. / 1.5 - 2., 8. / 1.5 - 4.);
    assert_eq!(xray_pos.offsets, vec![point(0., 0.), way]);
}

#[test]
fn requested_regions_are_measured_from_the_geometry() {
    let mut l = layer(rules());
    l.update_sizes(size(1920., 1080.), f(2.));
    l.update_render_elements(&Native, size(20., 10.), &region(2));
    let view = SurfaceView { offset: Point { x: 3, y: 1 }, dst: Size { w: 15, h: 9 } };
    let state = SurfaceState { blur_region: region(2), view: Some(view) };
    let elements = l.render_normal(&ctx(), None, point(20.5, 40.), XrayPos::new(), state);
    let (effect, _) = xray_effect(&elements);
    assert_eq!(effect.params.geometry.loc, point(23.5, 41.));
    let subregion = effect.params.subregion.as_ref().unwrap();
    assert_eq!(
        subregion.iter(&Native),
        vec![(point(0., 0.), point(1., 5.)), (point(1., 0.), point(2., 5.))]
    );
}

#[test]
fn effect_without_xray_is_drawn_without_backdrop() {
    let mut without_xray = rules();
    without_xray.background_effect.xray = Some(false);
    let mut l = layer(without_xray);
    l.update_render_elements(&Native, size(20., 10.), &region(1));
    let ctx = RenderCtx { has_xray: false, ..ctx() };
    let state = SurfaceState { blur_region: region(1), view: None };
    let elements = l.render_normal(&ctx, Some(4), point(2., 4.), XrayPos::new(), state);
    assert_eq!(elements.len(), 3);
    match &elements[2] {
        LayerSurfaceRenderElement::BackgroundEffect(BackgroundEffectElement::NonXray {
            effect,
            ns,
        }) => {
            assert_eq!(*ns, Some(4));
            assert!(effect.blur);
            assert_eq!(effect.params.subregion.as_ref().map(|s| s.rects.clone()), region(1));
        }
        other => panic!("unexpected {other:?}"),
    }
}

#[test]
fn an_empty_blur_region_hides_the_effect() {
    let mut l = layer(blurred());
    l.update_render_elements(&Native, size(20., 10.), &region(0));
    assert!(l.background_effect.is_visible());
    let state = SurfaceState { blur_region: region(0), view: None };
    let elements = l.render_normal(&ctx(), None, point(2., 4.), XrayPos::new(), state);
    assert_eq!(elements.len(), 2);
}

#[test]
fn effect_without_backdrop_is_not_drawn() {
    let mut l = layer(blurred());
    l.update_render_elements(&Native, size(20., 10.), &None);
    let ctx = RenderCtx { has_xray: false, ..ctx() };
    let elements = l.render_normal(&ctx, None, point(2., 4.), XrayPos::new(), no_region());
    assert_eq!(elements.len(), 2);
}

#[test]
fn everything_bobs_together() {
    let mut r = blurred();
    r.baba_is_float = true;
    let mut l = layer(r);
    l.update_sizes(size(10., 6.), f(1.));
    l.update_render_elements(&Native, size(20., 10.), &None);
    let ctx = RenderCtx { now: 1, ..ctx() };
    let elements = l.render_normal(&ctx, None, point(2., 4.), XrayPos::new(), no_region());
    assert!(matches!(
        elements[0],
        LayerSurfaceRenderElement::Wayland { position: Point { x: 2, y: 10 }, .. }
    ));
    let (effect, xray_pos) = xray_effect(&elements);
    assert_eq!(effect.params.geometry.loc, point(2., 10.));
    assert_eq!(xray_pos.offsets, vec![point(0., 6.), point(0., 0.)]);
    let popups = vec![
        Popup { offset: Point { x: 5, y: 7 }, geometry_loc: Point { x: 1, y: 2 } },
        Popup { offset: Point { x: -5, y: 0 }, geometry_loc: Point { x: 0, y: 0 } },
    ];
    let elements = l.render_popups(&ctx, point(2., 4.), &popups);
    assert_eq!(elements.len(), 2);
    assert!(matches!(
        elements[0],
        LayerSurfaceRenderElement::Wayland {
            position: Point { x: 6, y: 15 },
            kind: Kind::ScanoutCandidate,
            ..
        }
    ));
    assert!(matches!(
        elements[1],
        LayerSurfaceRenderElement::Wayland { position: Point { x: -3, y: 10 }, .. }
    ));
}

#[test]
fn shapes_of_effects() {
    assert_eq!(effect_shape(&None, false), EffectShape::Area);
    assert_eq!(effect_shape(&None, true), EffectShape::Area);
    assert_eq!(effect_shape(&region(0), false), EffectShape::Hidden);
    assert_eq!(effect_shape(&region(0), true), EffectShape::Hidden);
    assert_eq!(effect_shape(&region(1), true), EffectShape::Area);
    assert_eq!(effect_shape(&region(1), false), EffectShape::Region);
}

#[test]
fn surfaces_without_contents_lie_nowhere() {
    let geo = main_surface_geo(None);
    assert_eq!(geo, Rectangle { loc: Point { x: 0, y: 0 }, size: Size { w: 0, h: 0 } });
    let view = SurfaceView { offset: Point { x: 1, y: 2 }, dst: Size { w: 3, h: 4 } };
    let geo = main_surface_geo(Some(view));
    assert_eq!(geo, Rectangle { loc: Point { x: 1, y: 2 }, size: Size { w: 3, h: 4 } });
}

#[test]
fn blocked_out_surfaces_give_nothing_away() {
    let mut blocked = blurred();
    blocked.block_out_from = Some(BlockOutFrom { handle: 1 });
    let mut l = layer(blocked);
    l.update_render_elements(&Native, size(20., 10.), &region(3));
    let render = |blur_region, view| {
        let state = SurfaceState { blur_region, view };
        format!("{:?}", l.render_normal(&ctx(), None, point(3.1, 5.), XrayPos::new(), state))
    };
    let view = SurfaceView { offset: Point { x: 3, y: 1 }, dst: Size { w: 15, h: 9 } };
    let expected = render(None, None);
    assert_eq!(render(region(3), None), expected);
    assert_eq!(render(region(1), Some(view)), expected);
    assert_eq!(render(None, Some(view)), expected);
    assert_ne!(render(region(0), None), expected);
}

#[test]
fn opacity_shows_in_the_surface_alone() {
    let render = |opacity: Option<f32>| {
        let mut l = layer(ResolvedLayerRules { opacity: opacity.map(g), ..blurred() });
        l.update_render_elements(&Native, size(20., 10.), &region(3));
        let view = SurfaceView { offset: Point { x: 3, y: 1 }, dst: Size { w: 15, h: 9 } };
        let state = SurfaceState { blur_region: region(3), view: Some(view) };
        l.render_normal(&ctx(), None, point(3.1, 5.), XrayPos::new(), state)
    };
    let text = |elements: &[LayerSurfaceRenderElement]| format!("{elements:?}");
    let opaque = render(None);
    assert_eq!(opaque.len(), 4);
    assert_eq!(text(&render(Some(1.))), text(&opaque));
    assert_eq!(text(&render(Some(7.5))), text(&opaque));
    assert_eq!(text(&render(Some(-1.))), text(&render(Some(0.))));
    let half = render(Some(0.5));
    assert_eq!(text(&half[1..]), text(&opaque[1..]));
    match (&half[0], &opaque[0]) {
        (
            LayerSurfaceRenderElement::Wayland { position: p, alpha: a, .. },
            LayerSurfaceRenderElement::Wayland { position: q, alpha: b, .. },
        ) => {
            assert_eq!(p, q);
            assert_eq!((*a, *b), (g(0.5), g(1.)));
        }
        other => panic!("unexpected {other:?}"),
    }
}
