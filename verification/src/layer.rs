//! A layer surface that is shown on an output.

use std::sync::Arc;

use vstd::prelude::*;

use crate::background_effect::{
    drawing_repeats, fitted_radius, BackgroundEffect, BackgroundEffectElement, DamageElement,
    EffectDraw, Options, RenderParams, XrayPos,
};
use crate::float::{Float32, Float64};
use crate::geometry::{saturated, saturating_sub, Point, Rectangle, Scale, Size};
use crate::kde_blur::SurfaceId;
use crate::math::{
    all_repeatable, move_point, moved, pixel, point_value, relative, relative_to, repeatable,
    size_value, snap_point, snap_rectangle, snap_size, snapped_point, snapped_rectangle,
    snapped_size, to_pixel, value_of_point, value_of_size, RenderMath,
};
use crate::style::{
    BlockOutFrom, Blur, CornerRadius, ResolvedLayerRules, ShadowConfig, ShadowRule,
};
use crate::subregion::EffectSubregion;

verus! {

/// Where a rendered image goes.
pub trait RenderTarget {
    /// Whether a surface that is hidden from some outputs has to be hidden here.
    fn should_block_out(&self, block_out_from: Option<BlockOutFrom>) -> bool;
}

/// How a rule changes the settings of a shadow.
pub trait MergeShadow {
    fn merge_with(&self, shadow: ShadowConfig, rule: ShadowRule) -> ShadowConfig;
}

/// The rules in force.
pub trait LayerRules {
    /// The rules that apply to a surface.
    fn compute(&self, surface: SurfaceId, is_at_startup: bool) -> ResolvedLayerRules;
}

/// The settings that a layer surface depends on.
#[derive(Debug, Clone, Copy)]
pub struct Config {
    pub shadow: ShadowConfig,
    pub blur: Blur,
}

#[derive(Debug, Clone, Copy, PartialEq)]
pub struct Color {
    pub red: Float32,
    pub green: Float32,
    pub blue: Float32,
    pub alpha: Float32,
}

/// An area of a single color.
#[derive(Debug, Clone, Copy, PartialEq)]
pub struct SolidColorBuffer {
    pub size: Size<Float64>,
    pub color: Color,
}

impl SolidColorBuffer {
    /// Opaque black, with no extent.
    pub open spec fn initial() -> Self {
        let zero = Float32 { bits: 0 };
        SolidColorBuffer {
            size: Size { w: Float64 { bits: 0 }, h: Float64 { bits: 0 } },
            color: Color {
                red: zero,
                green: zero,
                blue: zero,
                alpha: Float32 { bits: 0x3f80_0000 },
            },
        }
    }
}

/// The layer of the shell on which a surface lies.
#[derive(Debug, Clone, Copy, PartialEq, Eq, Structural)]
pub enum Layer {
    Background,
    Bottom,
    Top,
    Overlay,
}

/// Whether a surface wants space of its own.
#[derive(Debug, Clone, Copy, PartialEq, Eq, Structural)]
pub enum ExclusiveZone {
    /// The surface wants this much space along its edge.
    Exclusive(u32),
    /// The surface wants none, and keeps off the space of others.
    Neutral,
    /// The surface extends below others.
    DontCare,
}

/// What a client has set on its layer surface.
#[derive(Debug, Clone, Copy, PartialEq, Eq)]
pub struct LayerSurfaceCachedState {
    pub layer: Layer,
    pub exclusive_zone: ExclusiveZone,
}

/// Where the contents of a surface are shown.
#[derive(Debug, Clone, Copy, PartialEq)]
pub struct SurfaceView {
    pub offset: Point<i32>,
    pub dst: Size<i32>,
}

/// The rects behind which a surface wants blur.
pub type BlurRegion = Option<Arc<Vec<Rectangle<i32>>>>;

/// What a surface shows at the time of rendering.
#[derive(Debug)]
pub struct SurfaceState {
    /// The blur region of the surface. It may be set and empty.
    pub blur_region: BlurRegion,
    /// The view of the surface, if it has contents.
    pub view: Option<SurfaceView>,
}

/// A popup of a surface.
#[derive(Debug, Clone, Copy, PartialEq)]
pub struct Popup {
    /// The position of the popup relative to the surface.
    pub offset: Point<i32>,
    /// The location of the geometry of the popup within the popup.
    pub geometry_loc: Point<i32>,
}

/// The circumstances of rendering.
#[derive(Debug)]
pub struct RenderCtx<M, T> {
    pub math: M,
    pub target: T,
    /// There is a backdrop to see through to.
    pub has_xray: bool,
    /// The time at which the frame is shown.
    pub now: u64,
}

/// What an element is best used for.
#[derive(Debug, Clone, Copy, PartialEq, Eq, Structural)]
pub enum Kind {
    ScanoutCandidate,
    Unspecified,
}

/// New inputs to the shadow around a surface.
#[derive(Debug, Clone, Copy, PartialEq)]
pub struct ShadowUpdate {
    pub size: Size<Float64>,
    pub is_active: bool,
    pub radius: CornerRadius,
    pub scale: Float64,
    pub alpha: Float32,
}

/// Something to be drawn.
#[derive(Debug)]
pub enum LayerSurfaceRenderElement {
    /// A surface with its subsurfaces.
    Wayland { position: Point<i32>, scale: Float64, alpha: Float32, kind: Kind },
    SolidColor { buffer: SolidColorBuffer, location: Point<Float64>, alpha: Float32, kind: Kind },
    /// The shadow around the surface.
    Shadow { location: Point<Float64> },
    BackgroundEffect(BackgroundEffectElement),
}

impl LayerSurfaceRenderElement {
    /// The element drawn with another opacity, if it is the surface itself.
    pub open spec fn with_alpha(self, new_alpha: Float32) -> Self {
        match self {
            LayerSurfaceRenderElement::Wayland { position, scale, alpha, kind } => {
                LayerSurfaceRenderElement::Wayland { position, scale, alpha: new_alpha, kind }
            },
            LayerSurfaceRenderElement::SolidColor { buffer, location, alpha, kind } => {
                LayerSurfaceRenderElement::SolidColor { buffer, location, alpha: new_alpha, kind }
            },
            _ => self,
        }
    }

    /// The opacity with which the surface itself is drawn. Nothing else has one.
    pub open spec fn drawn_alpha(self) -> Option<Float32> {
        match self {
            LayerSurfaceRenderElement::Wayland { alpha, .. } => Some(alpha),
            LayerSurfaceRenderElement::SolidColor { alpha, .. } => Some(alpha),
            _ => None,
        }
    }

    /// Two elements draw the same. Opacities are compared as numbers.
    pub open spec fn alike(self, other: Self) -> bool {
        match (self, other) {
            (
                LayerSurfaceRenderElement::BackgroundEffect(a),
                LayerSurfaceRenderElement::BackgroundEffect(b),
            ) => a.alike(b),
            _ => match other.drawn_alpha() {
                Some(alpha) => {
                    &&& self.with_alpha(alpha) == other
                    &&& self.drawn_alpha() matches Some(own) && (own == alpha || own.same(alpha))
                },
                None => self == other,
            },
        }
    }
}

/// Two lists draw the same, element by element.
pub open spec fn all_alike(
    a: Seq<LayerSurfaceRenderElement>,
    b: Seq<LayerSurfaceRenderElement>,
) -> bool {
    &&& a.len() == b.len()
    &&& forall|i: int| 0 <= i < a.len() ==> (#[trigger] a[i]).alike(b[i])
}

/// The shape in which the background effect of a surface is drawn.
#[derive(Debug, Clone, Copy, PartialEq, Eq, Structural)]
pub enum EffectShape {
    /// Nothing is drawn.
    Hidden,
    /// The area of the layer surface, with its corner radius.
    Area,
    /// The exact region that the surface asks for.
    Region,
}

/// A surface has a blur region with something in it.
pub open spec fn requests_blur(blur_region: BlurRegion) -> bool {
    blur_region matches Some(rects) && rects@.len() > 0
}

/// Effects not requested by the surface itself are drawn to match its geometry. A surface that
/// requests them decides on the shape, unless it is blocked out: that shape would give away
/// something of its contents. A blur region that is set but empty means no effect.
pub open spec fn shape_for(blur_region: BlurRegion, blocked_out: bool) -> EffectShape {
    if blur_region is None {
        EffectShape::Area
    } else if !requests_blur(blur_region) {
        EffectShape::Hidden
    } else if blocked_out {
        EffectShape::Area
    } else {
        EffectShape::Region
    }
}

pub fn has_blur_region(blur_region: &BlurRegion) -> (r: bool)
    ensures
        r == requests_blur(*blur_region),
{
    match blur_region {
        Some(rects) => rects.len() > 0,
        None => false,
    }
}

pub fn effect_shape(blur_region: &BlurRegion, blocked_out: bool) -> (r: EffectShape)
    ensures
        r == shape_for(*blur_region, blocked_out),
{
    match blur_region {
        None => EffectShape::Area,
        Some(rects) => {
            if rects.len() == 0 {
                // Surface has a set, but empty blur region.
                EffectShape::Hidden
            } else if blocked_out {
                EffectShape::Area
            } else {
                EffectShape::Region
            }
        },
    }
}

/// Where the contents of a surface lie; nowhere if it has none.
pub open spec fn surface_geo(view: Option<SurfaceView>) -> Rectangle<i32> {
    match view {
        Some(v) => Rectangle { loc: v.offset, size: v.dst },
        None => Rectangle { loc: Point { x: 0, y: 0 }, size: Size { w: 0, h: 0 } },
    }
}

pub fn main_surface_geo(view: Option<SurfaceView>) -> (r: Rectangle<i32>)
    ensures
        r == surface_geo(view),
{
    match view {
        Some(v) => Rectangle { loc: v.offset, size: v.dst },
        None => Rectangle { loc: Point { x: 0, y: 0 }, size: Size { w: 0, h: 0 } },
    }
}

/// The values on which the elements of a frame depend.
pub struct Frame {
    pub blocked_out: bool,
    /// How far the surface has bobbed.
    pub bob: Point<Float64>,
    /// Where the surface is drawn.
    pub location: Point<Float64>,
}

#[derive(Debug, Clone, Copy)]
pub struct MappedLayer {
    /// The surface itself.
    pub surface: SurfaceId,
    /// Up-to-date rules.
    pub rules: ResolvedLayerRules,
    /// Buffer to draw instead of the surface when it should be blocked out.
    pub block_out_buffer: SolidColorBuffer,
    /// The settings of the shadow around the surface.
    pub shadow: ShadowConfig,
    /// The background effect, like blur, behind the layer-surface.
    pub background_effect: BackgroundEffect,
    /// The view size for the layer surface's output.
    pub view_size: Size<Float64>,
    /// Scale of the output the layer surface is on (and rounds its sizes to).
    pub scale: Float64,
}

impl MappedLayer {
    pub fn new<C: MergeShadow>(
        surface: SurfaceId,
        rules: ResolvedLayerRules,
        view_size: Size<Float64>,
        scale: Float64,
        merge: &C,
        config: &Config,
    ) -> (r: Self)
        ensures
            r.surface == surface,
            r.rules == rules,
            r.block_out_buffer == SolidColorBuffer::initial(),
            call_ensures(
                C::merge_with,
                (merge, (ShadowConfig { on: false, ..config.shadow }), rules.shadow),
                r.shadow,
            ),
            r.background_effect == BackgroundEffect::initial(config.blur),
            r.view_size == view_size,
            r.scale == scale,
    {
        let mut shadow = config.shadow;
        // Shadows for layer surfaces need to be explicitly enabled.
        shadow.on = false;
        let shadow = merge.merge_with(shadow, rules.shadow);

        let zero = Float32::zero();
        MappedLayer {
            surface,
            rules,
            block_out_buffer: SolidColorBuffer {
                size: Size { w: Float64::zero(), h: Float64::zero() },
                color: Color { red: zero, green: zero, blue: zero, alpha: Float32::one() },
            },
            view_size,
            scale,
            shadow,
            background_effect: BackgroundEffect::new(config.blur),
        }
    }

    pub fn update_config<C: MergeShadow>(&mut self, merge: &C, config: &Config)
        ensures
            call_ensures(
                C::merge_with,
                (merge, (ShadowConfig { on: false, ..config.shadow }), old(self).rules.shadow),
                final(self).shadow,
            ),
            *final(self) == (MappedLayer {
                shadow: final(self).shadow,
                background_effect: old(self).background_effect.with_config(config.blur),
                ..*old(self)
            }),
    {
        let mut shadow = config.shadow;
        // Shadows for layer surfaces need to be explicitly enabled.
        shadow.on = false;
        self.shadow = merge.merge_with(shadow, self.rules.shadow);

        self.background_effect.update_config(config.blur);
    }

    pub fn update_sizes(&mut self, view_size: Size<Float64>, scale: Float64)
        ensures
            *final(self) == (MappedLayer { view_size, scale, ..*old(self) }),
    {
        self.view_size = view_size;
        self.scale = scale;
    }

    /// The layer at a new size, with a background effect that follows the rules and what the
    /// surface asks for.
    pub open spec fn with_elements(self, size: Size<Float64>, has_blur_region: bool) -> Self {
        MappedLayer {
            block_out_buffer: SolidColorBuffer { size, ..self.block_out_buffer },
            background_effect: self.background_effect.with_options(
                Options::resolved(self.rules.background_effect, has_blur_region),
                self.rules.radius(),
            ),
            ..self
        }
    }

    /// Adapts to a new size and to the blur region of the surface, and says how the shadow has to
    /// be updated.
    pub fn update_render_elements<M: RenderMath>(
        &mut self,
        math: &M,
        size: Size<Float64>,
        blur_region: &BlurRegion,
    ) -> (r: ShadowUpdate)
        ensures
            snapped_size(math, old(self).scale, size, r.size),
            r == (ShadowUpdate {
                size: r.size,
                is_active: true,
                radius: old(self).rules.radius(),
                scale: old(self).scale,
                alpha: Float32 { bits: 0x3f80_0000 },
            }),
            *final(self) == old(self).with_elements(r.size, requests_blur(*blur_region)),
    {
        // Round to physical pixels.
        let size = snap_size(math, self.scale, size);
        self.block_out_buffer.size = size;

        let radius = self.rules.corner_radius();
        let has_blur_region = has_blur_region(blur_region);
        let effect = self.rules.background_effect;
        self.background_effect.update_render_elements(radius, effect, has_blur_region);

        ShadowUpdate { size, is_active: true, radius, scale: self.scale, alpha: Float32::one() }
    }

    pub fn are_animations_ongoing(&self) -> (r: bool)
        ensures
            r == self.rules.baba_is_float,
    {
        self.rules.baba_is_float
    }

    pub fn surface(&self) -> (r: &SurfaceId)
        ensures
            *r == self.surface,
    {
        &self.surface
    }

    pub fn rules(&self) -> (r: &ResolvedLayerRules)
        ensures
            *r == self.rules,
    {
        &self.rules
    }

    /// The layer with new rules: changed in nothing else, and not at all if they are the same.
    pub open spec fn with_rules(self, new_rules: ResolvedLayerRules) -> Self {
        if self.rules.same(new_rules) {
            self
        } else {
            MappedLayer { rules: new_rules, ..self }
        }
    }

    /// The layer with another opacity.
    pub open spec fn with_opacity(self, opacity: Option<Float32>) -> Self {
        MappedLayer { rules: ResolvedLayerRules { opacity, ..self.rules }, ..self }
    }

    /// Takes over new rules and returns whether they differ from the old ones.
    pub fn set_rules(&mut self, new_rules: ResolvedLayerRules) -> (changed: bool)
        ensures
            changed == !old(self).rules.same(new_rules),
            *final(self) == old(self).with_rules(new_rules),
    {
        if new_rules == self.rules {
            return false;
        }
        self.rules = new_rules;
        true
    }

    /// Recomputes the resolved layer rules and returns whether they changed.
    pub fn recompute_layer_rules<R: LayerRules>(
        &mut self,
        rules: &R,
        is_at_startup: bool,
    ) -> (changed: bool)
        ensures
            exists|new_rules: ResolvedLayerRules|
                {
                    &&& #[trigger] call_ensures(
                        R::compute,
                        (rules, old(self).surface, is_at_startup),
                        new_rules,
                    )
                    &&& changed == !old(self).rules.same(new_rules)
                    &&& *final(self) == old(self).with_rules(new_rules)
                },
    {
        let new_rules = rules.compute(self.surface, is_at_startup);
        self.set_rules(new_rules)
    }

    /// Whether the surface is drawn in the backdrop: that is what the rules say, it lies on the
    /// background layer, and it extends below other surfaces.
    pub fn place_within_backdrop(&self, state: &LayerSurfaceCachedState) -> (r: bool)
        ensures
            r == (self.rules.place_within_backdrop && state.layer == Layer::Background
                && state.exclusive_zone == ExclusiveZone::DontCare),
    {
        if !self.rules.place_within_backdrop {
            return false;
        }
        if state.layer != Layer::Background {
            return false;
        }
        if state.exclusive_zone != ExclusiveZone::DontCare {
            return false;
        }
        true
    }

    /// `r` is how far the surface has bobbed: not at all unless the rules say so, and never
    /// sideways.
    pub open spec fn bobs<M: RenderMath>(self, math: &M, now: u64, r: Point<Float64>) -> bool {
        &&& r.x == Float64 { bits: 0 }
        &&& if self.rules.baba_is_float {
            exists|y: Float64| #[trigger]
                call_ensures(M::baba_is_float_offset, (math, now, self.view_size.h), y)
                    && call_ensures(M::round_logical_in_physical, (math, self.scale, y), r.y)
        } else {
            r.y == Float64 { bits: 0 }
        }
    }

    pub fn bob_offset<M: RenderMath>(&self, math: &M, now: u64) -> (r: Point<Float64>)
        ensures
            self.bobs(math, now, r),
    {
        if !self.rules.baba_is_float {
            return Point { x: Float64::zero(), y: Float64::zero() };
        }
        let y = math.baba_is_float_offset(now, self.view_size.h);
        let y = math.round_logical_in_physical(self.scale, y);
        Point { x: Float64::zero(), y }
    }

    /// `frame` is what the elements depend on when the surface is drawn at `location`.
    pub open spec fn frames<M: RenderMath, T: RenderTarget>(
        self,
        ctx: &RenderCtx<M, T>,
        location: Point<Float64>,
        frame: Frame,
    ) -> bool {
        &&& call_ensures(
            T::should_block_out,
            (&ctx.target, self.rules.block_out_from),
            frame.blocked_out,
        )
        &&& self.bobs(&ctx.math, ctx.now, frame.bob)
        &&& moved(&ctx.math, location, frame.bob, frame.location)
    }

    /// The area of the layer surface when it is drawn at `loc`.
    pub open spec fn area(self, loc: Point<Float64>) -> Rectangle<Float64> {
        Rectangle { loc, size: self.block_out_buffer.size }
    }

    /// `params` draw the effect to match the geometry of the layer surface.
    pub open spec fn area_params(
        self,
        area: Rectangle<Float64>,
        params: RenderParams,
    ) -> bool {
        params == (RenderParams {
            geometry: area,
            subregion: None,
            clip: Some((area, CornerRadius::square())),
            scale: self.scale,
        })
    }

    /// `params` draw the effect in exactly the region that the surface asks for.
    ///
    /// The region is measured from where the surface is placed, and the subregion from where the
    /// geometry begins: the offset is the way from the geometry, which is rounded to physical
    /// pixels, to the place of the surface.
    pub open spec fn region_params<M: RenderMath>(
        self,
        math: &M,
        area: Rectangle<Float64>,
        state: SurfaceState,
        params: RenderParams,
    ) -> bool {
        let geo = surface_geo(state.view);
        exists|
            loc: Point<Float64>,
            size: Size<Float64>,
            placed: Point<Float64>,
            offset: Point<Float64>,
        |
            {
                &&& #[trigger] point_value(math, geo.loc, loc)
                &&& #[trigger] size_value(math, geo.size, size)
                &&& #[trigger] moved(math, loc, area.loc, placed)
                &&& snapped_rectangle(
                    math,
                    self.scale,
                    Rectangle { loc: placed, size },
                    params.geometry,
                )
                &&& #[trigger] relative(math, placed, params.geometry.loc, offset)
                &&& params.subregion == Some(
                    EffectSubregion {
                        rects: state.blur_region->0,
                        scale: Scale {
                            x: Float64 { bits: 0x3ff0_0000_0000_0000 },
                            y: Float64 { bits: 0x3ff0_0000_0000_0000 },
                        },
                        offset,
                    },
                )
                &&& params.clip is None
                &&& params.scale == self.scale
            }
    }

    /// `params` are those with which the effect is drawn in the given shape.
    pub open spec fn shapes<M: RenderMath>(
        self,
        math: &M,
        area: Rectangle<Float64>,
        state: SurfaceState,
        shape: EffectShape,
        params: RenderParams,
    ) -> bool {
        match shape {
            EffectShape::Hidden => false,
            EffectShape::Area => self.area_params(area, params),
            EffectShape::Region => self.region_params(math, area, state, params),
        }
    }

    /// The parameters with which the background effect is drawn, if it is.
    pub fn effect_params<M: RenderMath>(
        &self,
        math: &M,
        area: Rectangle<Float64>,
        state: SurfaceState,
        blocked_out: bool,
    ) -> (r: Option<RenderParams>)
        ensures
            r is None <==> shape_for(state.blur_region, blocked_out) is Hidden,
            r matches Some(params) ==> self.shapes(
                math,
                area,
                state,
                shape_for(state.blur_region, blocked_out),
                params,
            ),
    {
        match effect_shape(&state.blur_region, blocked_out) {
            EffectShape::Hidden => None,
            EffectShape::Area => Some(
                RenderParams {
                    geometry: area,
                    subregion: None,
                    clip: Some((area, CornerRadius::default())),
                    scale: self.scale,
                },
            ),
            EffectShape::Region => {
                let geo = main_surface_geo(state.view);
                let loc = value_of_point(math, geo.loc);
                let size = value_of_size(math, geo.size);
                let placed = move_point(math, loc, area.loc);
                let geometry = snap_rectangle(math, self.scale, Rectangle { loc: placed, size });
                let offset = relative_to(math, placed, geometry.loc);
                match state.blur_region {
                    Some(rects) => {
                        let params = RenderParams {
                            geometry,
                            subregion: Some(
                                EffectSubregion {
                                    rects,
                                    scale: Scale { x: Float64::one(), y: Float64::one() },
                                    offset,
                                },
                            ),
                            clip: None,
                            scale: self.scale,
                        };
                        assert(relative(math, placed, params.geometry.loc, offset));
                        Some(params)
                    },
                    None => None,
                }
            },
        }
    }

    /// `r` is how the surface itself is drawn: by a plain area if it is blocked out.
    pub open spec fn shows<M: RenderMath, T: RenderTarget>(
        self,
        ctx: &RenderCtx<M, T>,
        frame: Frame,
        snapped: Point<Float64>,
        r: LayerSurfaceRenderElement,
    ) -> bool {
        if frame.blocked_out {
            r == (LayerSurfaceRenderElement::SolidColor {
                buffer: self.block_out_buffer,
                location: snapped,
                alpha: self.rules.alpha(),
                kind: Kind::Unspecified,
            })
        } else {
            &&& r matches LayerSurfaceRenderElement::Wayland { position, scale, alpha, kind }
            &&& pixel(&ctx.math, self.scale, frame.location.x, position.x)
            &&& pixel(&ctx.math, self.scale, frame.location.y, position.y)
            &&& scale == self.scale
            &&& alpha == self.rules.alpha()
            &&& kind == Kind::ScanoutCandidate
        }
    }

    /// `elements` are how the background effect is drawn, in order; nothing if it is not.
    pub open spec fn shows_effect<M: RenderMath, T: RenderTarget>(
        self,
        ctx: &RenderCtx<M, T>,
        ns: Option<usize>,
        xray_pos: Seq<Point<Float64>>,
        state: SurfaceState,
        frame: Frame,
        snapped: Point<Float64>,
        elements: Seq<LayerSurfaceRenderElement>,
    ) -> bool {
        let area = self.area(snapped);
        let shape = shape_for(state.blur_region, frame.blocked_out);
        if shape is Hidden || !self.background_effect.drawable(ctx.has_xray) {
            elements.len() == 0
        } else {
            exists|
                params: RenderParams,
                way: Point<Float64>,
                effects: Seq<BackgroundEffectElement>,
            |
                {
                    &&& #[trigger] self.shapes(&ctx.math, area, state, shape, params)
                    &&& #[trigger] relative(&ctx.math, params.geometry.loc, snapped, way)
                    &&& self.background_effect.draws(
                        &ctx.math,
                        ns,
                        params,
                        xray_pos.push(frame.bob).push(way),
                        ctx.has_xray,
                        effects,
                    )
                    &&& elements == #[trigger] effect_elements(effects)
                }
        }
    }

    /// `elements` are what is drawn for the surface, from top to bottom: the surface itself, its
    /// shadow, and the background effect if there is one.
    pub open spec fn renders<M: RenderMath, T: RenderTarget>(
        self,
        ctx: &RenderCtx<M, T>,
        ns: Option<usize>,
        xray_pos: Seq<Point<Float64>>,
        state: SurfaceState,
        frame: Frame,
        elements: Seq<LayerSurfaceRenderElement>,
    ) -> bool {
        exists|snapped: Point<Float64>|
            {
                &&& #[trigger] snapped_point(&ctx.math, self.scale, frame.location, snapped)
                &&& elements.len() >= 2
                &&& self.shows(ctx, frame, snapped, elements[0])
                &&& elements[1] == (LayerSurfaceRenderElement::Shadow { location: snapped })
                &&& self.shows_effect(
                    ctx,
                    ns,
                    xray_pos,
                    state,
                    frame,
                    snapped,
                    elements.skip(2),
                )
            }
    }

    /// The elements with which the surface is drawn at `location`, from top to bottom.
    pub fn render_normal<M: RenderMath, T: RenderTarget>(
        &self,
        ctx: &RenderCtx<M, T>,
        ns: Option<usize>,
        location: Point<Float64>,
        xray_pos: XrayPos,
        state: SurfaceState,
    ) -> (r: Vec<LayerSurfaceRenderElement>)
        ensures
            exists|frame: Frame|
                {
                    &&& #[trigger] self.frames(ctx, location, frame)
                    &&& self.renders(ctx, ns, xray_pos@, state, frame, r@)
                },
    {
        let math = &ctx.math;
        let mut elements: Vec<LayerSurfaceRenderElement> = Vec::new();
        let alpha = self.rules.drawn_opacity();
        let bob = self.bob_offset(math, ctx.now);
        let place = move_point(math, location, bob);
        let bobbed_pos = xray_pos.offset(bob);
        let blocked_out = ctx.target.should_block_out(self.rules.block_out_from);
        let ghost frame = Frame { blocked_out, bob, location: place };
        assert(self.frames(ctx, location, frame));

        // Round to physical pixels.
        let snapped = snap_point(math, self.scale, place);
        if blocked_out {
            elements.push(
                LayerSurfaceRenderElement::SolidColor {
                    buffer: self.block_out_buffer,
                    location: snapped,
                    alpha,
                    kind: Kind::Unspecified,
                },
            );
        } else {
            // Layer surfaces don't have extra geometry like windows.
            let position = Point {
                x: to_pixel(math, self.scale, place.x),
                y: to_pixel(math, self.scale, place.y),
            };
            elements.push(
                LayerSurfaceRenderElement::Wayland {
                    position,
                    scale: self.scale,
                    alpha,
                    kind: Kind::ScanoutCandidate,
                },
            );
        }

        assert(self.shows(ctx, frame, snapped, elements@[0]));

        elements.push(LayerSurfaceRenderElement::Shadow { location: snapped });

        if self.background_effect.is_visible() {
            let area = Rectangle { loc: snapped, size: self.block_out_buffer.size };
            if let Some(params) = self.effect_params(math, area, state, blocked_out) {
                let way = relative_to(math, params.geometry.loc, area.loc);
                let ghost shown = params;
                let effects = self.background_effect.render(
                    math,
                    ns,
                    params,
                    bobbed_pos.offset(way),
                    ctx.has_xray,
                );
                let ghost drawn = effects@;
                let ghost before = elements@;
                for effect in it: effects
                    invariant
                        it.seq() == drawn,
                        elements@ == before + effect_elements(drawn.take(it.index())),
                {
                    elements.push(LayerSurfaceRenderElement::BackgroundEffect(effect));
                    assert(drawn.take(it.index() + 1) =~= drawn.take(it.index()).push(effect));
                }
                assert(drawn.take(drawn.len() as int) =~= drawn);
                assert(self.shapes(
                    math,
                    self.area(snapped),
                    state,
                    shape_for(state.blur_region, blocked_out),
                    shown,
                ));
                assert(elements@.skip(2) =~= effect_elements(drawn));
            }
        }
        assert(self.shows_effect(ctx, ns, xray_pos@, state, frame, snapped, elements@.skip(2)));
        assert(self.renders(ctx, ns, xray_pos@, state, frame, elements@));
        elements
    }

    /// `r` is how a popup is drawn when the surface is drawn at `place`.
    pub open spec fn shows_popup<M: RenderMath>(
        self,
        math: &M,
        place: Point<Float64>,
        popup: Popup,
        r: LayerSurfaceRenderElement,
    ) -> bool {
        &&& r matches LayerSurfaceRenderElement::Wayland { position, scale, alpha, kind }
        &&& exists|offset: Point<Float64>, p: Point<Float64>|
            {
                &&& #[trigger] point_value(math, popup_offset(popup), offset)
                &&& #[trigger] moved(math, place, offset, p)
                &&& pixel(math, self.scale, p.x, position.x)
                &&& pixel(math, self.scale, p.y, position.y)
            }
        &&& scale == self.scale
        &&& alpha == self.rules.alpha()
        &&& kind == Kind::ScanoutCandidate
    }

    /// `elements` are what is drawn for the popups, one for each, in order; nothing if the
    /// surface is blocked out.
    pub open spec fn renders_popups<M: RenderMath, T: RenderTarget>(
        self,
        ctx: &RenderCtx<M, T>,
        popups: Seq<Popup>,
        frame: Frame,
        elements: Seq<LayerSurfaceRenderElement>,
    ) -> bool {
        if frame.blocked_out {
            elements.len() == 0
        } else {
            &&& elements.len() == popups.len()
            &&& forall|i: int|
                0 <= i < popups.len() ==> self.shows_popup(
                    &ctx.math,
                    frame.location,
                    popups[i],
                    #[trigger] elements[i],
                )
        }
    }

    /// The elements with which the popups of the surface are drawn, in order.
    pub fn render_popups<M: RenderMath, T: RenderTarget>(
        &self,
        ctx: &RenderCtx<M, T>,
        location: Point<Float64>,
        popups: &Vec<Popup>,
    ) -> (r: Vec<LayerSurfaceRenderElement>)
        ensures
            exists|frame: Frame|
                {
                    &&& #[trigger] self.frames(ctx, location, frame)
                    &&& self.renders_popups(ctx, popups@, frame, r@)
                },
    {
        let math = &ctx.math;
        let mut elements: Vec<LayerSurfaceRenderElement> = Vec::new();
        let alpha = self.rules.drawn_opacity();
        let bob = self.bob_offset(math, ctx.now);
        let place = move_point(math, location, bob);
        let blocked_out = ctx.target.should_block_out(self.rules.block_out_from);
        let ghost frame = Frame { blocked_out, bob, location: place };
        assert(self.frames(ctx, location, frame));
        if blocked_out {
            return elements;
        }
        for i in 0..popups.len()
            invariant
                math == &ctx.math,
                alpha == self.rules.alpha(),
                elements@.len() == i,
                forall|j: int|
                    0 <= j < i ==> self.shows_popup(
                        &ctx.math,
                        place,
                        popups@[j],
                        #[trigger] elements@[j],
                    ),
        {
            let popup = popups[i];
            // Layer surfaces don't have extra geometry like windows.
            let offset = value_of_point(
                math,
                Point {
                    x: saturating_sub(popup.offset.x, popup.geometry_loc.x),
                    y: saturating_sub(popup.offset.y, popup.geometry_loc.y),
                },
            );
            let p = move_point(math, place, offset);
            let position = Point {
                x: to_pixel(math, self.scale, p.x),
                y: to_pixel(math, self.scale, p.y),
            };
            elements.push(
                LayerSurfaceRenderElement::Wayland {
                    position,
                    scale: self.scale,
                    alpha,
                    kind: Kind::ScanoutCandidate,
                },
            );
            assert(point_value(math, popup_offset(popup), offset));
            assert(self.shows_popup(math, place, popup, elements@[i as int]));
        }
        assert(self.renders_popups(ctx, popups@, frame, elements@));
        elements
    }
}

/// The elements of a background effect among those of the surface.
pub open spec fn effect_elements(effects: Seq<BackgroundEffectElement>) -> Seq<
    LayerSurfaceRenderElement,
> {
    Seq::new(effects.len(), |i: int| LayerSurfaceRenderElement::BackgroundEffect(effects[i]))
}

/// Where a popup begins relative to the surface.
pub open spec fn popup_offset(popup: Popup) -> Point<i32> {
    Point {
        x: saturated(popup.offset.x - popup.geometry_loc.x),
        y: saturated(popup.offset.y - popup.geometry_loc.y),
    }
}

/// The effect that an element draws, if it draws one.
pub open spec fn drawn_effect(element: LayerSurfaceRenderElement) -> Option<EffectDraw> {
    match element {
        LayerSurfaceRenderElement::BackgroundEffect(e) => e.effect(),
        _ => None,
    }
}

/// A background effect is drawn below everything else of the surface. With xray, its damage comes
/// right before it, at the same geometry.
pub proof fn damage_precedes_effect<M: RenderMath, T: RenderTarget>(
    layer: MappedLayer,
    ctx: &RenderCtx<M, T>,
    ns: Option<usize>,
    xray_pos: Seq<Point<Float64>>,
    state: SurfaceState,
    frame: Frame,
    elements: Seq<LayerSurfaceRenderElement>,
)
    requires
        !(shape_for(state.blur_region, frame.blocked_out) is Hidden),
        layer.background_effect.drawable(ctx.has_xray),
        layer.renders(ctx, ns, xray_pos, state, frame, elements),
    ensures
        elements.len() == if layer.background_effect.options.xray {
            4int
        } else {
            3int
        },
        forall|i: int|
            0 <= i < elements.len() - 1 ==> drawn_effect(#[trigger] elements[i]) is None,
        drawn_effect(elements.last()) matches Some(e) && {
            &&& layer.background_effect.options.xray ==> elements[2]
                == LayerSurfaceRenderElement::BackgroundEffect(
                BackgroundEffectElement::ExtraDamage(
                    DamageElement {
                        damage: layer.background_effect.damage,
                        geometry: e.params.geometry,
                    },
                ),
            )
            &&& elements[1] matches LayerSurfaceRenderElement::Shadow { location } && exists|
                params: RenderParams,
            |
                {
                    &&& #[trigger] layer.shapes(
                        &ctx.math,
                        layer.area(location),
                        state,
                        shape_for(state.blur_region, frame.blocked_out),
                        params,
                    )
                    &&& layer.background_effect.draws_effect(&ctx.math, params, e)
                }
        },
{
    let snapped = elements[1]->Shadow_location;
    let rest = elements.skip(2);
    assert(layer.shows_effect(ctx, ns, xray_pos, state, frame, snapped, rest));
    let shape = shape_for(state.blur_region, frame.blocked_out);
    let (params, way, effects) = choose|
        params: RenderParams,
        way: Point<Float64>,
        effects: Seq<BackgroundEffectElement>,
    |
        {
            &&& #[trigger] layer.shapes(&ctx.math, layer.area(snapped), state, shape, params)
            &&& #[trigger] relative(&ctx.math, params.geometry.loc, snapped, way)
            &&& layer.background_effect.draws(
                &ctx.math,
                ns,
                params,
                xray_pos.push(frame.bob).push(way),
                ctx.has_xray,
                effects,
            )
            &&& rest == #[trigger] effect_elements(effects)
        };
    assert(rest.len() == effects.len());
    assert(rest[0] == elements[2]);
    assert(rest.last() == elements.last());
}

/// Nothing of a surface that is blocked out is shown: neither its contents, nor its popups, nor
/// the shape for which it asks. Its background effect matches the geometry of the layer surface.
pub proof fn blocked_out_surface_stays_hidden<M: RenderMath, T: RenderTarget>(
    layer: MappedLayer,
    ctx: &RenderCtx<M, T>,
    ns: Option<usize>,
    xray_pos: Seq<Point<Float64>>,
    state: SurfaceState,
    frame: Frame,
    elements: Seq<LayerSurfaceRenderElement>,
    popups: Seq<Popup>,
    popup_elements: Seq<LayerSurfaceRenderElement>,
)
    requires
        frame.blocked_out,
        layer.renders(ctx, ns, xray_pos, state, frame, elements),
        layer.renders_popups(ctx, popups, frame, popup_elements),
    ensures
        popup_elements.len() == 0,
        forall|i: int|
            0 <= i < elements.len() ==> {
                &&& !(#[trigger] elements[i] is Wayland)
                &&& drawn_effect(elements[i]) matches Some(e) ==> {
                    &&& e.params.subregion is None
                    &&& e.params.clip matches Some((area, _)) && area == e.params.geometry
                    &&& e.params.geometry.size == layer.block_out_buffer.size
                }
            },
{
    if layer.background_effect.drawable(ctx.has_xray) && !(shape_for(
        state.blur_region,
        frame.blocked_out,
    ) is Hidden) {
        damage_precedes_effect(layer, ctx, ns, xray_pos, state, frame, elements);
    }
}

/// An output gives the same answer each time.
pub open spec fn blocking_repeats<T: RenderTarget>(target: &T) -> bool {
    forall|from: Option<BlockOutFrom>, r: bool, s: bool| #[trigger]
        call_ensures(T::should_block_out, (target, from), r) && #[trigger] call_ensures(
            T::should_block_out,
            (target, from),
            s,
        ) ==> r == s
}

proof fn frame_repeats<M: RenderMath, T: RenderTarget>(
    layer: MappedLayer,
    opacity: Option<Float32>,
    ctx: &RenderCtx<M, T>,
    location: Point<Float64>,
    f: Frame,
    g: Frame,
)
    requires
        all_repeatable(&ctx.math),
        layer.frames(ctx, location, f),
        layer.with_opacity(opacity).frames(ctx, location, g),
        f.blocked_out == g.blocked_out,
    ensures
        f == g,
{
    assert(f.bob == g.bob);
    assert(f.location == g.location);
}

proof fn snapping_repeats<M: RenderMath>(
    math: &M,
    scale: Float64,
    p: Point<Float64>,
    r: Point<Float64>,
    s: Point<Float64>,
)
    requires
        repeatable(math),
        snapped_point(math, scale, p, r),
        snapped_point(math, scale, p, s),
    ensures
        r == s,
{
}

proof fn region_repeats<M: RenderMath>(
    layer: MappedLayer,
    opacity: Option<Float32>,
    math: &M,
    area: Rectangle<Float64>,
    state: SurfaceState,
    other: SurfaceState,
    p: RenderParams,
    q: RenderParams,
)
    requires
        repeatable(math),
        state.view == other.view,
        state.blur_region == other.blur_region,
        layer.region_params(math, area, state, p),
        layer.with_opacity(opacity).region_params(math, area, other, q),
    ensures
        p == q,
{
    assert(p.geometry == q.geometry);
    assert(p.subregion->0.offset == q.subregion->0.offset);
}

/// Two renders with one frame differ in the opacity of the surface alone, as long as the effect
/// has the same shape.
proof fn rendering_repeats<M: RenderMath, T: RenderTarget>(
    layer: MappedLayer,
    opacity: Option<Float32>,
    ctx: &RenderCtx<M, T>,
    ns: Option<usize>,
    xray_pos: Seq<Point<Float64>>,
    state: SurfaceState,
    other: SurfaceState,
    frame: Frame,
    first: Seq<LayerSurfaceRenderElement>,
    second: Seq<LayerSurfaceRenderElement>,
)
    requires
        all_repeatable(&ctx.math),
        shape_for(state.blur_region, frame.blocked_out) == shape_for(
            other.blur_region,
            frame.blocked_out,
        ),
        shape_for(state.blur_region, frame.blocked_out) is Region ==> state.view == other.view
            && state.blur_region == other.blur_region,
        layer.renders(ctx, ns, xray_pos, state, frame, first),
        layer.with_opacity(opacity).renders(ctx, ns, xray_pos, other, frame, second),
    ensures
        first.len() == second.len(),
        first[0].drawn_alpha() == Some(layer.rules.alpha()),
        first[0].with_alpha(layer.with_opacity(opacity).rules.alpha()) == second[0],
        forall|i: int|
            1 <= i < first.len() ==> (#[trigger] first[i]).alike(second[i])
                && first[i].drawn_alpha() is None,
{
    let changed = layer.with_opacity(opacity);
    let shape = shape_for(state.blur_region, frame.blocked_out);
    let snapped = first[1]->Shadow_location;
    snapping_repeats(
        &ctx.math,
        layer.scale,
        frame.location,
        snapped,
        second[1]->Shadow_location,
    );
    assert(layer.shows(ctx, frame, snapped, first[0]));
    assert(changed.shows(ctx, frame, snapped, second[0]));
    let a = first.skip(2);
    let b = second.skip(2);
    assert(layer.shows_effect(ctx, ns, xray_pos, state, frame, snapped, a));
    assert(changed.shows_effect(ctx, ns, xray_pos, other, frame, snapped, b));
    if !(shape is Hidden) && layer.background_effect.drawable(ctx.has_xray) {
        let area = layer.area(snapped);
        let (p, v, x) = choose|
            params: RenderParams,
            way: Point<Float64>,
            effects: Seq<BackgroundEffectElement>,
        |
            {
                &&& #[trigger] layer.shapes(&ctx.math, area, state, shape, params)
                &&& #[trigger] relative(&ctx.math, params.geometry.loc, snapped, way)
                &&& layer.background_effect.draws(
                    &ctx.math,
                    ns,
                    params,
                    xray_pos.push(frame.bob).push(way),
                    ctx.has_xray,
                    effects,
                )
                &&& a == #[trigger] effect_elements(effects)
            };
        let (q, w, y) = choose|
            params: RenderParams,
            way: Point<Float64>,
            effects: Seq<BackgroundEffectElement>,
        |
            {
                &&& #[trigger] changed.shapes(&ctx.math, area, other, shape, params)
                &&& #[trigger] relative(&ctx.math, params.geometry.loc, snapped, way)
                &&& changed.background_effect.draws(
                    &ctx.math,
                    ns,
                    params,
                    xray_pos.push(frame.bob).push(way),
                    ctx.has_xray,
                    effects,
                )
                &&& b == #[trigger] effect_elements(effects)
            };
        if shape is Region {
            region_repeats(layer, opacity, &ctx.math, area, state, other, p, q);
        }
        assert(p == q);
        assert(v == w);
        drawing_repeats(
            &ctx.math,
            layer.background_effect,
            ns,
            p,
            xray_pos.push(frame.bob).push(v),
            ctx.has_xray,
            x,
            y,
        );
        assert(a.len() == x.len() && b.len() == y.len());
        assert forall|i: int| 2 <= i < first.len() implies (#[trigger] first[i]).alike(second[i])
            && first[i].drawn_alpha() is None by {
            assert(first[i] == a[i - 2]);
            assert(second[i] == b[i - 2]);
            assert(x[i - 2].alike(y[i - 2]));
        }
    }
    assert(a.len() == b.len());
}

/// Nothing of what a surface that is blocked out shows can be told from what is drawn: neither its
/// contents, nor where they are shown, nor the shape of its blur region. Whatever these are, the
/// same is drawn, as long as the blur region is not set and empty.
pub proof fn blocked_out_surface_gives_nothing_away<M: RenderMath, T: RenderTarget>(
    layer: MappedLayer,
    ctx: &RenderCtx<M, T>,
    ns: Option<usize>,
    location: Point<Float64>,
    xray_pos: Seq<Point<Float64>>,
    state: SurfaceState,
    other: SurfaceState,
    f: Frame,
    g: Frame,
    first: Seq<LayerSurfaceRenderElement>,
    second: Seq<LayerSurfaceRenderElement>,
)
    requires
        all_repeatable(&ctx.math),
        f.blocked_out,
        g.blocked_out,
        state.blur_region is None || requests_blur(state.blur_region),
        other.blur_region is None || requests_blur(other.blur_region),
        layer.frames(ctx, location, f),
        layer.frames(ctx, location, g),
        layer.renders(ctx, ns, xray_pos, state, f, first),
        layer.renders(ctx, ns, xray_pos, other, g, second),
    ensures
        all_alike(first, second),
        first[0] == second[0],
{
    let opacity = layer.rules.opacity;
    assert(layer.with_opacity(opacity) == layer);
    frame_repeats(layer, opacity, ctx, location, f, g);
    rendering_repeats(layer, opacity, ctx, ns, xray_pos, state, other, f, first, second);
}

/// The opacity of a surface shows in the surface itself alone: another opacity draws the same
/// shadow and the same background effect, and the same surface but for its opacity. Opacities that
/// come to the same between transparent and opaque draw the same altogether.
pub proof fn opacity_applies_to_surface_alone<M: RenderMath, T: RenderTarget>(
    layer: MappedLayer,
    opacity: Option<Float32>,
    ctx: &RenderCtx<M, T>,
    ns: Option<usize>,
    location: Point<Float64>,
    xray_pos: Seq<Point<Float64>>,
    state: SurfaceState,
    f: Frame,
    g: Frame,
    first: Seq<LayerSurfaceRenderElement>,
    second: Seq<LayerSurfaceRenderElement>,
)
    requires
        all_repeatable(&ctx.math),
        blocking_repeats(&ctx.target),
        layer.frames(ctx, location, f),
        layer.with_opacity(opacity).frames(ctx, location, g),
        layer.renders(ctx, ns, xray_pos, state, f, first),
        layer.with_opacity(opacity).renders(ctx, ns, xray_pos, state, g, second),
    ensures
        ({
            let before = layer.rules.alpha();
            let after = layer.with_opacity(opacity).rules.alpha();
            &&& first.len() == second.len()
            &&& first[0].drawn_alpha() == Some(before)
            &&& second[0] == first[0].with_alpha(after)
            &&& forall|i: int|
                1 <= i < first.len() ==> (#[trigger] first[i]).alike(second[i])
                    && first[i].drawn_alpha() is None
            &&& before == after || before.same(after) ==> all_alike(first, second)
        }),
{
    frame_repeats(layer, opacity, ctx, location, f, g);
    rendering_repeats(layer, opacity, ctx, ns, xray_pos, state, state, f, first, second);
}

/// An effect that the surface does not ask for follows the geometry of the layer surface and its
/// corner radius.
pub proof fn unrequested_effect_follows_geometry<M: RenderMath, T: RenderTarget>(
    layer: MappedLayer,
    ctx: &RenderCtx<M, T>,
    ns: Option<usize>,
    xray_pos: Seq<Point<Float64>>,
    state: SurfaceState,
    frame: Frame,
    elements: Seq<LayerSurfaceRenderElement>,
)
    requires
        state.blur_region is None,
        layer.background_effect.drawable(ctx.has_xray),
        layer.renders(ctx, ns, xray_pos, state, frame, elements),
    ensures
        drawn_effect(elements.last()) matches Some(e) && {
            &&& elements[1] == (LayerSurfaceRenderElement::Shadow {
                location: e.params.geometry.loc,
            })
            &&& e.params.geometry.size == layer.block_out_buffer.size
            &&& e.params.subregion is None
            &&& e.params.clip matches Some((area, radius)) && area == e.params.geometry
                && fitted_radius(
                &ctx.math,
                area,
                layer.background_effect.corner_radius,
                radius,
            )
        },
{
    damage_precedes_effect(layer, ctx, ns, xray_pos, state, frame, elements);
}

/// An effect that a visible surface asks for follows exactly the region that it asks for, and
/// nothing clips it to the geometry of the layer surface.
pub proof fn requested_effect_follows_region<M: RenderMath, T: RenderTarget>(
    layer: MappedLayer,
    ctx: &RenderCtx<M, T>,
    ns: Option<usize>,
    xray_pos: Seq<Point<Float64>>,
    state: SurfaceState,
    frame: Frame,
    elements: Seq<LayerSurfaceRenderElement>,
)
    requires
        !frame.blocked_out,
        requests_blur(state.blur_region),
        layer.background_effect.drawable(ctx.has_xray),
        layer.renders(ctx, ns, xray_pos, state, frame, elements),
    ensures
        drawn_effect(elements.last()) matches Some(e) && {
            &&& e.params.clip is None
            &&& e.params.subregion matches Some(region) && region.rects == state.blur_region->0
        },
{
    damage_precedes_effect(layer, ctx, ns, xray_pos, state, frame, elements);
}

/// Scaling an integer by one and moving it by zero leave it as it is.
pub open spec fn units_are_neutral<M: RenderMath>(math: &M) -> bool {
    &&& forall|v: i64, a: Float64, b: Float64| #[trigger]
        call_ensures(M::from_int, (math, v), a) && #[trigger] call_ensures(
            M::product,
            (math, a, Float64 { bits: 0x3ff0_0000_0000_0000 }),
            b,
        ) ==> b == a
    &&& forall|v: i64, a: Float64, b: Float64| #[trigger]
        call_ensures(M::from_int, (math, v), a) && #[trigger] call_ensures(
            M::sum,
            (math, a, Float64 { bits: 0 }),
            b,
        ) ==> b == a
}

/// The region for which a surface asks is measured from the geometry of the effect: where the
/// surface is placed at whole physical pixels, so that rounding does not move it, every corner of
/// the region keeps its coordinates.
pub proof fn requested_region_is_relative_to_geometry<M: RenderMath>(
    layer: MappedLayer,
    math: &M,
    area: Rectangle<Float64>,
    state: SurfaceState,
    params: RenderParams,
    corner: Point<i64>,
    r: Point<Float64>,
)
    requires
        layer.region_params(math, area, state, params),
        forall|loc: Point<Float64>, placed: Point<Float64>| #[trigger]
            point_value(math, surface_geo(state.view).loc, loc) && #[trigger] moved(
                math,
                loc,
                area.loc,
                placed,
            ) ==> placed == params.geometry.loc,
        forall|way: Point<Float64>| #[trigger]
            relative(math, params.geometry.loc, params.geometry.loc, way) ==> way == (Point {
                x: Float64 { bits: 0 },
                y: Float64 { bits: 0 },
            }),
        units_are_neutral(math),
        params.subregion->0.places(math, corner, r),
    ensures
        params.subregion matches Some(region) && region.rects == state.blur_region->0,
        call_ensures(M::from_int, (math, corner.x), r.x),
        call_ensures(M::from_int, (math, corner.y), r.y),
{
}

/// A surface that asks for blur, and that no rule refuses it, has its background blurred in
/// exactly the region for which it asks, unless blur is switched off altogether.
pub proof fn requested_blur_is_shown<M: RenderMath, T: RenderTarget>(
    layer: MappedLayer,
    size: Size<Float64>,
    ctx: &RenderCtx<M, T>,
    ns: Option<usize>,
    xray_pos: Seq<Point<Float64>>,
    state: SurfaceState,
    frame: Frame,
    elements: Seq<LayerSurfaceRenderElement>,
)
    requires
        layer.rules.background_effect.blur != Some(false),
        layer.rules.background_effect.xray == Some(false) || ctx.has_xray,
        !frame.blocked_out,
        requests_blur(state.blur_region),
        layer.with_elements(size, true).renders(ctx, ns, xray_pos, state, frame, elements),
    ensures
        drawn_effect(elements.last()) matches Some(e) && {
            &&& e.blur == !layer.background_effect.blur_config.off
            &&& e.params.clip is None
            &&& e.params.subregion matches Some(region) && region.rects == state.blur_region->0
        },
{
    let updated = layer.with_elements(size, true);
    assert(updated.background_effect.drawable(ctx.has_xray));
    damage_precedes_effect(updated, ctx, ns, xray_pos, state, frame, elements);
    requested_effect_follows_region(updated, ctx, ns, xray_pos, state, frame, elements);
}

/// A surface whose rules turn blur on has its background blurred in the shape of its geometry and
/// the corner radius of its rules, unless blur is switched off altogether.
pub proof fn ruled_blur_is_shown<M: RenderMath, T: RenderTarget>(
    layer: MappedLayer,
    size: Size<Float64>,
    ctx: &RenderCtx<M, T>,
    ns: Option<usize>,
    xray_pos: Seq<Point<Float64>>,
    state: SurfaceState,
    frame: Frame,
    elements: Seq<LayerSurfaceRenderElement>,
)
    requires
        layer.rules.background_effect.blur == Some(true),
        layer.rules.background_effect.xray == Some(false) || ctx.has_xray,
        state.blur_region is None,
        layer.with_elements(size, false).renders(ctx, ns, xray_pos, state, frame, elements),
    ensures
        drawn_effect(elements.last()) matches Some(e) && {
            &&& e.blur == !layer.background_effect.blur_config.off
            &&& e.params.geometry.size == size
            &&& e.params.subregion is None
            &&& e.params.clip matches Some((area, radius)) && area == e.params.geometry && exists|
                own: CornerRadius,
            |
                {
                    &&& own == layer.rules.radius() || own.same(layer.rules.radius())
                    &&& #[trigger] fitted_radius(&ctx.math, area, own, radius)
                }
        },
{
    let updated = layer.with_elements(size, false);
    assert(updated.background_effect.drawable(ctx.has_xray));
    let own = updated.background_effect.corner_radius;
    assert(own == layer.rules.radius() || own.same(layer.rules.radius()));
    damage_precedes_effect(updated, ctx, ns, xray_pos, state, frame, elements);
    unrequested_effect_follows_geometry(updated, ctx, ns, xray_pos, state, frame, elements);
}

/// A surface with a blur region that is set but empty has no background effect.
pub proof fn empty_blur_region_hides_effect<M: RenderMath, T: RenderTarget>(
    layer: MappedLayer,
    ctx: &RenderCtx<M, T>,
    ns: Option<usize>,
    xray_pos: Seq<Point<Float64>>,
    state: SurfaceState,
    frame: Frame,
    elements: Seq<LayerSurfaceRenderElement>,
)
    requires
        state.blur_region is Some,
        !requests_blur(state.blur_region),
        layer.renders(ctx, ns, xray_pos, state, frame, elements),
    ensures
        forall|i: int|
            0 <= i < elements.len() ==> !(#[trigger] elements[i] is BackgroundEffect),
{
}

/// Rules that were taken over are up to date: taking over the same ones again is no change.
pub proof fn rules_change_once(layer: MappedLayer, rules: ResolvedLayerRules)
    requires
        !rules.has_nan(),
    ensures
        layer.with_rules(rules).rules.same(rules),
        layer.with_rules(rules).with_rules(rules) == layer.with_rules(rules),
{
}

/// A surface never bobs sideways, and does not bob at all unless the rules say so.
pub proof fn only_floating_surfaces_bob<M: RenderMath>(
    layer: MappedLayer,
    math: &M,
    now: u64,
    bob: Point<Float64>,
)
    requires
        layer.bobs(math, now, bob),
    ensures
        bob.x == (Float64 { bits: 0 }),
        !layer.rules.baba_is_float ==> bob.y == (Float64 { bits: 0 }),
{
}

} // verus!
