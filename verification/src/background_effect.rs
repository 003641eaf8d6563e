//! The effect drawn behind a surface.

use vstd::prelude::*;

use crate::float::{Float32, Float64};
use crate::geometry::{Point, Rectangle};
use crate::math::{all_repeatable, RenderMath};
use crate::style::{same_option64, BackgroundEffectRule, Blur, CornerRadius};
use crate::subregion::EffectSubregion;

verus! {

/// Marks an element as damaged as a whole each time its generation changes.
#[derive(Debug, Clone, Copy, PartialEq, Eq, Structural)]
pub struct ExtraDamage {
    pub generation: usize,
}

impl ExtraDamage {
    /// The state after one more change. It always differs from the state before.
    pub open spec fn damaged(self) -> Self {
        ExtraDamage {
            generation: if self.generation == usize::MAX {
                0
            } else {
                (self.generation + 1) as usize
            },
        }
    }

    pub fn new() -> (r: Self)
        ensures
            r.generation == 0,
    {
        ExtraDamage { generation: 0 }
    }

    pub fn damage_all(&mut self)
        ensures
            *final(self) == old(self).damaged(),
            *final(self) != *old(self),
    {
        self.generation = self.generation.wrapping_add(1);
    }
}

/// Which effects are drawn.
#[derive(Debug, Clone, Copy)]
pub struct Options {
    pub blur: bool,
    pub xray: bool,
    pub noise: Option<Float64>,
    pub saturation: Option<Float64>,
}

impl Options {
    /// Some effect changes what is seen: noise does when it is above zero, saturation when it is
    /// anything but one.
    pub open spec fn visible(self) -> bool {
        ||| self.xray
        ||| self.blur
        ||| (self.noise matches Some(v) && (Float64 { bits: 0 }).less(v))
        ||| (self.saturation matches Some(v) && !v.same(Float64 { bits: 0x3ff0_0000_0000_0000 }))
    }

    pub open spec fn same(self, other: Self) -> bool {
        &&& self.blur == other.blur
        &&& self.xray == other.xray
        &&& same_option64(self.noise, other.noise)
        &&& same_option64(self.saturation, other.saturation)
    }

    /// No effect at all.
    pub open spec fn none() -> Self {
        Options { blur: false, xray: false, noise: None, saturation: None }
    }

    /// What a rule asks for, given whether the surface itself asks for blur.
    ///
    /// A surface that asks for blur gets it unless the rule says no; any other surface gets it
    /// only where the rule says yes. Where the rule leaves xray open, it comes with any other
    /// effect.
    pub open spec fn resolved(rule: BackgroundEffectRule, has_blur_region: bool) -> Self {
        let chosen = Options {
            blur: if has_blur_region {
                rule.blur != Some(false)
            } else {
                rule.blur == Some(true)
            },
            xray: rule.xray == Some(true),
            noise: rule.noise,
            saturation: rule.saturation,
        };
        Options { xray: chosen.xray || (rule.xray is None && chosen.visible()), ..chosen }
    }

    pub fn is_visible(&self) -> (r: bool)
        ensures
            r == self.visible(),
    {
        let noisy = match self.noise {
            Some(v) => Float64::zero().lt(v),
            None => false,
        };
        let recolored = match self.saturation {
            Some(v) => v != Float64::one(),
            None => false,
        };
        self.xray || self.blur || noisy || recolored
    }
}

impl Default for Options {
    fn default() -> (r: Self)
        ensures
            r == Self::none(),
    {
        Options { blur: false, xray: false, noise: None, saturation: None }
    }
}

impl PartialEq for Options {
    fn eq(&self, other: &Self) -> (r: bool) {
        self.blur == other.blur && self.xray == other.xray && self.noise == other.noise
            && self.saturation == other.saturation
    }
}

impl vstd::std_specs::cmp::PartialEqSpecImpl for Options {
    open spec fn obeys_eq_spec() -> bool {
        true
    }

    open spec fn eq_spec(&self, other: &Self) -> bool {
        self.same(*other)
    }
}

/// A position in the backdrop: the offsets that lead to it, in the order in which they are
/// applied.
#[derive(Debug, PartialEq)]
pub struct XrayPos {
    pub offsets: Vec<Point<Float64>>,
}

impl View for XrayPos {
    type V = Seq<Point<Float64>>;

    open spec fn view(&self) -> Seq<Point<Float64>> {
        self.offsets@
    }
}

impl XrayPos {
    /// The place from which offsets are counted.
    pub fn new() -> (r: Self)
        ensures
            r@ == Seq::<Point<Float64>>::empty(),
    {
        XrayPos { offsets: Vec::new() }
    }

    pub fn offset(self, offset: Point<Float64>) -> (r: Self)
        ensures
            r@ == self@.push(offset),
    {
        let mut offsets = self.offsets;
        offsets.push(offset);
        XrayPos { offsets }
    }
}

/// Render-time parameters.
#[derive(Debug)]
pub struct RenderParams {
    /// Geometry of the background effect.
    pub geometry: Rectangle<Float64>,
    /// Effect subregion, will be clipped to `geometry`.
    ///
    /// `subregion.iter()` should return `geometry`-relative rectangles.
    pub subregion: Option<EffectSubregion>,
    /// Geometry and radius for clipping in the same coordinate space as `geometry`.
    pub clip: Option<(Rectangle<Float64>, CornerRadius)>,
    /// Scale to use for rounding to physical pixels.
    pub scale: Float64,
}

/// `r` is `radius` made larger by one and then fitted into `geometry`.
pub open spec fn fitted_radius<M: RenderMath>(
    math: &M,
    geometry: Rectangle<Float64>,
    radius: CornerRadius,
    r: CornerRadius,
) -> bool {
    exists|expanded: CornerRadius, width: Float32, height: Float32|
        {
            &&& #[trigger] call_ensures(
                M::expanded_by,
                (math, radius, (Float32 { bits: 0x3f80_0000 })),
                expanded,
            )
            &&& #[trigger] call_ensures(M::narrow, (math, geometry.size.w), width)
            &&& #[trigger] call_ensures(M::narrow, (math, geometry.size.h), height)
            &&& call_ensures(M::fit_to, (math, expanded, width, height), r)
        }
}

impl RenderParams {
    /// The parameters are those of `other` but for the radius of the clip, which is `radius`
    /// fitted into the clip's geometry.
    pub open spec fn clips_to<M: RenderMath>(
        self,
        math: &M,
        other: RenderParams,
        radius: CornerRadius,
    ) -> bool {
        &&& self.geometry == other.geometry
        &&& self.subregion == other.subregion
        &&& self.scale == other.scale
        &&& match other.clip {
            None => self.clip is None,
            Some((geometry, _)) => {
                &&& self.clip matches Some((g, r))
                &&& g == geometry
                &&& fitted_radius(math, geometry, radius, r)
            },
        }
    }

    pub fn fit_clip_radius<M: RenderMath>(&mut self, math: &M)
        ensures
            old(self).clip is None ==> *final(self) == *old(self),
            old(self).clip matches Some((_, radius)) ==> final(self).clips_to(
                math,
                *old(self),
                radius,
            ),
    {
        if let Some((geometry, radius)) = self.clip {
            // Increase the radius to avoid slight bleed on rounded corners.
            let expanded = math.expanded_by(radius, Float32::one());
            let width = math.narrow(geometry.size.w);
            let height = math.narrow(geometry.size.h);
            let fitted = math.fit_to(expanded, width, height);
            self.clip = Some((geometry, fitted));
        }
    }
}

/// The damage of a background effect, at the geometry where the effect is drawn.
#[derive(Debug, Clone, Copy, PartialEq)]
pub struct DamageElement {
    pub damage: ExtraDamage,
    pub geometry: Rectangle<Float64>,
}

/// An effect and where it is drawn.
#[derive(Debug)]
pub struct EffectDraw {
    pub params: RenderParams,
    pub blur: bool,
    pub noise: Float32,
    pub saturation: Float32,
}

/// Something to be drawn for a background effect.
#[derive(Debug)]
pub enum BackgroundEffectElement {
    /// Damages the geometry of the effect.
    ExtraDamage(DamageElement),
    /// The effect on the backdrop, seen at a position.
    Xray { effect: EffectDraw, xray_pos: XrayPos },
    /// The effect on whatever has been drawn below, told apart from other uses by a namespace.
    NonXray { effect: EffectDraw, ns: Option<usize> },
}

impl BackgroundEffectElement {
    /// The effect that the element draws, if it draws one.
    pub open spec fn effect(self) -> Option<EffectDraw> {
        match self {
            BackgroundEffectElement::ExtraDamage(_) => None,
            BackgroundEffectElement::Xray { effect, .. } => Some(effect),
            BackgroundEffectElement::NonXray { effect, .. } => Some(effect),
        }
    }

    /// Two elements draw the same.
    pub open spec fn alike(self, other: Self) -> bool {
        match (self, other) {
            (
                BackgroundEffectElement::Xray { effect: a, xray_pos: p },
                BackgroundEffectElement::Xray { effect: b, xray_pos: q },
            ) => a == b && p@ == q@,
            _ => self == other,
        }
    }
}

#[derive(Debug, Clone, Copy)]
pub struct BackgroundEffect {
    /// Damage when options change.
    pub damage: ExtraDamage,
    /// Corner radius for clipping. Kept so that a change of it damages.
    pub corner_radius: CornerRadius,
    pub blur_config: Blur,
    pub options: Options,
}

impl BackgroundEffect {
    /// The background is blurred: that is asked for and not switched off.
    pub open spec fn blurs(self) -> bool {
        self.options.blur && !self.blur_config.off
    }

    /// The noise that is drawn: what the options set, else what comes with blur, else none.
    pub open spec fn drawn_noise(self) -> Float64 {
        match self.options.noise {
            Some(v) => v,
            None => if self.blurs() {
                self.blur_config.noise
            } else {
                Float64 { bits: 0 }
            },
        }
    }

    /// The saturation that is drawn: what the options set, else what comes with blur, else one.
    pub open spec fn drawn_saturation(self) -> Float64 {
        match self.options.saturation {
            Some(v) => v,
            None => if self.blurs() {
                self.blur_config.saturation
            } else {
                Float64 { bits: 0x3ff0_0000_0000_0000 }
            },
        }
    }

    /// An effect that has not been set up yet.
    pub open spec fn initial(blur_config: Blur) -> Self {
        BackgroundEffect {
            damage: ExtraDamage { generation: 0 },
            corner_radius: CornerRadius::square(),
            blur_config,
            options: Options::none(),
        }
    }

    /// The effect with new blur settings: damaged, and changed in nothing else, if they differ
    /// from the old ones.
    pub open spec fn with_config(self, config: Blur) -> Self {
        if self.blur_config.same(config) {
            self
        } else {
            BackgroundEffect { blur_config: config, damage: self.damage.damaged(), ..self }
        }
    }

    /// The effect with new options and a new corner radius: damaged, and changed in nothing else,
    /// if one of them differs from the old one.
    pub open spec fn with_options(self, options: Options, corner_radius: CornerRadius) -> Self {
        if self.options.same(options) && self.corner_radius.same(corner_radius) {
            self
        } else {
            BackgroundEffect { options, corner_radius, damage: self.damage.damaged(), ..self }
        }
    }

    /// Something is drawn: an effect is visible, and the backdrop is there if it is needed.
    pub open spec fn drawable(self, has_xray: bool) -> bool {
        self.options.visible() && (self.options.xray ==> has_xray)
    }

    /// `r` is the effect drawn with the given parameters.
    pub open spec fn draws_effect<M: RenderMath>(
        self,
        math: &M,
        params: RenderParams,
        r: EffectDraw,
    ) -> bool {
        &&& r.params.clips_to(math, params, self.corner_radius)
        &&& r.blur == self.blurs()
        &&& call_ensures(M::narrow, (math, self.drawn_noise()), r.noise)
        &&& call_ensures(M::narrow, (math, self.drawn_saturation()), r.saturation)
    }

    /// `elements` are what is drawn, in the order in which it is pushed: with xray, first the
    /// damage and then the effect on the backdrop; without xray, the effect alone; and nothing if
    /// nothing can be drawn.
    pub open spec fn draws<M: RenderMath>(
        self,
        math: &M,
        ns: Option<usize>,
        params: RenderParams,
        xray_pos: Seq<Point<Float64>>,
        has_xray: bool,
        elements: Seq<BackgroundEffectElement>,
    ) -> bool {
        if !self.drawable(has_xray) {
            elements.len() == 0
        } else if self.options.xray {
            &&& elements.len() == 2
            &&& elements[0] == BackgroundEffectElement::ExtraDamage(
                DamageElement { damage: self.damage, geometry: params.geometry },
            )
            &&& elements[1] matches BackgroundEffectElement::Xray { effect, xray_pos: pos }
            &&& pos@ == xray_pos
            &&& self.draws_effect(math, params, effect)
        } else {
            &&& elements.len() == 1
            &&& elements[0] matches BackgroundEffectElement::NonXray { effect, ns: n }
            &&& n == ns
            &&& self.draws_effect(math, params, effect)
        }
    }

    pub fn new(blur_config: Blur) -> (r: Self)
        ensures
            r == Self::initial(blur_config),
    {
        BackgroundEffect {
            damage: ExtraDamage::new(),
            corner_radius: CornerRadius::default(),
            blur_config,
            options: Options::default(),
        }
    }

    /// Takes over new blur settings. Damages if they differ from the old ones.
    pub fn update_config(&mut self, config: Blur)
        ensures
            *final(self) == old(self).with_config(config),
    {
        if self.blur_config == config {
            return ;
        }
        self.blur_config = config;
        self.damage.damage_all();
    }

    /// Resolves which effects are drawn. Damages if they, or the corner radius, differ from
    /// before.
    pub fn update_render_elements(
        &mut self,
        corner_radius: CornerRadius,
        effect: BackgroundEffectRule,
        has_blur_region: bool,
    )
        ensures
            *final(self) == old(self).with_options(
                Options::resolved(effect, has_blur_region),
                corner_radius,
            ),
    {
        // If the surface explicitly requests a blur region, default blur to true.
        let blur = if has_blur_region {
            effect.blur != Some(false)
        } else {
            effect.blur == Some(true)
        };

        let mut options = Options {
            blur,
            xray: effect.xray == Some(true),
            noise: effect.noise,
            saturation: effect.saturation,
        };

        // If we have some background effect but xray wasn't explicitly set, default it to true
        // since it's cheaper.
        if options.is_visible() && effect.xray.is_none() {
            options.xray = true;
        }
        if self.options == options && self.corner_radius == corner_radius {
            return ;
        }
        self.options = options;
        self.corner_radius = corner_radius;
        self.damage.damage_all();
    }

    pub fn is_visible(&self) -> (r: bool)
        ensures
            r == self.options.visible(),
    {
        self.options.is_visible()
    }

    /// The elements with which the effect is drawn, in the order in which they are pushed.
    ///
    /// `has_xray` says whether there is a backdrop to see through to.
    pub fn render<M: RenderMath>(
        &self,
        math: &M,
        ns: Option<usize>,
        params: RenderParams,
        xray_pos: XrayPos,
        has_xray: bool,
    ) -> (r: Vec<BackgroundEffectElement>)
        ensures
            self.draws(math, ns, params, xray_pos@, has_xray, r@),
    {
        let mut elements: Vec<BackgroundEffectElement> = Vec::new();
        if !self.is_visible() {
            return elements;
        }
        let geometry = params.geometry;
        let mut params = params;
        if let Some((clip, _)) = params.clip {
            params.clip = Some((clip, self.corner_radius));
        }
        params.fit_clip_radius(math);

        // Use noise/saturation from options, falling back to blur defaults if blurred, and
        // to no effect if not blurred.
        let blur = self.options.blur && !self.blur_config.off;
        let noise = match self.options.noise {
            Some(v) => v,
            None => if blur {
                self.blur_config.noise
            } else {
                Float64::zero()
            },
        };
        let noise = math.narrow(noise);
        let saturation = match self.options.saturation {
            Some(v) => v,
            None => if blur {
                self.blur_config.saturation
            } else {
                Float64::one()
            },
        };
        let saturation = math.narrow(saturation);

        let effect = EffectDraw { params, blur, noise, saturation };
        if self.options.xray {
            if !has_xray {
                return elements;
            }
            elements.push(
                BackgroundEffectElement::ExtraDamage(
                    DamageElement { damage: self.damage, geometry },
                ),
            );
            elements.push(BackgroundEffectElement::Xray { effect, xray_pos });
        } else {
            elements.push(BackgroundEffectElement::NonXray { effect, ns });
        }
        elements
    }
}

/// What is drawn for an effect depends on nothing but the effect and its parameters.
pub proof fn drawing_repeats<M: RenderMath>(
    math: &M,
    effect: BackgroundEffect,
    ns: Option<usize>,
    params: RenderParams,
    xray_pos: Seq<Point<Float64>>,
    has_xray: bool,
    first: Seq<BackgroundEffectElement>,
    second: Seq<BackgroundEffectElement>,
)
    requires
        all_repeatable(math),
        effect.draws(math, ns, params, xray_pos, has_xray, first),
        effect.draws(math, ns, params, xray_pos, has_xray, second),
    ensures
        first.len() == second.len(),
        forall|i: int| 0 <= i < first.len() ==> (#[trigger] first[i]).alike(second[i]),
{
    if effect.drawable(has_xray) {
        let a = first.last().effect()->0;
        let b = second.last().effect()->0;
        assert(effect.draws_effect(math, params, a));
        assert(effect.draws_effect(math, params, b));
        effect_repeats(math, effect, params, a, b);
    }
}

proof fn effect_repeats<M: RenderMath>(
    math: &M,
    effect: BackgroundEffect,
    params: RenderParams,
    a: EffectDraw,
    b: EffectDraw,
)
    requires
        all_repeatable(math),
        effect.draws_effect(math, params, a),
        effect.draws_effect(math, params, b),
    ensures
        a == b,
{
    if let Some((geometry, _)) = params.clip {
        let (_, r) = a.params.clip->0;
        let (_, s) = b.params.clip->0;
        assert(fitted_radius(math, geometry, effect.corner_radius, r));
        assert(fitted_radius(math, geometry, effect.corner_radius, s));
        assert(r == s);
    }
    assert(a.params == b.params);
}

/// A surface that asks for blur gets it unless the rule refuses it.
pub proof fn requested_blur_is_on_unless_refused(rule: BackgroundEffectRule)
    ensures
        Options::resolved(rule, true).blur <==> rule.blur != Some(false),
        rule.blur != Some(false) ==> Options::resolved(rule, true).visible(),
{
}

/// Once a surface asks for blur, its background is blurred, unless the rule refuses blur or blur
/// is switched off altogether.
pub proof fn requested_blur_is_drawn(
    effect: BackgroundEffect,
    rule: BackgroundEffectRule,
    corner_radius: CornerRadius,
)
    requires
        rule.blur != Some(false),
    ensures
        ({
            let updated = effect.with_options(Options::resolved(rule, true), corner_radius);
            &&& updated.drawable(true)
            &&& updated.blurs() == !effect.blur_config.off
        }),
{
}

/// With xray off, an effect does without a backdrop.
pub proof fn effects_without_xray_need_no_backdrop(
    effect: BackgroundEffect,
    rule: BackgroundEffectRule,
    has_blur_region: bool,
    corner_radius: CornerRadius,
    has_xray: bool,
)
    requires
        rule.xray == Some(false),
    ensures
        ({
            let options = Options::resolved(rule, has_blur_region);
            let updated = effect.with_options(options, corner_radius);
            updated.drawable(has_xray) <==> updated.options.visible()
        }),
{
}

/// A surface that does not ask for blur gets it exactly if the rule turns it on.
pub proof fn unrequested_blur_needs_a_rule(rule: BackgroundEffectRule)
    ensures
        Options::resolved(rule, false).blur <==> rule.blur == Some(true),
{
}

/// Where a rule sets xray, that is what is drawn.
pub proof fn explicit_xray_is_respected(rule: BackgroundEffectRule, has_blur_region: bool)
    requires
        rule.xray is Some,
    ensures
        Options::resolved(rule, has_blur_region).xray == rule.xray->0,
{
}

/// Where a rule leaves xray open, it is on exactly if any other effect is active.
pub proof fn xray_comes_with_other_effects(rule: BackgroundEffectRule, has_blur_region: bool)
    requires
        rule.xray is None,
    ensures
        ({
            let options = Options::resolved(rule, has_blur_region);
            let others = Options { xray: false, ..options };
            &&& options.xray <==> others.visible()
            &&& options.visible() <==> options.xray
        }),
{
}

/// Noise and saturation are taken over from the rule as they are.
pub proof fn resolved_options_keep_the_rule(rule: BackgroundEffectRule, has_blur_region: bool)
    ensures
        Options::resolved(rule, has_blur_region).noise == rule.noise,
        Options::resolved(rule, has_blur_region).saturation == rule.saturation,
{
}

/// Without a rule and without a request of the surface, there is no effect.
pub proof fn nothing_asked_for_draws_nothing(has_xray: bool, effect: BackgroundEffect)
    requires
        effect.options == Options::resolved(
            BackgroundEffectRule { blur: None, xray: None, noise: None, saturation: None },
            false,
        ),
    ensures
        !effect.drawable(has_xray),
{
}

/// New blur settings damage exactly if they differ from the old ones, and taking them over again
/// changes nothing.
pub proof fn blur_settings_damage_once(effect: BackgroundEffect, config: Blur)
    requires
        !config.has_nan(),
    ensures
        effect.with_config(config).damage != effect.damage <==> !effect.blur_config.same(config),
        effect.with_config(config).blur_config.same(config),
        effect.with_config(config).with_config(config) == effect.with_config(config),
{
}

/// New options or a new corner radius damage exactly if one of them differs from the old one, and
/// resolving the same rule again changes nothing.
pub proof fn options_damage_once(
    effect: BackgroundEffect,
    rule: BackgroundEffectRule,
    has_blur_region: bool,
    corner_radius: CornerRadius,
)
    requires
        !rule.has_nan(),
        !corner_radius.has_nan(),
    ensures
        ({
            let options = Options::resolved(rule, has_blur_region);
            let updated = effect.with_options(options, corner_radius);
            &&& updated.damage != effect.damage <==> !(effect.options.same(options)
                && effect.corner_radius.same(corner_radius))
            &&& updated.options.same(options)
            &&& updated.corner_radius.same(corner_radius)
            &&& updated.with_options(options, corner_radius) == updated
        }),
{
}

/// Switching blur off applies to all background blur: nothing is blurred, and the noise and
/// saturation that come with blur are gone too.
pub proof fn blur_off_applies_to_all(effect: BackgroundEffect)
    requires
        effect.blur_config.off,
    ensures
        !effect.blurs(),
        effect.options.noise is None ==> effect.drawn_noise() == (Float64 { bits: 0 }),
        effect.options.saturation is None ==> effect.drawn_saturation() == (Float64 {
            bits: 0x3ff0_0000_0000_0000,
        }),
{
}

/// Noise and saturation that a rule sets are drawn as they are, blurred or not.
pub proof fn own_noise_and_saturation_win(effect: BackgroundEffect)
    ensures
        effect.options.noise matches Some(v) ==> effect.drawn_noise() == v,
        effect.options.saturation matches Some(v) ==> effect.drawn_saturation() == v,
{
}

} // verus!
