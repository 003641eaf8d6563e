//! Background effects: which are active, and with which settings they are drawn.

use vstd::prelude::*;

use crate::background_effect::{
    BackgroundEffect, BackgroundEffectElement, EffectDraw, ExtraDamage, Options, RenderParams,
    XrayPos,
};
use crate::float::{Float32, Float64};
use crate::geometry::{Point, Rectangle};
use crate::laws::settings::{agree64, corners_agree};
use crate::laws::values::{equal64, number64, place64};
use crate::math::RenderMath;
use crate::style::{BackgroundEffectRule, Blur, CornerRadius};

verus! {

/// Noise shows: it is a number above zero.
pub open spec fn noise_shows(noise: Option<Float64>) -> bool {
    noise matches Some(v) && number64(v) && place64(v) > 0
}

/// Saturation shows: it is anything but one.
pub open spec fn saturation_shows(saturation: Option<Float64>) -> bool {
    saturation matches Some(v) && v.bits != 0x3ff0_0000_0000_0000
}

/// An effect is visible exactly if there is blur, xray, noise above zero, or a saturation other
/// than one.
pub proof fn any_effect_is_visible(options: &Options, effect: &BackgroundEffect, r: bool, s: bool)
    requires
        call_ensures(Options::is_visible, (options,), r),
        call_ensures(BackgroundEffect::is_visible, (effect,), s),
    ensures
        options.blur ==> r,
        options.xray ==> r,
        noise_shows(options.noise) ==> r,
        saturation_shows(options.saturation) ==> r,
        r ==> options.blur || options.xray || noise_shows(options.noise) || saturation_shows(
            options.saturation,
        ),
        effect.options == *options ==> r == s,
{
}

/// A new effect shows nothing, and has not been damaged.
pub proof fn new_effects_are_invisible(config: Blur, effect: BackgroundEffect)
    requires
        call_ensures(BackgroundEffect::new, (config,), effect),
    ensures
        effect.blur_config == config,
        !effect.options.blur && !effect.options.xray,
        effect.options.noise is None && effect.options.saturation is None,
        effect.corner_radius.top_left.bits == 0,
        effect.corner_radius.top_right.bits == 0,
        effect.corner_radius.bottom_right.bits == 0,
        effect.corner_radius.bottom_left.bits == 0,
        effect.damage.generation == 0,
{
}

/// Damage comes with the next generation, which differs from the one before.
pub proof fn damage_starts_a_new_generation(damage: &mut ExtraDamage)
    requires
        call_ensures(ExtraDamage::damage_all, (damage,), ()),
    ensures
        final(damage).generation != old(damage).generation,
        old(damage).generation < usize::MAX ==> final(damage).generation == old(damage).generation
            + 1,
        old(damage).generation == usize::MAX ==> final(damage).generation == 0,
{
}

/// The effect is damaged anew: its next generation has begun.
pub open spec fn damaged_anew(before: BackgroundEffect, after: BackgroundEffect) -> bool {
    &&& after.damage.generation != before.damage.generation
    &&& before.damage.generation < usize::MAX ==> after.damage.generation
        == before.damage.generation + 1
}

/// Every single blur setting is the same in both.
pub open spec fn blur_settings_agree(a: Blur, b: Blur) -> bool {
    a.off == b.off && equal64(a.noise, b.noise) && equal64(a.saturation, b.saturation) && a.kernel
        == b.kernel
}

/// New blur settings take effect, and damage exactly if one of them differs.
pub proof fn new_blur_settings_take_effect(effect: &mut BackgroundEffect, config: Blur)
    requires
        call_ensures(BackgroundEffect::update_config, (effect, config), ()),
    ensures
        final(effect).options == old(effect).options,
        final(effect).corner_radius == old(effect).corner_radius,
        blur_settings_agree(old(effect).blur_config, config) ==> *final(effect) == *old(effect),
        !blur_settings_agree(old(effect).blur_config, config) ==> final(effect).blur_config
            == config && damaged_anew(*old(effect), *final(effect)),
{
}

/// The options of an effect are those that a rule and a request of the surface lead to.
///
/// A rule decides on blur; without one, the request does. A rule decides on xray; without one, it
/// comes with any other effect that shows. Noise and saturation are up to the rule.
pub open spec fn follows_rule(
    options: Options,
    rule: BackgroundEffectRule,
    requested: bool,
) -> bool {
    &&& rule.blur == Some(true) ==> options.blur
    &&& rule.blur == Some(false) ==> !options.blur
    &&& rule.blur is None ==> options.blur == requested
    &&& rule.xray == Some(true) ==> options.xray
    &&& rule.xray == Some(false) ==> !options.xray
    &&& rule.xray is None ==> options.xray == (options.blur || noise_shows(rule.noise)
        || saturation_shows(rule.saturation))
    &&& options.noise is Some <==> rule.noise is Some
    &&& options.noise matches Some(v) ==> v == rule.noise->0 || equal64(v, rule.noise->0)
    &&& options.saturation is Some <==> rule.saturation is Some
    &&& options.saturation matches Some(v) ==> v == rule.saturation->0 || equal64(
        v,
        rule.saturation->0,
    )
}

/// Rules take effect: the options follow the rule and the request, and the corners follow the
/// radius. The effect is damaged exactly if one of these changes.
pub proof fn rules_decide_on_effects(
    effect: &mut BackgroundEffect,
    radius: CornerRadius,
    rule: BackgroundEffectRule,
    requested: bool,
)
    requires
        call_ensures(
            BackgroundEffect::update_render_elements,
            (effect, radius, rule, requested),
            (),
        ),
    ensures
        follows_rule(final(effect).options, rule, requested),
        final(effect).corner_radius == radius || corners_agree(
            final(effect).corner_radius,
            radius,
        ),
        final(effect).blur_config == old(effect).blur_config,
        *final(effect) == *old(effect) || damaged_anew(*old(effect), *final(effect)),
        *final(effect) == *old(effect) <==> {
            &&& old(effect).options.blur == final(effect).options.blur
            &&& old(effect).options.xray == final(effect).options.xray
            &&& agree64(old(effect).options.noise, rule.noise)
            &&& agree64(old(effect).options.saturation, rule.saturation)
            &&& corners_agree(old(effect).corner_radius, radius)
        },
{
}

/// What is drawn with a value of the settings.
pub open spec fn drawn_from<M: RenderMath>(math: &M, value: Float64, drawn: Float32) -> bool {
    call_ensures(M::narrow, (math, value), drawn)
}

/// An effect is drawn with the right settings.
///
/// It is blurred if that is asked for and blur is not off. A blurred background has the noise and
/// the saturation of the blur settings, and one that is not has none of the one and all of the
/// other; each of the two gives way to a value of its own, whatever is said of the other. The
/// effect stays where it is, in its own shape.
pub open spec fn drawn_right<M: RenderMath>(
    math: &M,
    effect: BackgroundEffect,
    params: RenderParams,
    drawn: EffectDraw,
) -> bool {
    &&& drawn.blur <==> effect.options.blur && !effect.blur_config.off
    &&& effect.options.noise matches Some(v) ==> drawn_from(math, v, drawn.noise)
    &&& effect.options.noise is None && effect.options.blur && !effect.blur_config.off
        ==> drawn_from(math, effect.blur_config.noise, drawn.noise)
    &&& effect.options.noise is None && (!effect.options.blur || effect.blur_config.off)
        ==> drawn_from(math, Float64 { bits: 0 }, drawn.noise)
    &&& effect.options.saturation matches Some(v) ==> drawn_from(math, v, drawn.saturation)
    &&& effect.options.saturation is None && effect.options.blur && !effect.blur_config.off
        ==> drawn_from(math, effect.blur_config.saturation, drawn.saturation)
    &&& effect.options.saturation is None && (!effect.options.blur || effect.blur_config.off)
        ==> drawn_from(math, Float64 { bits: 0x3ff0_0000_0000_0000 }, drawn.saturation)
    &&& drawn.params.geometry == params.geometry
    &&& drawn.params.subregion == params.subregion
    &&& drawn.params.scale == params.scale
    &&& params.clip is Some <==> drawn.params.clip is Some
    &&& params.clip matches Some((area, _)) ==> {
        &&& drawn.params.clip matches Some((clip, radius))
        &&& clip == area
        &&& rounded_to_fit(math, area, effect.corner_radius, radius)
    }
}

/// `r` is the radius that is drawn for `own`: larger by one, and made to fit the area by its width
/// and its height.
pub open spec fn rounded_to_fit<M: RenderMath>(
    math: &M,
    area: Rectangle<Float64>,
    own: CornerRadius,
    r: CornerRadius,
) -> bool {
    exists|expanded: CornerRadius, width: Float32, height: Float32|
        {
            &&& #[trigger] call_ensures(
                M::expanded_by,
                (math, own, Float32 { bits: 0x3f80_0000 }),
                expanded,
            )
            &&& #[trigger] drawn_from(math, area.size.w, width)
            &&& #[trigger] drawn_from(math, area.size.h, height)
            &&& call_ensures(M::fit_to, (math, expanded, width, height), r)
        }
}

proof fn clip_radius_fits<M: RenderMath>(
    math: &M,
    area: Rectangle<Float64>,
    own: CornerRadius,
    r: CornerRadius,
)
    requires
        crate::background_effect::fitted_radius(math, area, own, r),
    ensures
        rounded_to_fit(math, area, own, r),
{
    let (e, w, h) = choose|e: CornerRadius, w: Float32, h: Float32|
        {
            &&& #[trigger] call_ensures(
                M::expanded_by,
                (math, own, Float32 { bits: 0x3f80_0000 }),
                e,
            )
            &&& #[trigger] call_ensures(M::narrow, (math, area.size.w), w)
            &&& #[trigger] call_ensures(M::narrow, (math, area.size.h), h)
            &&& call_ensures(M::fit_to, (math, e, w, h), r)
        };
    assert(drawn_from(math, area.size.w, w) && drawn_from(math, area.size.h, h));
}

/// A clip radius is made larger by one and then fitted to the clip; nothing else changes.
pub proof fn clip_radius_is_fitted_to_the_clip<M: RenderMath>(params: &mut RenderParams, math: &M)
    requires
        call_ensures(RenderParams::fit_clip_radius::<M>, (params, math), ()),
    ensures
        final(params).geometry == old(params).geometry,
        final(params).subregion == old(params).subregion,
        final(params).scale == old(params).scale,
        old(params).clip is None ==> final(params).clip is None,
        old(params).clip matches Some((area, own)) ==> {
            &&& final(params).clip matches Some((clip, radius))
            &&& clip == area
            &&& rounded_to_fit(math, area, own, radius)
        },
{
    if let Some((area, own)) = old(params).clip {
        let (_, radius) = final(params).clip->0;
        clip_radius_fits(math, area, own, radius);
    }
}

pub(crate) proof fn settings_are_right<M: RenderMath>(
    math: &M,
    effect: BackgroundEffect,
    params: RenderParams,
    e: EffectDraw,
)
    requires
        effect.draws_effect(math, params, e),
    ensures
        drawn_right(math, effect, params, e),
        drawn_right(math, effect, e.params, e),
{
    if let Some((area, _)) = params.clip {
        let (_, radius) = e.params.clip->0;
        clip_radius_fits(math, area, effect.corner_radius, radius);
    }
}

/// Effects are drawn with the right settings, and only where they can be: nothing is drawn unless
/// an effect shows; an xray effect is drawn on the backdrop if there is one, after its damage; any
/// other effect is drawn alone, backdrop or not.
pub proof fn effects_are_drawn_right<M: RenderMath>(
    effect: &BackgroundEffect,
    math: &M,
    ns: Option<usize>,
    params: RenderParams,
    xray_pos: XrayPos,
    has_xray: bool,
    elements: Vec<BackgroundEffectElement>,
)
    requires
        call_ensures(
            BackgroundEffect::render::<M>,
            (effect, math, ns, params, xray_pos, has_xray),
            elements,
        ),
    ensures
        ({
            let options = effect.options;
            let shows = options.blur || options.xray || noise_shows(options.noise)
                || saturation_shows(options.saturation);
            &&& !shows ==> elements@.len() == 0
            &&& shows && options.xray && !has_xray ==> elements@.len() == 0
            &&& shows && options.xray && has_xray ==> {
                &&& elements@.len() == 2
                &&& elements@[0] matches BackgroundEffectElement::ExtraDamage(d)
                &&& d.damage == effect.damage && d.geometry == params.geometry
                &&& elements@[1] matches BackgroundEffectElement::Xray { effect: e, xray_pos: p }
                &&& drawn_right(math, *effect, params, e)
                &&& p.offsets@ == xray_pos.offsets@
            }
            &&& shows && !options.xray ==> {
                &&& elements@.len() == 1
                &&& elements@[0] matches BackgroundEffectElement::NonXray { effect: e, ns: n }
                &&& drawn_right(math, *effect, params, e)
                &&& n == ns
            }
        }),
{
    let options = effect.options;
    if elements@.len() > 0 {
        let e = elements@.last().effect()->0;
        settings_are_right(math, *effect, params, e);
    }
}

/// What a rule leaves open comes from the blur settings: once a rule has been resolved, a
/// background that it blurs is drawn with the noise and the saturation of the blur settings, but
/// for those that the rule sets, each on its own.
pub proof fn blur_settings_fill_in_for_rules<M: RenderMath>(
    effect: &mut BackgroundEffect,
    radius: CornerRadius,
    rule: BackgroundEffectRule,
    requested: bool,
    math: &M,
    ns: Option<usize>,
    params: RenderParams,
    xray_pos: XrayPos,
    has_xray: bool,
    elements: Vec<BackgroundEffectElement>,
    e: EffectDraw,
)
    requires
        call_ensures(
            BackgroundEffect::update_render_elements,
            (effect, radius, rule, requested),
            (),
        ),
        call_ensures(
            BackgroundEffect::render::<M>,
            (&*final(effect), math, ns, params, xray_pos, has_xray),
            elements,
        ),
        rule.blur == Some(true) || (rule.blur is None && requested),
        !old(effect).blur_config.off,
        elements@.len() > 0,
        elements@.last() matches BackgroundEffectElement::Xray { effect: d, .. } ==> d == e,
        elements@.last() matches BackgroundEffectElement::NonXray { effect: d, .. } ==> d == e,
    ensures
        e.blur,
        rule.noise is None ==> drawn_from(math, old(effect).blur_config.noise, e.noise),
        rule.saturation is None ==> drawn_from(
            math,
            old(effect).blur_config.saturation,
            e.saturation,
        ),
        rule.noise matches Some(v) ==> drawn_from(math, v, e.noise) || exists|w: Float64|
            equal64(w, v) && #[trigger] drawn_from(math, w, e.noise),
        rule.saturation matches Some(v) ==> drawn_from(math, v, e.saturation) || exists|w: Float64|
            equal64(w, v) && #[trigger] drawn_from(math, w, e.saturation),
{
    rules_decide_on_effects(effect, radius, rule, requested);
    let after = *final(effect);
    effects_are_drawn_right(&after, math, ns, params, xray_pos, has_xray, elements);
}

/// A position in the backdrop starts from nowhere, and is moved on by one offset after another.
pub proof fn offsets_add_up(
    start: XrayPos,
    pos: XrayPos,
    offset: Point<Float64>,
    moved: XrayPos,
)
    requires
        call_ensures(XrayPos::new, (), start),
        call_ensures(XrayPos::offset, (pos, offset), moved),
    ensures
        start.offsets@.len() == 0,
        moved.offsets@.len() == pos.offsets@.len() + 1,
        moved.offsets@.last() == offset,
        forall|i: int|
            0 <= i < pos.offsets@.len() ==> #[trigger] moved.offsets@[i] == pos.offsets@[i],
{
}

} // verus!
