//! Rules and settings: when they are taken over, and what they decide.

use vstd::prelude::*;

use crate::float::{Float32, Float64};
use crate::kde_blur::SurfaceId;
use crate::laws::values::{equal32, equal64, number32, place32};
use crate::layer::{LayerRules, LayerSurfaceCachedState, MappedLayer};
use crate::style::{CornerRadius, ResolvedLayerRules};

verus! {

/// Two optional values are both missing, or are the same number.
pub open spec fn agree64(a: Option<Float64>, b: Option<Float64>) -> bool {
    &&& a is Some <==> b is Some
    &&& a matches Some(v) ==> equal64(v, b->0)
}

/// Two optional values are both missing, or are the same number.
pub open spec fn agree32(a: Option<Float32>, b: Option<Float32>) -> bool {
    &&& a is Some <==> b is Some
    &&& a matches Some(v) ==> equal32(v, b->0)
}

/// All four corners have the same radius in both.
pub open spec fn corners_agree(a: CornerRadius, b: CornerRadius) -> bool {
    &&& equal32(a.top_left, b.top_left)
    &&& equal32(a.top_right, b.top_right)
    &&& equal32(a.bottom_right, b.bottom_right)
    &&& equal32(a.bottom_left, b.bottom_left)
}

/// Every single setting is the same in both.
pub open spec fn rules_agree(a: ResolvedLayerRules, b: ResolvedLayerRules) -> bool {
    &&& agree32(a.opacity, b.opacity)
    &&& a.block_out_from == b.block_out_from
    &&& a.shadow == b.shadow
    &&& a.geometry_corner_radius is Some <==> b.geometry_corner_radius is Some
    &&& a.geometry_corner_radius matches Some(r) ==> corners_agree(r, b.geometry_corner_radius->0)
    &&& a.place_within_backdrop == b.place_within_backdrop
    &&& a.baba_is_float == b.baba_is_float
    &&& a.background_effect.blur == b.background_effect.blur
    &&& a.background_effect.xray == b.background_effect.xray
    &&& agree64(a.background_effect.noise, b.background_effect.noise)
    &&& agree64(a.background_effect.saturation, b.background_effect.saturation)
}

/// New rules take effect: afterwards every setting is that of the new rules. They count as a
/// change exactly if one setting differs, and nothing but the rules changes.
pub proof fn new_rules_take_effect(
    layer: &mut MappedLayer,
    new_rules: ResolvedLayerRules,
    changed: bool,
)
    requires
        call_ensures(MappedLayer::set_rules, (layer, new_rules), changed),
    ensures
        changed <==> !rules_agree(old(layer).rules, new_rules),
        changed ==> final(layer).rules == new_rules,
        !changed ==> *final(layer) == *old(layer) && rules_agree(final(layer).rules, new_rules),
        final(layer).surface == old(layer).surface,
        final(layer).block_out_buffer == old(layer).block_out_buffer,
        final(layer).shadow == old(layer).shadow,
        final(layer).background_effect == old(layer).background_effect,
        final(layer).view_size == old(layer).view_size,
        final(layer).scale == old(layer).scale,
{
}

/// Recomputed rules take effect: afterwards every setting is that of the rules computed for this
/// very surface, and a change is reported exactly if one setting differs.
pub proof fn recomputed_rules_take_effect<R: LayerRules>(
    layer: &mut MappedLayer,
    rules: &R,
    is_at_startup: bool,
    computed: ResolvedLayerRules,
    changed: bool,
)
    requires
        forall|r: ResolvedLayerRules| #[trigger]
            call_ensures(R::compute, (rules, old(layer).surface, is_at_startup), r) ==> r
                == computed,
        call_ensures(
            MappedLayer::recompute_layer_rules::<R>,
            (layer, rules, is_at_startup),
            changed,
        ),
    ensures
        changed <==> !rules_agree(old(layer).rules, computed),
        changed ==> final(layer).rules == computed,
        !changed ==> *final(layer) == *old(layer) && rules_agree(final(layer).rules, computed),
        final(layer).rules.background_effect.blur == computed.background_effect.blur,
        final(layer).rules.background_effect.xray == computed.background_effect.xray,
        final(layer).surface == old(layer).surface,
        final(layer).block_out_buffer == old(layer).block_out_buffer,
        final(layer).shadow == old(layer).shadow,
        final(layer).background_effect == old(layer).background_effect,
        final(layer).view_size == old(layer).view_size,
        final(layer).scale == old(layer).scale,
{
}

/// What an opacity is drawn with: opaque unless it is set, and never beyond transparent or opaque.
pub open spec fn drawn_with(opacity: Option<Float32>, alpha: Float32) -> bool {
    &&& opacity is None ==> alpha.bits == 0x3f80_0000
    &&& opacity matches Some(v) ==> {
        &&& !number32(v) ==> alpha == v
        &&& number32(v) && place32(v) < 0 ==> alpha.bits == 0
        &&& 0 <= place32(v) <= 0x3f80_0000 ==> alpha == v
        &&& number32(v) && place32(v) > 0x3f80_0000 ==> alpha.bits == 0x3f80_0000
    }
}

/// The radius that the rules give to corners; square corners without a rule.
pub open spec fn rounded_by(rules: ResolvedLayerRules, radius: CornerRadius) -> bool {
    &&& rules.geometry_corner_radius matches Some(r) ==> radius == r
    &&& rules.geometry_corner_radius is None ==> radius.top_left.bits == 0
        && radius.top_right.bits == 0 && radius.bottom_right.bits == 0 && radius.bottom_left.bits
        == 0
}

/// A surface is drawn opaque unless its rules say otherwise, and never beyond transparent or
/// opaque. Its corners are rounded as the rules say.
pub proof fn rules_decide_on_opacity_and_corners(
    rules: &ResolvedLayerRules,
    alpha: Float32,
    radius: CornerRadius,
)
    requires
        call_ensures(ResolvedLayerRules::drawn_opacity, (rules,), alpha),
        call_ensures(ResolvedLayerRules::corner_radius, (rules,), radius),
    ensures
        drawn_with(rules.opacity, alpha),
        rounded_by(*rules, radius),
{
}

/// A surface lies in the backdrop exactly if its rules ask for that, it lies on the background
/// layer, and it does not care for exclusive zones.
pub proof fn backdrop_is_for_the_background(
    layer: &MappedLayer,
    state: &LayerSurfaceCachedState,
    r: bool,
)
    requires
        call_ensures(MappedLayer::place_within_backdrop, (layer, state), r),
    ensures
        !layer.rules.place_within_backdrop ==> !r,
        state.layer is Bottom || state.layer is Top || state.layer is Overlay ==> !r,
        state.exclusive_zone is Exclusive || state.exclusive_zone is Neutral ==> !r,
        layer.rules.place_within_backdrop && state.layer is Background
            && state.exclusive_zone is DontCare ==> r,
{
}

/// A layer tells its own surface and its own rules.
pub proof fn layers_tell_what_they_hold(
    layer: &MappedLayer,
    surface: &SurfaceId,
    rules: &ResolvedLayerRules,
)
    requires
        call_ensures(MappedLayer::surface, (layer,), surface),
        call_ensures(MappedLayer::rules, (layer,), rules),
    ensures
        surface.id == layer.surface.id,
        *rules == layer.rules,
{
}

/// Only a surface that bobs is animated.
pub proof fn animation_is_bobbing(layer: &MappedLayer, r: bool)
    requires
        call_ensures(MappedLayer::are_animations_ongoing, (layer,), r),
    ensures
        r <==> layer.rules.baba_is_float,
{
}

} // verus!
