//! Layer surfaces: where they, their popups and their effects are drawn.

use vstd::prelude::*;

use crate::background_effect::{BackgroundEffectElement, EffectDraw, RenderParams, XrayPos};
use crate::float::Float64;
use crate::geometry::{Point, Rectangle, Size};
use crate::kde_blur::SurfaceId;
use crate::laws::effects::{
    damaged_anew, drawn_right, follows_rule, noise_shows, saturation_shows,
};
use crate::laws::settings::{corners_agree, drawn_with, rounded_by};
use crate::laws::values::{lands, pixel_is_nearest, rests, snapped_is_nearest, Reading};
use crate::layer::{
    effect_shape, has_blur_region, main_surface_geo, BlurRegion, Config, EffectShape, Frame,
    LayerSurfaceRenderElement, MappedLayer, MergeShadow, Popup, RenderCtx, RenderTarget,
    ShadowUpdate, SurfaceState, SurfaceView,
};
use crate::math::{all_repeatable, RenderMath};
use crate::style::{ResolvedLayerRules, ShadowConfig};

verus! {

/// How far a surface has bobbed: never sideways, and not at all unless its rules say so. Else as
/// far as the time and the height of the view say, rounded to the pixels of the output.
pub open spec fn bobbed<M: RenderMath>(
    layer: MappedLayer,
    math: &M,
    now: u64,
    bob: Point<Float64>,
) -> bool {
    &&& bob.x.bits == 0
    &&& !layer.rules.baba_is_float ==> bob.y.bits == 0
    &&& layer.rules.baba_is_float ==> exists|y: Float64|
        {
            &&& #[trigger] call_ensures(M::baba_is_float_offset, (math, now, layer.view_size.h), y)
            &&& call_ensures(M::round_logical_in_physical, (math, layer.scale, y), bob.y)
        }
}

/// Surfaces bob up and down, and only if their rules say so.
pub proof fn surfaces_bob_up_and_down<M: RenderMath>(
    layer: &MappedLayer,
    math: &M,
    now: u64,
    bob: Point<Float64>,
)
    requires
        call_ensures(MappedLayer::bob_offset::<M>, (layer, math, now), bob),
    ensures
        bobbed(*layer, math, now, bob),
{
}

/// `r` is `v` moved by an integer.
pub open spec fn moved_by<M: RenderMath>(math: &M, v: Float64, i: i64, r: Float64) -> bool {
    exists|z: Float64|
        {
            &&& #[trigger] call_ensures(M::from_int, (math, i), z)
            &&& call_ensures(M::sum, (math, v, z), r)
        }
}

/// A popup's offset from its surface, without the location of its geometry.
pub open spec fn popup_way(popup: Popup) -> (int, int) {
    (popup.offset.x - popup.geometry_loc.x, popup.offset.y - popup.geometry_loc.y)
}

/// The way of a popup can be held by coordinates.
pub open spec fn popup_fits(popup: Popup) -> bool {
    let (x, y) = popup_way(popup);
    i32::MIN <= x <= i32::MAX && i32::MIN <= y <= i32::MAX
}

/// Popups of a surface are drawn one for one, unless the surface is blocked out. Each lies where
/// the surface does, moved by the offset of the popup, at the scale of the output; with the
/// opacity of the surface.
pub proof fn popups_follow_their_surface<M: RenderMath, T: RenderTarget>(
    layer: &MappedLayer,
    ctx: &RenderCtx<M, T>,
    location: Point<Float64>,
    popups: &Vec<Popup>,
    elements: Vec<LayerSurfaceRenderElement>,
    blocked_out: bool,
    i: int,
)
    requires
        forall|b: bool| #[trigger]
            call_ensures(T::should_block_out, (&ctx.target, layer.rules.block_out_from), b) ==> b
                == blocked_out,
        0 <= i < popups@.len(),
        popup_fits(popups@[i]),
        call_ensures(
            MappedLayer::render_popups::<M, T>,
            (layer, ctx, location, popups),
            elements,
        ),
    ensures
        blocked_out ==> elements@.len() == 0,
        !blocked_out ==> {
            let (dx, dy) = popup_way(popups@[i]);
            &&& elements@.len() == popups@.len()
            &&& elements@[i] matches LayerSurfaceRenderElement::Wayland {
                position,
                scale,
                alpha,
                kind,
            }
            &&& scale == layer.scale
            &&& drawn_with(layer.rules.opacity, alpha)
            &&& kind is ScanoutCandidate
            &&& exists|bob: Point<Float64>, place: Point<Float64>, at: Point<Float64>|
                {
                    &&& #[trigger] bobbed(*layer, &ctx.math, ctx.now, bob)
                    &&& #[trigger] call_ensures(M::sum, (&ctx.math, location.x, bob.x), place.x)
                    &&& call_ensures(M::sum, (&ctx.math, location.y, bob.y), place.y)
                    &&& #[trigger] moved_by(&ctx.math, place.x, dx as i64, at.x)
                    &&& #[trigger] moved_by(&ctx.math, place.y, dy as i64, at.y)
                    &&& lands(&ctx.math, layer.scale, at.x, position.x)
                    &&& lands(&ctx.math, layer.scale, at.y, position.y)
                }
        },
{
    let frame = choose|frame: Frame|
        {
            &&& #[trigger] layer.frames(ctx, location, frame)
            &&& layer.renders_popups(ctx, popups@, frame, elements@)
        };
    if !blocked_out {
        let popup = popups@[i];
        let math = &ctx.math;
        assert(layer.shows_popup(math, frame.location, popup, elements@[i]));
        let position = elements@[i]->position;
        let (offset, at) = choose|offset: Point<Float64>, p: Point<Float64>|
            {
                &&& #[trigger] crate::math::point_value(
                    math,
                    crate::layer::popup_offset(popup),
                    offset,
                )
                &&& #[trigger] crate::math::moved(math, frame.location, offset, p)
                &&& crate::math::pixel(math, layer.scale, p.x, position.x)
                &&& crate::math::pixel(math, layer.scale, p.y, position.y)
            };
        let (dx, dy) = popup_way(popup);
        assert(bobbed(*layer, math, ctx.now, frame.bob));
        assert(moved_by(math, frame.location.x, dx as i64, at.x));
        assert(moved_by(math, frame.location.y, dy as i64, at.y));
        assert(lands(math, layer.scale, at.x, position.x));
        assert(lands(math, layer.scale, at.y, position.y));
    }
}

proof fn landing_is_nearest<M: RenderMath>(
    reading: Reading,
    math: &M,
    scale: Float64,
    v: Float64,
    p: i32,
)
    requires
        reading.fits(math),
        reading.coarse(scale),
        reading.coarse(v),
        i32::MIN <= reading.physical(reading.val(v), reading.val(scale)) <= i32::MAX,
        lands(math, scale, v, p),
    ensures
        p == reading.physical(reading.val(v), reading.val(scale)),
{
    let (x, y) = choose|x: Float64, y: Float64|
        {
            &&& #[trigger] call_ensures(M::product, (math, v, scale), x)
            &&& #[trigger] call_ensures(M::round, (math, x), y)
            &&& call_ensures(M::to_int, (math, y), p)
        };
    assert(crate::math::pixel(math, scale, v, p));
    pixel_is_nearest(reading, math, scale, v, p);
}

/// A place and a scale can be read, and so can the place times the scale.
pub open spec fn place_reads(reading: Reading, scale: Float64, v: int) -> bool {
    &&& reading.grid(v)
    &&& i32::MIN <= reading.physical(v, reading.val(scale)) <= i32::MAX
}

/// However far the surface may have bobbed, it is read as `dy`.
pub open spec fn bob_reads<M: RenderMath>(
    reading: Reading,
    layer: MappedLayer,
    math: &M,
    now: u64,
    dy: int,
) -> bool {
    &&& reading.grid(dy)
    &&& forall|bob: Point<Float64>| #[trigger]
        bobbed(layer, math, now, bob) ==> reading.reads(bob.y, dy)
}

/// A popup is drawn at the pixel nearest to the place of its surface plus its offset, times the
/// scale of the output. So it lies in the same pixel space as the surface.
pub proof fn popups_lie_at_the_nearest_pixel<M: RenderMath, T: RenderTarget>(
    reading: Reading,
    layer: &MappedLayer,
    ctx: &RenderCtx<M, T>,
    location: Point<Float64>,
    dy: int,
    popups: &Vec<Popup>,
    elements: Vec<LayerSurfaceRenderElement>,
    i: int,
)
    requires
        reading.fits(&ctx.math),
        reading.coarse(layer.scale),
        reading.coarse(location.x),
        reading.coarse(location.y),
        bob_reads(reading, *layer, &ctx.math, ctx.now, dy),
        reading.grid(reading.val(location.y) + dy),
        forall|b: bool| #[trigger]
            call_ensures(T::should_block_out, (&ctx.target, layer.rules.block_out_from), b) ==> !b,
        0 <= i < popups@.len(),
        popup_fits(popups@[i]),
        ({
            let (x, y) = popup_way(popups@[i]);
            &&& reading.grid(x * reading.unit())
            &&& reading.grid(y * reading.unit())
            &&& place_reads(reading, layer.scale, reading.val(location.x) + x * reading.unit())
            &&& place_reads(
                reading,
                layer.scale,
                reading.val(location.y) + dy + y * reading.unit(),
            )
        }),
        call_ensures(
            MappedLayer::render_popups::<M, T>,
            (layer, ctx, location, popups),
            elements,
        ),
    ensures
        ({
            let (x, y) = popup_way(popups@[i]);
            let s = reading.val(layer.scale);
            &&& elements@.len() == popups@.len()
            &&& elements@[i] matches LayerSurfaceRenderElement::Wayland { position, .. }
            &&& position.x == reading.physical(reading.val(location.x) + x * reading.unit(), s)
            &&& position.y == reading.physical(reading.val(location.y) + dy + y * reading.unit(), s)
        }),
{
    popups_follow_their_surface(layer, ctx, location, popups, elements, false, i);
    let math = &ctx.math;
    let (x, y) = popup_way(popups@[i]);
    let position = elements@[i]->position;
    let (bob, place, at) = choose|bob: Point<Float64>, place: Point<Float64>, at: Point<Float64>|
        {
            &&& #[trigger] bobbed(*layer, &ctx.math, ctx.now, bob)
            &&& #[trigger] call_ensures(M::sum, (&ctx.math, location.x, bob.x), place.x)
            &&& call_ensures(M::sum, (&ctx.math, location.y, bob.y), place.y)
            &&& #[trigger] moved_by(&ctx.math, place.x, x as i64, at.x)
            &&& #[trigger] moved_by(&ctx.math, place.y, y as i64, at.y)
            &&& lands(&ctx.math, layer.scale, at.x, position.x)
            &&& lands(&ctx.math, layer.scale, at.y, position.y)
        };
    assert(bob.x == (Float64 { bits: 0 }));
    grid_has_zero(reading, reading.val(location.x));
    assert(reading.reads(place.x, reading.val(location.x)));
    assert(reading.reads(place.y, reading.val(location.y) + dy));
    landing_is_nearest(reading, math, layer.scale, at.x, position.x);
    landing_is_nearest(reading, math, layer.scale, at.y, position.y);
}

proof fn grid_has_zero(reading: Reading, n: int)
    requires
        reading.step > 0,
        reading.grid(n),
    ensures
        reading.grid(0),
{
    vstd::arithmetic::div_mod::lemma_small_mod(0, reading.step as nat);
}

/// The surface itself, its shadow and its popups: the surface is drawn at the pixel nearest to its
/// place times the scale; its shadow begins where that pixel does; and so does the plain area that
/// is drawn instead of a surface that is blocked out. `left` and `top` are where that is.
pub proof fn surfaces_lie_at_the_nearest_pixel<M: RenderMath, T: RenderTarget>(
    reading: Reading,
    layer: &MappedLayer,
    ctx: &RenderCtx<M, T>,
    ns: Option<usize>,
    location: Point<Float64>,
    dy: int,
    left: int,
    top: int,
    xray_pos: XrayPos,
    state: SurfaceState,
    elements: Vec<LayerSurfaceRenderElement>,
    blocked_out: bool,
)
    requires
        reading.fits(&ctx.math),
        reading.coarse(layer.scale),
        reading.val(layer.scale) != 0,
        reading.coarse(location.x),
        reading.coarse(location.y),
        bob_reads(reading, *layer, &ctx.math, ctx.now, dy),
        place_reads(reading, layer.scale, reading.val(location.x)),
        place_reads(reading, layer.scale, reading.val(location.y) + dy),
        reading.grid(left),
        reading.grid(top),
        left * reading.val(layer.scale) == reading.physical(
            reading.val(location.x),
            reading.val(layer.scale),
        ) * reading.unit() * reading.unit(),
        top * reading.val(layer.scale) == reading.physical(
            reading.val(location.y) + dy,
            reading.val(layer.scale),
        ) * reading.unit() * reading.unit(),
        forall|b: bool| #[trigger]
            call_ensures(T::should_block_out, (&ctx.target, layer.rules.block_out_from), b) ==> b
                == blocked_out,
        call_ensures(
            MappedLayer::render_normal::<M, T>,
            (layer, ctx, ns, location, xray_pos, state),
            elements,
        ),
    ensures
        ({
            let s = reading.val(layer.scale);
            &&& elements@.len() >= 2
            &&& !blocked_out ==> {
                &&& elements@[0] matches LayerSurfaceRenderElement::Wayland { position, .. }
                &&& position.x == reading.physical(reading.val(location.x), s)
                &&& position.y == reading.physical(reading.val(location.y) + dy, s)
            }
            &&& blocked_out ==> {
                &&& elements@[0] matches LayerSurfaceRenderElement::SolidColor { location: at, .. }
                &&& reading.reads(at.x, left) && reading.reads(at.y, top)
            }
            &&& elements@[1] matches LayerSurfaceRenderElement::Shadow { location: at }
            &&& reading.reads(at.x, left) && reading.reads(at.y, top)
        }),
{
    let math = &ctx.math;
    let frame = choose|frame: Frame|
        {
            &&& #[trigger] layer.frames(ctx, location, frame)
            &&& layer.renders(ctx, ns, xray_pos@, state, frame, elements@)
        };
    assert(bobbed(*layer, math, ctx.now, frame.bob));
    assert(frame.bob.x == (Float64 { bits: 0 }));
    grid_has_zero(reading, reading.val(location.x));
    assert(reading.reads(frame.location.x, reading.val(location.x)));
    assert(reading.reads(frame.location.y, reading.val(location.y) + dy));
    let at = elements@[1]->Shadow_location;
    assert(crate::math::snapped_point(math, layer.scale, frame.location, at));
    assert(layer.shows(ctx, frame, at, elements@[0]));
    snapped_is_nearest(reading, math, layer.scale, frame.location.x, at.x, left);
    snapped_is_nearest(reading, math, layer.scale, frame.location.y, at.y, top);
    if !blocked_out {
        let position = elements@[0]->position;
        pixel_is_nearest(reading, math, layer.scale, frame.location.x, position.x);
        pixel_is_nearest(reading, math, layer.scale, frame.location.y, position.y);
    }
}

/// The surface is drawn by its contents, or by a plain area of its size if it is blocked out. Its
/// place and its shadow are those of its location after bobbing, and its opacity is that of its
/// rules.
pub proof fn surfaces_are_drawn_or_blocked_out<M: RenderMath, T: RenderTarget>(
    layer: &MappedLayer,
    ctx: &RenderCtx<M, T>,
    ns: Option<usize>,
    location: Point<Float64>,
    xray_pos: XrayPos,
    state: SurfaceState,
    elements: Vec<LayerSurfaceRenderElement>,
    blocked_out: bool,
)
    requires
        forall|b: bool| #[trigger]
            call_ensures(T::should_block_out, (&ctx.target, layer.rules.block_out_from), b) ==> b
                == blocked_out,
        call_ensures(
            MappedLayer::render_normal::<M, T>,
            (layer, ctx, ns, location, xray_pos, state),
            elements,
        ),
    ensures
        elements@.len() >= 2,
        elements@[1] is Shadow,
        blocked_out ==> {
            &&& elements@[0] matches LayerSurfaceRenderElement::SolidColor {
                buffer,
                location: at,
                alpha,
                kind,
            }
            &&& buffer == layer.block_out_buffer
            &&& elements@[1] == (LayerSurfaceRenderElement::Shadow { location: at })
            &&& drawn_with(layer.rules.opacity, alpha)
            &&& kind is Unspecified
        },
        !blocked_out ==> {
            &&& elements@[0] matches LayerSurfaceRenderElement::Wayland {
                position,
                scale,
                alpha,
                kind,
            }
            &&& scale == layer.scale
            &&& drawn_with(layer.rules.opacity, alpha)
            &&& kind is ScanoutCandidate
        },
        exists|bob: Point<Float64>, place: Point<Float64>|
            {
                &&& #[trigger] bobbed(*layer, &ctx.math, ctx.now, bob)
                &&& #[trigger] call_ensures(M::sum, (&ctx.math, location.x, bob.x), place.x)
                &&& #[trigger] call_ensures(M::sum, (&ctx.math, location.y, bob.y), place.y)
                &&& elements@[0] matches LayerSurfaceRenderElement::Wayland { position, .. } ==> {
                    &&& lands(&ctx.math, layer.scale, place.x, position.x)
                    &&& lands(&ctx.math, layer.scale, place.y, position.y)
                }
                &&& elements@[1] matches LayerSurfaceRenderElement::Shadow { location: at } ==> {
                    &&& rests(&ctx.math, layer.scale, place.x, at.x)
                    &&& rests(&ctx.math, layer.scale, place.y, at.y)
                }
            },
        forall|i: int|
            2 <= i < elements@.len() ==> #[trigger] elements@[i] is BackgroundEffect,
{
    let math = &ctx.math;
    let frame = choose|frame: Frame|
        {
            &&& #[trigger] layer.frames(ctx, location, frame)
            &&& layer.renders(ctx, ns, xray_pos@, state, frame, elements@)
        };
    assert(bobbed(*layer, math, ctx.now, frame.bob));
    let at = elements@[1]->Shadow_location;
    assert(layer.shows(ctx, frame, at, elements@[0]));
    if !blocked_out {
        let position = elements@[0]->position;
        assert(lands(math, layer.scale, frame.location.x, position.x));
        assert(lands(math, layer.scale, frame.location.y, position.y));
    }
    assert(crate::math::snapped_point(math, layer.scale, frame.location, at));
    assert(rests(math, layer.scale, frame.location.x, at.x));
    assert(rests(math, layer.scale, frame.location.y, at.y));
    let rest = elements@.skip(2);
    assert(layer.shows_effect(ctx, ns, xray_pos@, state, frame, at, rest));
    assert forall|i: int| 2 <= i < elements@.len() implies #[trigger] elements@[i]
        is BackgroundEffect by {
        let (_, _, effects) = effect_parts(*layer, ctx, ns, xray_pos@, state, frame, at, rest);
        assert(elements@[i] == rest[i - 2]);
    }
}

/// What the elements of an effect come from.
proof fn effect_parts<M: RenderMath, T: RenderTarget>(
    layer: MappedLayer,
    ctx: &RenderCtx<M, T>,
    ns: Option<usize>,
    xray_pos: Seq<Point<Float64>>,
    state: SurfaceState,
    frame: Frame,
    snapped: Point<Float64>,
    rest: Seq<LayerSurfaceRenderElement>,
) -> (parts: (RenderParams, Point<Float64>, Seq<BackgroundEffectElement>))
    requires
        layer.shows_effect(ctx, ns, xray_pos, state, frame, snapped, rest),
        rest.len() > 0,
    ensures
        layer.shapes(
            &ctx.math,
            layer.area(snapped),
            state,
            crate::layer::shape_for(state.blur_region, frame.blocked_out),
            parts.0,
        ),
        crate::math::relative(&ctx.math, parts.0.geometry.loc, snapped, parts.1),
        layer.background_effect.draws(
            &ctx.math,
            ns,
            parts.0,
            xray_pos.push(frame.bob).push(parts.1),
            ctx.has_xray,
            parts.2,
        ),
        rest.len() == parts.2.len(),
        forall|i: int|
            0 <= i < rest.len() ==> #[trigger] rest[i]
                == LayerSurfaceRenderElement::BackgroundEffect(parts.2[i]),
{
    let shape = crate::layer::shape_for(state.blur_region, frame.blocked_out);
    let parts = choose|
        params: RenderParams,
        way: Point<Float64>,
        effects: Seq<BackgroundEffectElement>,
    |
        {
            &&& #[trigger] layer.shapes(&ctx.math, layer.area(snapped), state, shape, params)
            &&& #[trigger] crate::math::relative(&ctx.math, params.geometry.loc, snapped, way)
            &&& layer.background_effect.draws(
                &ctx.math,
                ns,
                params,
                xray_pos.push(frame.bob).push(way),
                ctx.has_xray,
                effects,
            )
            &&& rest == #[trigger] crate::layer::effect_elements(effects)
        };
    parts
}

/// Moving a place by nothing leaves it at the same pixel.
pub open spec fn nothing_moves_nothing<M: RenderMath>(math: &M, scale: Float64) -> bool {
    forall|v: Float64, w: Float64, p: i32, q: i32|
        #![trigger moved_by(math, v, 0, w), lands(math, scale, v, p), lands(math, scale, w, q)]
        moved_by(math, v, 0, w) && lands(math, scale, v, p) && lands(math, scale, w, q) ==> p == q
}

/// A popup that is not moved from its surface is drawn at the very pixel of the surface.
pub proof fn popups_share_the_pixels_of_their_surface<M: RenderMath, T: RenderTarget>(
    layer: &MappedLayer,
    ctx: &RenderCtx<M, T>,
    ns: Option<usize>,
    location: Point<Float64>,
    xray_pos: XrayPos,
    state: SurfaceState,
    elements: Vec<LayerSurfaceRenderElement>,
    popups: &Vec<Popup>,
    popup_elements: Vec<LayerSurfaceRenderElement>,
    i: int,
)
    requires
        all_repeatable(&ctx.math),
        nothing_moves_nothing(&ctx.math, layer.scale),
        forall|b: bool| #[trigger]
            call_ensures(T::should_block_out, (&ctx.target, layer.rules.block_out_from), b) ==> !b,
        0 <= i < popups@.len(),
        popups@[i].offset == popups@[i].geometry_loc,
        call_ensures(
            MappedLayer::render_normal::<M, T>,
            (layer, ctx, ns, location, xray_pos, state),
            elements,
        ),
        call_ensures(
            MappedLayer::render_popups::<M, T>,
            (layer, ctx, location, popups),
            popup_elements,
        ),
    ensures
        popup_elements@.len() == popups@.len(),
        popup_elements@[i] == elements@[0],
{
    surfaces_are_drawn_or_blocked_out(layer, ctx, ns, location, xray_pos, state, elements, false);
    popups_follow_their_surface(layer, ctx, location, popups, popup_elements, false, i);
    let p = elements@[0]->position;
    let q = popup_elements@[i]->position;
    let (bob, place) = choose|bob: Point<Float64>, place: Point<Float64>|
        {
            &&& #[trigger] bobbed(*layer, &ctx.math, ctx.now, bob)
            &&& #[trigger] call_ensures(M::sum, (&ctx.math, location.x, bob.x), place.x)
            &&& #[trigger] call_ensures(M::sum, (&ctx.math, location.y, bob.y), place.y)
            &&& elements@[0] matches LayerSurfaceRenderElement::Wayland { position, .. } ==> {
                &&& lands(&ctx.math, layer.scale, place.x, position.x)
                &&& lands(&ctx.math, layer.scale, place.y, position.y)
            }
            &&& elements@[1] matches LayerSurfaceRenderElement::Shadow { location: at } ==> {
                &&& rests(&ctx.math, layer.scale, place.x, at.x)
                &&& rests(&ctx.math, layer.scale, place.y, at.y)
            }
        };
    let (other, there, at) = choose|
        bob: Point<Float64>,
        place: Point<Float64>,
        at: Point<Float64>,
    |
        {
            &&& #[trigger] bobbed(*layer, &ctx.math, ctx.now, bob)
            &&& #[trigger] call_ensures(M::sum, (&ctx.math, location.x, bob.x), place.x)
            &&& call_ensures(M::sum, (&ctx.math, location.y, bob.y), place.y)
            &&& #[trigger] moved_by(&ctx.math, place.x, 0, at.x)
            &&& #[trigger] moved_by(&ctx.math, place.y, 0, at.y)
            &&& lands(&ctx.math, layer.scale, at.x, q.x)
            &&& lands(&ctx.math, layer.scale, at.y, q.y)
        };
    assert(bob == other);
    assert(place == there);
    assert(p.x == q.x && p.y == q.y);
}

/// An effect shows: there is something to be seen of it.
pub open spec fn effect_shows(layer: MappedLayer) -> bool {
    let options = layer.background_effect.options;
    options.blur || options.xray || noise_shows(options.noise) || saturation_shows(
        options.saturation,
    )
}

/// A surface asks for a region: it has one, with rects in it.
pub open spec fn asks_for_region(state: SurfaceState) -> bool {
    state.blur_region matches Some(rects) && rects@.len() > 0
}

/// An effect is drawn below a surface: something of it shows, the surface did not set a region
/// without rects, and xray has a backdrop to see through to.
pub open spec fn effect_is_due(layer: MappedLayer, state: SurfaceState, has_xray: bool) -> bool {
    &&& effect_shows(layer)
    &&& state.blur_region is None || asks_for_region(state)
    &&& layer.background_effect.options.xray ==> has_xray
}

/// The effect of a surface is drawn if it is due, last of all, and right after its damage if it is
/// an xray effect. It has the right settings.
///
/// It takes the shape of the surface: begins where its shadow does, has its size, and is clipped
/// to that with rounded corners. Only if the surface asks for a region, and is not blocked out, it
/// is that very region instead, and is not clipped.
pub proof fn effects_take_the_right_shape<M: RenderMath, T: RenderTarget>(
    layer: &MappedLayer,
    ctx: &RenderCtx<M, T>,
    ns: Option<usize>,
    location: Point<Float64>,
    xray_pos: XrayPos,
    state: SurfaceState,
    elements: Vec<LayerSurfaceRenderElement>,
    blocked_out: bool,
)
    requires
        forall|b: bool| #[trigger]
            call_ensures(T::should_block_out, (&ctx.target, layer.rules.block_out_from), b) ==> b
                == blocked_out,
        call_ensures(
            MappedLayer::render_normal::<M, T>,
            (layer, ctx, ns, location, xray_pos, state),
            elements,
        ),
    ensures
        !effect_is_due(*layer, state, ctx.has_xray) ==> elements@.len() == 2,
        effect_is_due(*layer, state, ctx.has_xray) ==> {
            let effect = layer.background_effect;
            &&& elements@.len() == if effect.options.xray {
                4int
            } else {
                3int
            }
            &&& elements@[1] matches LayerSurfaceRenderElement::Shadow { location: at }
            &&& elements@.last() matches LayerSurfaceRenderElement::BackgroundEffect(last)
            &&& match last {
                BackgroundEffectElement::ExtraDamage(_) => false,
                BackgroundEffectElement::Xray { effect: e, xray_pos: pos } => {
                    &&& effect.options.xray
                    &&& elements@[2] matches LayerSurfaceRenderElement::BackgroundEffect(
                        BackgroundEffectElement::ExtraDamage(damage),
                    )
                    &&& damage.damage == effect.damage
                    &&& damage.geometry == e.params.geometry
                    &&& takes_shape(*layer, &ctx.math, state, blocked_out, at, e)
                    &&& pos.offsets@.len() == xray_pos.offsets@.len() + 2
                    &&& pos.offsets@.take(xray_pos.offsets@.len() as int) == xray_pos.offsets@
                    &&& bobbed(
                        *layer,
                        &ctx.math,
                        ctx.now,
                        pos.offsets@[xray_pos.offsets@.len() as int],
                    )
                    &&& call_ensures(
                        M::difference,
                        (&ctx.math, e.params.geometry.loc.x, at.x),
                        pos.offsets@.last().x,
                    )
                    &&& call_ensures(
                        M::difference,
                        (&ctx.math, e.params.geometry.loc.y, at.y),
                        pos.offsets@.last().y,
                    )
                },
                BackgroundEffectElement::NonXray { effect: e, ns: n } => {
                    &&& !effect.options.xray
                    &&& n == ns
                    &&& takes_shape(*layer, &ctx.math, state, blocked_out, at, e)
                },
            }
        },
{
    let math = &ctx.math;
    let frame = choose|frame: Frame|
        {
            &&& #[trigger] layer.frames(ctx, location, frame)
            &&& layer.renders(ctx, ns, xray_pos@, state, frame, elements@)
        };
    let at = elements@[1]->Shadow_location;
    let rest = elements@.skip(2);
    assert(layer.shows_effect(ctx, ns, xray_pos@, state, frame, at, rest));
    assert(bobbed(*layer, math, ctx.now, frame.bob));
    if effect_is_due(*layer, state, ctx.has_xray) {
        assert(layer.background_effect.drawable(ctx.has_xray));
        due_effects_are_there(*layer, ctx, ns, xray_pos@, state, frame, at, rest);
        let (params, way, effects) = effect_parts(
            *layer,
            ctx,
            ns,
            xray_pos@,
            state,
            frame,
            at,
            rest,
        );
        assert(rest[0] == elements@[2]);
        assert(rest.last() == elements@.last());
        let e = effects.last().effect()->0;
        crate::laws::effects::settings_are_right(math, layer.background_effect, params, e);
        if asks_for_region(state) && !blocked_out {
            regions_rest_on_contents(*layer, math, at, state, params);
        }
        if let BackgroundEffectElement::Xray { xray_pos: pos, .. } = effects.last() {
            assert(pos.offsets@ == xray_pos@.push(frame.bob).push(way));
            assert(pos.offsets@.take(xray_pos@.len() as int) =~= xray_pos@);
        }
    }
}

proof fn due_effects_are_there<M: RenderMath, T: RenderTarget>(
    layer: MappedLayer,
    ctx: &RenderCtx<M, T>,
    ns: Option<usize>,
    xray_pos: Seq<Point<Float64>>,
    state: SurfaceState,
    frame: Frame,
    snapped: Point<Float64>,
    rest: Seq<LayerSurfaceRenderElement>,
)
    requires
        layer.shows_effect(ctx, ns, xray_pos, state, frame, snapped, rest),
        layer.background_effect.drawable(ctx.has_xray),
        !(crate::layer::shape_for(state.blur_region, frame.blocked_out) is Hidden),
    ensures
        rest.len() > 0,
{
}

/// The effect that is drawn has the right settings and the right shape.
pub open spec fn takes_shape<M: RenderMath>(
    layer: MappedLayer,
    math: &M,
    state: SurfaceState,
    blocked_out: bool,
    at: Point<Float64>,
    e: EffectDraw,
) -> bool {
    &&& drawn_right(math, layer.background_effect, e.params, e)
    &&& e.params.scale == layer.scale
    &&& if asks_for_region(state) && !blocked_out {
        &&& e.params.clip is None
        &&& e.params.subregion matches Some(region)
        &&& region.rects == state.blur_region->0
        &&& region.scale.x.bits == 0x3ff0_0000_0000_0000
        &&& region.scale.y.bits == 0x3ff0_0000_0000_0000
        &&& on_contents(
            math,
            layer.scale,
            contents(state).loc.x,
            contents(state).size.w,
            at.x,
            e.params.geometry.loc.x,
            e.params.geometry.size.w,
            region.offset.x,
        )
        &&& on_contents(
            math,
            layer.scale,
            contents(state).loc.y,
            contents(state).size.h,
            at.y,
            e.params.geometry.loc.y,
            e.params.geometry.size.h,
            region.offset.y,
        )
    } else {
        &&& e.params.geometry.loc == at
        &&& e.params.geometry.size == layer.block_out_buffer.size
        &&& e.params.subregion is None
        &&& e.params.clip matches Some((clip, _)) && clip == e.params.geometry
    }
}

/// Where the contents of a surface begin and how large they are, seen from the surface; nowhere
/// without contents.
pub open spec fn contents(state: SurfaceState) -> Rectangle<i32> {
    match state.view {
        Some(v) => Rectangle { loc: v.offset, size: v.dst },
        None => Rectangle { loc: Point { x: 0, y: 0 }, size: Size { w: 0, h: 0 } },
    }
}

/// Along one axis, a region lies on the contents of a surface that begins at `at`: the geometry
/// rests where they do, and the offset is what rounding has moved it by.
pub open spec fn on_contents<M: RenderMath>(
    math: &M,
    scale: Float64,
    begin: i32,
    length: i32,
    at: Float64,
    geometry: Float64,
    extent: Float64,
    offset: Float64,
) -> bool {
    exists|b: Float64, l: Float64, place: Float64|
        {
            &&& #[trigger] call_ensures(M::from_int, (math, begin as i64), b)
            &&& #[trigger] call_ensures(M::from_int, (math, length as i64), l)
            &&& #[trigger] call_ensures(M::sum, (math, b, at), place)
            &&& rests(math, scale, place, geometry)
            &&& rests(math, scale, l, extent)
            &&& call_ensures(M::difference, (math, place, geometry), offset)
        }
}

proof fn regions_rest_on_contents<M: RenderMath>(
    layer: MappedLayer,
    math: &M,
    at: Point<Float64>,
    state: SurfaceState,
    params: RenderParams,
)
    requires
        layer.region_params(math, layer.area(at), state, params),
    ensures
        params.subregion matches Some(region) && {
            let c = contents(state);
            let g = params.geometry;
            let s = layer.scale;
            &&& on_contents(math, s, c.loc.x, c.size.w, at.x, g.loc.x, g.size.w, region.offset.x)
            &&& on_contents(math, s, c.loc.y, c.size.h, at.y, g.loc.y, g.size.h, region.offset.y)
        },
{
    let geo = crate::layer::surface_geo(state.view);
    let (loc, size, placed, offset) = choose|
        loc: Point<Float64>,
        size: Size<Float64>,
        placed: Point<Float64>,
        offset: Point<Float64>,
    |
        {
            &&& #[trigger] crate::math::point_value(math, geo.loc, loc)
            &&& #[trigger] crate::math::size_value(math, geo.size, size)
            &&& #[trigger] crate::math::moved(math, loc, at, placed)
            &&& crate::math::snapped_rectangle(
                math,
                layer.scale,
                Rectangle { loc: placed, size },
                params.geometry,
            )
            &&& #[trigger] crate::math::relative(math, placed, params.geometry.loc, offset)
            &&& params.subregion matches Some(region) && region.offset == offset
        };
    let g = params.geometry;
    assert(rests(math, layer.scale, placed.x, g.loc.x));
    assert(rests(math, layer.scale, placed.y, g.loc.y));
    assert(rests(math, layer.scale, size.w, g.size.w));
    assert(rests(math, layer.scale, size.h, g.size.h));
    assert(geo == contents(state));
}

/// Along one axis, the contents of a surface that begins at `at` can be read: where they begin,
/// how long they are, and where both go when they are rounded to pixels.
pub open spec fn contents_read(
    reading: Reading,
    scale: Float64,
    at: Float64,
    offset: i32,
    length: i32,
    begin: int,
    extent: int,
) -> bool {
    let unit = reading.unit();
    let s = reading.val(scale);
    let place = offset * unit + reading.val(at);
    &&& reading.coarse(at)
    &&& reading.grid(offset * unit)
    &&& reading.grid(length * unit)
    &&& reading.grid(place)
    &&& reading.grid(begin)
    &&& reading.grid(extent)
    &&& reading.grid(place - begin)
    &&& begin * s == reading.physical(place, s) * unit * unit
    &&& extent * s == reading.physical(length * unit, s) * unit * unit
}

/// A region for which a surface asks lies on the surface: a corner of the region, counted from
/// where the geometry of the effect begins, is where the surface puts it, counted from where its
/// contents begin. The geometry is that of the contents, rounded to pixels. `begin` and `extent`
/// are where it begins and how large it is.
pub proof fn requested_regions_lie_on_the_surface<M: RenderMath, T: RenderTarget>(
    reading: Reading,
    layer: &MappedLayer,
    ctx: &RenderCtx<M, T>,
    ns: Option<usize>,
    location: Point<Float64>,
    xray_pos: XrayPos,
    state: SurfaceState,
    elements: Vec<LayerSurfaceRenderElement>,
    begin: (int, int),
    extent: (int, int),
    at: Point<Float64>,
    e: EffectDraw,
)
    requires
        reading.fits(&ctx.math),
        reading.coarse(layer.scale),
        reading.val(layer.scale) != 0,
        forall|b: bool| #[trigger]
            call_ensures(T::should_block_out, (&ctx.target, layer.rules.block_out_from), b) ==> !b,
        asks_for_region(state),
        effect_is_due(*layer, state, ctx.has_xray),
        call_ensures(
            MappedLayer::render_normal::<M, T>,
            (layer, ctx, ns, location, xray_pos, state),
            elements,
        ),
        elements@[1] == (LayerSurfaceRenderElement::Shadow { location: at }),
        elements@.last() matches LayerSurfaceRenderElement::BackgroundEffect(last) && (
        last matches BackgroundEffectElement::Xray { effect, .. } ==> effect == e) && (
        last matches BackgroundEffectElement::NonXray { effect, .. } ==> effect == e),
        contents_read(
            reading,
            layer.scale,
            at.x,
            contents(state).loc.x,
            contents(state).size.w,
            begin.0,
            extent.0,
        ),
        contents_read(
            reading,
            layer.scale,
            at.y,
            contents(state).loc.y,
            contents(state).size.h,
            begin.1,
            extent.1,
        ),
    ensures
        reading.reads(e.params.geometry.loc.x, begin.0),
        reading.reads(e.params.geometry.loc.y, begin.1),
        reading.reads(e.params.geometry.size.w, extent.0),
        reading.reads(e.params.geometry.size.h, extent.1),
        e.params.subregion matches Some(region) && {
            &&& begin.0 + reading.val(region.offset.x) == reading.val(at.x) + contents(state).loc.x
                * reading.unit()
            &&& begin.1 + reading.val(region.offset.y) == reading.val(at.y) + contents(state).loc.y
                * reading.unit()
            &&& reading.is_exact(region.offset.x)
            &&& reading.is_exact(region.offset.y)
        },
{
    let math = &ctx.math;
    effects_take_the_right_shape(layer, ctx, ns, location, xray_pos, state, elements, false);
    assert(takes_shape(*layer, math, state, false, at, e));
    let c = contents(state);
    let g = e.params.geometry;
    let o = e.params.subregion->0.offset;
    contents_are_read(
        reading,
        math,
        layer.scale,
        c.loc.x,
        c.size.w,
        at.x,
        g.loc.x,
        g.size.w,
        o.x,
        begin.0,
        extent.0,
    );
    contents_are_read(
        reading,
        math,
        layer.scale,
        c.loc.y,
        c.size.h,
        at.y,
        g.loc.y,
        g.size.h,
        o.y,
        begin.1,
        extent.1,
    );
}

proof fn rest_is_nearest<M: RenderMath>(
    reading: Reading,
    math: &M,
    scale: Float64,
    v: Float64,
    r: Float64,
    q: int,
)
    requires
        reading.fits(math),
        reading.coarse(scale),
        reading.coarse(v),
        reading.val(scale) != 0,
        reading.grid(q),
        q * reading.val(scale) == reading.physical(reading.val(v), reading.val(scale))
            * reading.unit() * reading.unit(),
        rests(math, scale, v, r),
    ensures
        reading.reads(r, q),
{
    let (x, y) = choose|x: Float64, y: Float64|
        {
            &&& #[trigger] call_ensures(M::product, (math, v, scale), x)
            &&& #[trigger] call_ensures(M::round, (math, x), y)
            &&& call_ensures(M::quotient, (math, y, scale), r)
        };
    assert(crate::math::snapped(math, scale, v, r));
    snapped_is_nearest(reading, math, scale, v, r, q);
}

proof fn contents_are_read<M: RenderMath>(
    reading: Reading,
    math: &M,
    scale: Float64,
    offset: i32,
    length: i32,
    at: Float64,
    geometry: Float64,
    size: Float64,
    way: Float64,
    begin: int,
    extent: int,
)
    requires
        reading.fits(math),
        reading.coarse(scale),
        reading.val(scale) != 0,
        contents_read(reading, scale, at, offset, length, begin, extent),
        on_contents(math, scale, offset, length, at, geometry, size, way),
    ensures
        reading.reads(geometry, begin),
        reading.reads(size, extent),
        reading.reads(way, offset * reading.unit() + reading.val(at) - begin),
{
    let unit = reading.unit();
    let (b, l, place) = choose|b: Float64, l: Float64, place: Float64|
        {
            &&& #[trigger] call_ensures(M::from_int, (math, offset as i64), b)
            &&& #[trigger] call_ensures(M::from_int, (math, length as i64), l)
            &&& #[trigger] call_ensures(M::sum, (math, b, at), place)
            &&& rests(math, scale, place, geometry)
            &&& rests(math, scale, l, size)
            &&& call_ensures(M::difference, (math, place, geometry), way)
        };
    assert(reading.reads(b, offset * unit));
    assert(reading.reads(l, length * unit));
    assert(reading.reads(place, offset * unit + reading.val(at)));
    rest_is_nearest(reading, math, scale, place, geometry, begin);
    rest_is_nearest(reading, math, scale, l, size, extent);
}

/// The parameters of an effect put it in the right place: nowhere if the surface set a region
/// without rects, on the region of a surface that asks for one and is not blocked out, and on the
/// area of the surface else.
pub proof fn parameters_put_effects_in_place<M: RenderMath>(
    layer: &MappedLayer,
    math: &M,
    area: Rectangle<Float64>,
    state: SurfaceState,
    blocked_out: bool,
    params: Option<RenderParams>,
)
    requires
        area.size == layer.block_out_buffer.size,
        call_ensures(
            MappedLayer::effect_params::<M>,
            (layer, math, area, state, blocked_out),
            params,
        ),
    ensures
        params is None <==> state.blur_region is Some && !asks_for_region(state),
        params matches Some(p) ==> {
            &&& p.scale == layer.scale
            &&& if asks_for_region(state) && !blocked_out {
                let c = contents(state);
                let g = p.geometry;
                let s = layer.scale;
                &&& p.clip is None
                &&& p.subregion matches Some(region)
                &&& region.rects == state.blur_region->0
                &&& region.scale.x.bits == 0x3ff0_0000_0000_0000
                &&& region.scale.y.bits == 0x3ff0_0000_0000_0000
                &&& on_contents(
                    math,
                    s,
                    c.loc.x,
                    c.size.w,
                    area.loc.x,
                    g.loc.x,
                    g.size.w,
                    region.offset.x,
                )
                &&& on_contents(
                    math,
                    s,
                    c.loc.y,
                    c.size.h,
                    area.loc.y,
                    g.loc.y,
                    g.size.h,
                    region.offset.y,
                )
            } else {
                &&& p.geometry == area
                &&& p.subregion is None
                &&& p.clip matches Some((clip, _)) && clip == area
            }
        },
{
    if let Some(p) = params {
        if asks_for_region(state) && !blocked_out {
            assert(layer.area(area.loc) == area);
            regions_rest_on_contents(*layer, math, area.loc, state, p);
        }
    }
}

/// A surface asks for blur exactly if its blur region has rects. Without a blur region its effect
/// takes the area of the surface, as it does while the surface is blocked out; a blur region
/// without rects hides it.
pub proof fn shapes_follow_the_blur_region(
    blur_region: &BlurRegion,
    blocked_out: bool,
    asked: bool,
    shape: EffectShape,
)
    requires
        call_ensures(has_blur_region, (blur_region,), asked),
        call_ensures(effect_shape, (blur_region, blocked_out), shape),
    ensures
        blur_region is None ==> !asked && shape is Area,
        blur_region matches Some(rects) ==> {
            &&& asked <==> rects@.len() > 0
            &&& rects@.len() == 0 ==> shape is Hidden
            &&& rects@.len() > 0 && blocked_out ==> shape is Area
            &&& rects@.len() > 0 && !blocked_out ==> shape is Region
        },
{
}

/// The contents of a surface lie where its view says.
pub proof fn contents_lie_where_shown(view: Option<SurfaceView>, geo: Rectangle<i32>)
    requires
        call_ensures(main_surface_geo, (view,), geo),
    ensures
        view matches Some(v) ==> geo.loc == v.offset && geo.size == v.dst,
        view is None ==> geo.loc.x == 0 && geo.loc.y == 0 && geo.size.w == 0 && geo.size.h == 0,
{
}

/// A new layer is drawn as an opaque black area without extent while it is blocked out, has no
/// effect, and has a shadow only if a rule turns it on.
pub proof fn new_layers_are_plain<C: MergeShadow>(
    surface: SurfaceId,
    rules: ResolvedLayerRules,
    view_size: Size<Float64>,
    scale: Float64,
    merge: &C,
    config: &Config,
    layer: MappedLayer,
)
    requires
        call_ensures(
            MappedLayer::new::<C>,
            (surface, rules, view_size, scale, merge, config),
            layer,
        ),
    ensures
        layer.surface == surface,
        layer.rules == rules,
        layer.view_size == view_size,
        layer.scale == scale,
        call_ensures(
            C::merge_with,
            (merge, (ShadowConfig { on: false, look: config.shadow.look }), rules.shadow),
            layer.shadow,
        ),
        layer.block_out_buffer.size.w.bits == 0,
        layer.block_out_buffer.size.h.bits == 0,
        layer.block_out_buffer.color.red.bits == 0,
        layer.block_out_buffer.color.green.bits == 0,
        layer.block_out_buffer.color.blue.bits == 0,
        layer.block_out_buffer.color.alpha.bits == 0x3f80_0000,
        layer.background_effect.blur_config == config.blur,
        !effect_shows(layer),
        layer.background_effect.damage.generation == 0,
{
}

/// New settings reach the shadow, which stays off unless a rule turns it on, and the effect.
/// Nothing else changes.
pub proof fn new_settings_reach_shadow_and_effect<C: MergeShadow>(
    layer: &mut MappedLayer,
    merge: &C,
    config: &Config,
)
    requires
        call_ensures(MappedLayer::update_config::<C>, (layer, merge, config), ()),
    ensures
        call_ensures(
            C::merge_with,
            (merge, (ShadowConfig { on: false, look: config.shadow.look }), old(layer).rules.shadow),
            final(layer).shadow,
        ),
        ({
            let before = old(layer).background_effect;
            let after = final(layer).background_effect;
            &&& after.options == before.options
            &&& after.corner_radius == before.corner_radius
            &&& if crate::laws::effects::blur_settings_agree(before.blur_config, config.blur) {
                after == before
            } else {
                after.blur_config == config.blur && damaged_anew(before, after)
            }
        }),
        final(layer).surface == old(layer).surface,
        final(layer).rules == old(layer).rules,
        final(layer).block_out_buffer == old(layer).block_out_buffer,
        final(layer).view_size == old(layer).view_size,
        final(layer).scale == old(layer).scale,
{
}

/// A new view size and a new scale are taken over, and nothing else changes.
pub proof fn new_sizes_are_taken_over(
    layer: &mut MappedLayer,
    view_size: Size<Float64>,
    scale: Float64,
)
    requires
        call_ensures(MappedLayer::update_sizes, (layer, view_size, scale), ()),
    ensures
        final(layer).view_size == view_size,
        final(layer).scale == scale,
        final(layer).surface == old(layer).surface,
        final(layer).rules == old(layer).rules,
        final(layer).block_out_buffer == old(layer).block_out_buffer,
        final(layer).shadow == old(layer).shadow,
        final(layer).background_effect == old(layer).background_effect,
{
}

/// A new size reaches the shadow and the plain area alike, and the effect follows the rules and
/// what the surface asks for. Nothing else changes.
pub proof fn new_elements_follow_the_rules<M: RenderMath>(
    layer: &mut MappedLayer,
    math: &M,
    size: Size<Float64>,
    blur_region: &BlurRegion,
    update: ShadowUpdate,
)
    requires
        call_ensures(
            MappedLayer::update_render_elements::<M>,
            (layer, math, size, blur_region),
            update,
        ),
    ensures
        rests(math, old(layer).scale, size.w, update.size.w),
        rests(math, old(layer).scale, size.h, update.size.h),
        final(layer).block_out_buffer.size == update.size,
        final(layer).block_out_buffer.color == old(layer).block_out_buffer.color,
        update.is_active,
        rounded_by(old(layer).rules, update.radius),
        update.scale == old(layer).scale,
        update.alpha.bits == 0x3f80_0000,
        ({
            let before = old(layer).background_effect;
            let after = final(layer).background_effect;
            let requested = *blur_region matches Some(rects) && rects@.len() > 0;
            &&& follows_rule(after.options, old(layer).rules.background_effect, requested)
            &&& after.corner_radius == update.radius || corners_agree(
                after.corner_radius,
                update.radius,
            )
            &&& after.blur_config == before.blur_config
            &&& after == before || damaged_anew(before, after)
        }),
        final(layer).surface == old(layer).surface,
        final(layer).rules == old(layer).rules,
        final(layer).shadow == old(layer).shadow,
        final(layer).view_size == old(layer).view_size,
        final(layer).scale == old(layer).scale,
{
}

/// A new size is rounded to whole pixels. `extent` is what it comes to.
pub proof fn sizes_are_rounded_to_pixels<M: RenderMath>(
    reading: Reading,
    layer: &mut MappedLayer,
    math: &M,
    size: Size<Float64>,
    blur_region: &BlurRegion,
    update: ShadowUpdate,
    extent: (int, int),
)
    requires
        reading.fits(math),
        reading.coarse(old(layer).scale),
        reading.val(old(layer).scale) != 0,
        reading.coarse(size.w),
        reading.coarse(size.h),
        reading.grid(extent.0),
        reading.grid(extent.1),
        extent.0 * reading.val(old(layer).scale) == reading.physical(
            reading.val(size.w),
            reading.val(old(layer).scale),
        ) * reading.unit() * reading.unit(),
        extent.1 * reading.val(old(layer).scale) == reading.physical(
            reading.val(size.h),
            reading.val(old(layer).scale),
        ) * reading.unit() * reading.unit(),
        call_ensures(
            MappedLayer::update_render_elements::<M>,
            (layer, math, size, blur_region),
            update,
        ),
    ensures
        reading.reads(update.size.w, extent.0),
        reading.reads(update.size.h, extent.1),
{
    snapped_is_nearest(reading, math, old(layer).scale, size.w, update.size.w, extent.0);
    snapped_is_nearest(reading, math, old(layer).scale, size.h, update.size.h, extent.1);
}

} // verus!
