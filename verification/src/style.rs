//! Settings that decide how a surface is drawn.

use vstd::prelude::*;

use crate::float::{Float32, Float64};

verus! {

/// The radius of each corner of a surface.
#[derive(Debug, Clone, Copy)]
pub struct CornerRadius {
    pub top_left: Float32,
    pub top_right: Float32,
    pub bottom_right: Float32,
    pub bottom_left: Float32,
}

impl CornerRadius {
    pub open spec fn same(self, other: Self) -> bool {
        &&& self.top_left.same(other.top_left)
        &&& self.top_right.same(other.top_right)
        &&& self.bottom_right.same(other.bottom_right)
        &&& self.bottom_left.same(other.bottom_left)
    }

    /// No corner is rounded.
    pub open spec fn square() -> Self {
        CornerRadius {
            top_left: Float32 { bits: 0 },
            top_right: Float32 { bits: 0 },
            bottom_right: Float32 { bits: 0 },
            bottom_left: Float32 { bits: 0 },
        }
    }

    pub open spec fn has_nan(self) -> bool {
        self.top_left.nan() || self.top_right.nan() || self.bottom_right.nan()
            || self.bottom_left.nan()
    }
}

impl Default for CornerRadius {
    fn default() -> (r: Self)
        ensures
            r == Self::square(),
    {
        CornerRadius {
            top_left: Float32::zero(),
            top_right: Float32::zero(),
            bottom_right: Float32::zero(),
            bottom_left: Float32::zero(),
        }
    }
}

impl PartialEq for CornerRadius {
    fn eq(&self, other: &Self) -> (r: bool) {
        self.top_left == other.top_left && self.top_right == other.top_right && self.bottom_right
            == other.bottom_right && self.bottom_left == other.bottom_left
    }
}

impl vstd::std_specs::cmp::PartialEqSpecImpl for CornerRadius {
    open spec fn obeys_eq_spec() -> bool {
        true
    }

    open spec fn eq_spec(&self, other: &Self) -> bool {
        self.same(*other)
    }
}

/// The settings of a blur kernel, by a handle under which they are found again. Equal settings
/// have equal handles.
#[derive(Debug, Clone, Copy, PartialEq, Eq, Structural)]
pub struct BlurKernel {
    pub handle: u64,
}

/// Settings that apply to all background blur.
#[derive(Debug, Clone, Copy)]
pub struct Blur {
    /// No background is blurred.
    pub off: bool,
    /// Noise drawn over a blurred background unless a rule sets its own.
    pub noise: Float64,
    /// Saturation of a blurred background unless a rule sets its own.
    pub saturation: Float64,
    /// How strongly the background is blurred.
    pub kernel: BlurKernel,
}

impl Blur {
    pub open spec fn same(self, other: Self) -> bool {
        &&& self.off == other.off
        &&& self.noise.same(other.noise)
        &&& self.saturation.same(other.saturation)
        &&& self.kernel == other.kernel
    }

    pub open spec fn has_nan(self) -> bool {
        self.noise.nan() || self.saturation.nan()
    }
}

impl PartialEq for Blur {
    fn eq(&self, other: &Self) -> (r: bool) {
        self.off == other.off && self.noise == other.noise && self.saturation == other.saturation
            && self.kernel == other.kernel
    }
}

impl vstd::std_specs::cmp::PartialEqSpecImpl for Blur {
    open spec fn obeys_eq_spec() -> bool {
        true
    }

    open spec fn eq_spec(&self, other: &Self) -> bool {
        self.same(*other)
    }
}

/// What the rules say of the background of a surface. Whatever is `None` is left to a default.
#[derive(Debug, Clone, Copy)]
pub struct BackgroundEffectRule {
    pub blur: Option<bool>,
    pub xray: Option<bool>,
    pub noise: Option<Float64>,
    pub saturation: Option<Float64>,
}

impl BackgroundEffectRule {
    pub open spec fn same(self, other: Self) -> bool {
        &&& self.blur == other.blur
        &&& self.xray == other.xray
        &&& same_option64(self.noise, other.noise)
        &&& same_option64(self.saturation, other.saturation)
    }

    pub open spec fn has_nan(self) -> bool {
        (self.noise matches Some(v) && v.nan()) || (self.saturation matches Some(v) && v.nan())
    }
}

impl PartialEq for BackgroundEffectRule {
    fn eq(&self, other: &Self) -> (r: bool) {
        self.blur == other.blur && self.xray == other.xray && self.noise == other.noise
            && self.saturation == other.saturation
    }
}

impl vstd::std_specs::cmp::PartialEqSpecImpl for BackgroundEffectRule {
    open spec fn obeys_eq_spec() -> bool {
        true
    }

    open spec fn eq_spec(&self, other: &Self) -> bool {
        self.same(*other)
    }
}

/// The settings of a shadow but for whether it is on, by a handle under which they are found
/// again.
#[derive(Debug, Clone, Copy, PartialEq, Eq, Structural)]
pub struct ShadowLook {
    pub handle: u64,
}

/// Settings of the shadow around a surface.
#[derive(Debug, Clone, Copy, PartialEq, Eq, Structural)]
pub struct ShadowConfig {
    pub on: bool,
    pub look: ShadowLook,
}

/// What the rules say of a shadow, by a handle under which it is found again. Equal rules have
/// equal handles.
#[derive(Debug, Clone, Copy, PartialEq, Eq, Structural)]
pub struct ShadowRule {
    pub handle: u64,
}

/// From which outputs a surface is hidden, by a handle under which that is found again. Equal
/// settings have equal handles.
#[derive(Debug, Clone, Copy, PartialEq, Eq, Structural)]
pub struct BlockOutFrom {
    pub handle: u64,
}

/// The rules that apply to a layer surface.
#[derive(Debug, Clone, Copy)]
pub struct ResolvedLayerRules {
    /// Opacity of the surface; opaque if unset.
    pub opacity: Option<Float32>,
    pub block_out_from: Option<BlockOutFrom>,
    pub shadow: ShadowRule,
    /// Radius of the corners of the surface; square if unset.
    pub geometry_corner_radius: Option<CornerRadius>,
    pub place_within_backdrop: bool,
    /// The surface bobs up and down.
    pub baba_is_float: bool,
    pub background_effect: BackgroundEffectRule,
}

impl ResolvedLayerRules {
    pub open spec fn same(self, other: Self) -> bool {
        &&& same_option32(self.opacity, other.opacity)
        &&& self.block_out_from == other.block_out_from
        &&& self.shadow == other.shadow
        &&& same_radius(self.geometry_corner_radius, other.geometry_corner_radius)
        &&& self.place_within_backdrop == other.place_within_backdrop
        &&& self.baba_is_float == other.baba_is_float
        &&& self.background_effect.same(other.background_effect)
    }

    pub open spec fn has_nan(self) -> bool {
        ||| (self.opacity matches Some(v) && v.nan())
        ||| (self.geometry_corner_radius matches Some(v) && v.has_nan())
        ||| self.background_effect.has_nan()
    }

    /// The radius of the corners.
    pub open spec fn radius(self) -> CornerRadius {
        match self.geometry_corner_radius {
            Some(radius) => radius,
            None => CornerRadius::square(),
        }
    }

    /// The opacity with which the surface is drawn.
    pub open spec fn alpha(self) -> Float32 {
        match self.opacity {
            Some(v) => v.clamped_to_unit(),
            None => Float32 { bits: 0x3f80_0000 },
        }
    }

    pub fn corner_radius(&self) -> (r: CornerRadius)
        ensures
            r == self.radius(),
    {
        match self.geometry_corner_radius {
            Some(radius) => radius,
            None => CornerRadius::default(),
        }
    }

    pub fn drawn_opacity(&self) -> (r: Float32)
        ensures
            r == self.alpha(),
    {
        match self.opacity {
            Some(v) => v.clamp_to_unit(),
            None => Float32::one(),
        }
    }
}

fn same_block_out(a: Option<BlockOutFrom>, b: Option<BlockOutFrom>) -> (r: bool)
    ensures
        r == (a == b),
{
    match (a, b) {
        (None, None) => true,
        (Some(x), Some(y)) => x == y,
        _ => false,
    }
}

impl PartialEq for ResolvedLayerRules {
    fn eq(&self, other: &Self) -> (r: bool) {
        self.opacity == other.opacity && same_block_out(self.block_out_from, other.block_out_from)
            && self.shadow == other.shadow && self.geometry_corner_radius
            == other.geometry_corner_radius && self.place_within_backdrop
            == other.place_within_backdrop && self.baba_is_float == other.baba_is_float
            && self.background_effect == other.background_effect
    }
}

impl vstd::std_specs::cmp::PartialEqSpecImpl for ResolvedLayerRules {
    open spec fn obeys_eq_spec() -> bool {
        true
    }

    open spec fn eq_spec(&self, other: &Self) -> bool {
        self.same(*other)
    }
}

/// Two optional values are equal when both are missing, or both are there and equal.
pub open spec fn same_option64(a: Option<Float64>, b: Option<Float64>) -> bool {
    match (a, b) {
        (None, None) => true,
        (Some(x), Some(y)) => x.same(y),
        _ => false,
    }
}

/// Two optional values are equal when both are missing, or both are there and equal.
pub open spec fn same_option32(a: Option<Float32>, b: Option<Float32>) -> bool {
    match (a, b) {
        (None, None) => true,
        (Some(x), Some(y)) => x.same(y),
        _ => false,
    }
}

/// Two optional radii are equal when both are missing, or both are there and equal.
pub open spec fn same_radius(a: Option<CornerRadius>, b: Option<CornerRadius>) -> bool {
    match (a, b) {
        (None, None) => true,
        (Some(x), Some(y)) => x.same(y),
        _ => false,
    }
}

} // verus!
