//! Background effects of layer surfaces: what is blurred, where, and with which settings.

pub mod background_effect;
pub mod float;
pub mod geometry;
pub mod kde_blur;
pub mod laws;
pub mod layer;
pub mod math;
pub mod style;
pub mod subregion;
