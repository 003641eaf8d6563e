//! What the operations are for, stated of their arguments and results.
//!
//! Each law speaks of a call of an operation, and says of the outcome what a user of the library
//! relies on: in pixels, in bits, in single settings.

pub mod arithmetic;
pub mod effects;
pub mod protocol;
pub mod regions;
pub mod rendering;
pub mod settings;
pub mod shapes;
pub mod values;
