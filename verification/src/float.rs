//! Floating-point values held by their IEEE 754 bit patterns.
//!
//! The library compares such values and hands them on; it never computes new ones. What has to be
//! computed goes through [`crate::math::RenderMath`].

use vstd::prelude::*;

verus! {

/// A binary64 value, held by its bits.
#[derive(Debug, Clone, Copy)]
pub struct Float64 {
    pub bits: u64,
}

/// Bits of the largest magnitude that is still a number: infinity. Anything above is NaN.
pub const INFINITY64: u64 = 0x7ff0_0000_0000_0000;

/// The sign bit of a binary64 value.
pub const SIGN64: u64 = 0x8000_0000_0000_0000;

impl Float64 {
    /// The bits without the sign. Among numbers, a larger magnitude has larger bits.
    pub open spec fn magnitude(self) -> int {
        if self.bits >= SIGN64 {
            self.bits - SIGN64
        } else {
            self.bits as int
        }
    }

    pub open spec fn nan(self) -> bool {
        self.magnitude() > INFINITY64
    }

    /// Where a number stands in the order of all numbers. Both zeros stand at 0.
    pub open spec fn rank(self) -> int {
        if self.bits >= SIGN64 {
            -self.magnitude()
        } else {
            self.magnitude()
        }
    }

    /// `self < other`: false as soon as one of them is NaN.
    pub open spec fn less(self, other: Self) -> bool {
        !self.nan() && !other.nan() && self.rank() < other.rank()
    }

    /// `self <= other`: false as soon as one of them is NaN.
    pub open spec fn at_most(self, other: Self) -> bool {
        !self.nan() && !other.nan() && self.rank() <= other.rank()
    }

    /// `self == other`: false as soon as one of them is NaN, true of the two zeros.
    pub open spec fn same(self, other: Self) -> bool {
        !self.nan() && !other.nan() && self.rank() == other.rank()
    }

    /// The larger of two numbers; where one of them is NaN, the other.
    pub open spec fn larger(self, other: Self) -> Self {
        if self.nan() || self.less(other) {
            other
        } else {
            self
        }
    }

    /// The smaller of two numbers; where one of them is NaN, the other.
    pub open spec fn smaller(self, other: Self) -> Self {
        if self.nan() || other.less(self) {
            other
        } else {
            self
        }
    }

    /// Positive zero.
    pub fn zero() -> (r: Self)
        ensures
            r == (Float64 { bits: 0 }),
    {
        Float64 { bits: 0 }
    }

    /// The number one.
    pub fn one() -> (r: Self)
        ensures
            r == (Float64 { bits: 0x3ff0_0000_0000_0000 }),
    {
        Float64 { bits: 0x3ff0_0000_0000_0000 }
    }

    pub fn is_nan(self) -> (r: bool)
        ensures
            r == self.nan(),
    {
        let magnitude: u64 = if self.bits >= SIGN64 { self.bits - SIGN64 } else { self.bits };
        magnitude > INFINITY64
    }

    pub fn lt(self, other: Self) -> (r: bool)
        ensures
            r == self.less(other),
    {
        if self.is_nan() || other.is_nan() {
            false
        } else if self.bits >= SIGN64 {
            if other.bits >= SIGN64 {
                self.bits > other.bits
            } else {
                self.bits > SIGN64 || other.bits > 0
            }
        } else {
            other.bits < SIGN64 && self.bits < other.bits
        }
    }

    pub fn le(self, other: Self) -> (r: bool)
        ensures
            r == self.at_most(other),
    {
        !self.is_nan() && !other.is_nan() && !other.lt(self)
    }

    pub fn max(self, other: Self) -> (r: Self)
        ensures
            r == self.larger(other),
    {
        if self.is_nan() || self.lt(other) {
            other
        } else {
            self
        }
    }

    pub fn min(self, other: Self) -> (r: Self)
        ensures
            r == self.smaller(other),
    {
        if self.is_nan() || other.lt(self) {
            other
        } else {
            self
        }
    }
}

impl PartialEq for Float64 {
    fn eq(&self, other: &Self) -> (r: bool) {
        !self.is_nan() && !other.is_nan() && !self.lt(*other) && !other.lt(*self)
    }
}

impl vstd::std_specs::cmp::PartialEqSpecImpl for Float64 {
    open spec fn obeys_eq_spec() -> bool {
        true
    }

    open spec fn eq_spec(&self, other: &Self) -> bool {
        self.same(*other)
    }
}

/// A binary32 value, held by its bits.
#[derive(Debug, Clone, Copy)]
pub struct Float32 {
    pub bits: u32,
}

/// Bits of the largest magnitude that is still a number: infinity. Anything above is NaN.
pub const INFINITY32: u32 = 0x7f80_0000;

/// The sign bit of a binary32 value.
pub const SIGN32: u32 = 0x8000_0000;

impl Float32 {
    /// The bits without the sign. Among numbers, a larger magnitude has larger bits.
    pub open spec fn magnitude(self) -> int {
        if self.bits >= SIGN32 {
            self.bits - SIGN32
        } else {
            self.bits as int
        }
    }

    pub open spec fn nan(self) -> bool {
        self.magnitude() > INFINITY32
    }

    /// Where a number stands in the order of all numbers. Both zeros stand at 0.
    pub open spec fn rank(self) -> int {
        if self.bits >= SIGN32 {
            -self.magnitude()
        } else {
            self.magnitude()
        }
    }

    /// `self < other`: false as soon as one of them is NaN.
    pub open spec fn less(self, other: Self) -> bool {
        !self.nan() && !other.nan() && self.rank() < other.rank()
    }

    /// `self == other`: false as soon as one of them is NaN, true of the two zeros.
    pub open spec fn same(self, other: Self) -> bool {
        !self.nan() && !other.nan() && self.rank() == other.rank()
    }

    /// The value held between zero and one. NaN and negative zero stay as they are.
    pub open spec fn clamped_to_unit(self) -> Self {
        let zero = Float32 { bits: 0 };
        let one = Float32 { bits: 0x3f80_0000 };
        if self.less(zero) {
            zero
        } else if one.less(self) {
            one
        } else {
            self
        }
    }

    /// Positive zero.
    pub fn zero() -> (r: Self)
        ensures
            r == (Float32 { bits: 0 }),
    {
        Float32 { bits: 0 }
    }

    /// The number one.
    pub fn one() -> (r: Self)
        ensures
            r == (Float32 { bits: 0x3f80_0000 }),
    {
        Float32 { bits: 0x3f80_0000 }
    }

    pub fn is_nan(self) -> (r: bool)
        ensures
            r == self.nan(),
    {
        let magnitude: u32 = if self.bits >= SIGN32 { self.bits - SIGN32 } else { self.bits };
        magnitude > INFINITY32
    }

    pub fn lt(self, other: Self) -> (r: bool)
        ensures
            r == self.less(other),
    {
        if self.is_nan() || other.is_nan() {
            false
        } else if self.bits >= SIGN32 {
            if other.bits >= SIGN32 {
                self.bits > other.bits
            } else {
                self.bits > SIGN32 || other.bits > 0
            }
        } else {
            other.bits < SIGN32 && self.bits < other.bits
        }
    }

    pub fn clamp_to_unit(self) -> (r: Self)
        ensures
            r == self.clamped_to_unit(),
    {
        if self.lt(Float32::zero()) {
            Float32::zero()
        } else if Float32::one().lt(self) {
            Float32::one()
        } else {
            self
        }
    }
}

impl PartialEq for Float32 {
    fn eq(&self, other: &Self) -> (r: bool) {
        !self.is_nan() && !other.is_nan() && !self.lt(*other) && !other.lt(*self)
    }
}

impl vstd::std_specs::cmp::PartialEqSpecImpl for Float32 {
    open spec fn obeys_eq_spec() -> bool {
        true
    }

    open spec fn eq_spec(&self, other: &Self) -> bool {
        self.same(*other)
    }
}

/// Whatever an opacity is set to, it is drawn between fully transparent and fully opaque.
pub proof fn unit_bounds(v: Float32)
    requires
        !v.nan(),
    ensures
        0 <= v.clamped_to_unit().rank() <= 0x3f80_0000,
        0 <= v.rank() <= 0x3f80_0000 ==> v.clamped_to_unit() == v,
{
}

} // verus!
