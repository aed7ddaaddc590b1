//! Single-precision values as bit patterns.
//!
//! Coordinates, pressure and sensor samples travel as IEEE 754 binary32
//! values. This library never does arithmetic on them; it carries the 32 bits
//! and, for touch events, saturates them into the unit interval. Both need
//! only the encoding: bit 31 is the sign, bits 0 to 30 are the magnitude, and
//! among values that are not NaN a larger magnitude is a larger absolute
//! value. A caller turns the bits into a native value with `f32::from_bits`.

use vstd::prelude::*;

verus! {

/// The bit pattern of 1.0.
pub const ONE_BITS: u32 = 0x3F80_0000;

/// The bit pattern of positive infinity, the largest magnitude that is a
/// number; every larger magnitude is a NaN.
pub const INFINITY_BITS: u32 = 0x7F80_0000;

/// The sign bit alone: the bit pattern of negative zero.
pub const SIGN_BIT: u32 = 0x8000_0000;

/// An IEEE 754 binary32 value, held as its 32 bits.
#[derive(Clone, Copy, Debug, PartialEq, Eq, Structural)]
pub struct Binary32 {
    /// The encoding, as `f32::to_bits` gives it.
    pub bits: u32,
}

impl Binary32 {
    /// Bits 0 to 30: the encoding of the absolute value.
    pub open spec fn magnitude(self) -> u32 {
        self.bits % 0x8000_0000
    }

    /// Whether bit 31 is set. Negative zero has it set, too.
    pub open spec fn sign(self) -> bool {
        self.bits >= SIGN_BIT
    }

    /// Whether the value is a NaN, of either sign and with any payload.
    pub open spec fn is_nan(self) -> bool {
        self.magnitude() > INFINITY_BITS
    }

    /// The place of a value that is not NaN in numeric order: `a` is less
    /// than `b` exactly when `a.rank() < b.rank()`, and the two zeros, which
    /// compare equal, share rank 0.
    pub open spec fn rank(self) -> int
        recommends
            !self.is_nan(),
    {
        if self.sign() {
            -self.magnitude()
        } else {
            self.magnitude() as int
        }
    }

    /// Whether the value lies in the closed interval from 0.0 to 1.0.
    pub open spec fn in_unit_interval(self) -> bool {
        !self.is_nan() && 0 <= self.rank() <= ONE_BITS
    }

    /// The value saturated into the unit interval: 0.0 for what is less than
    /// 0.0, 1.0 for what is greater than 1.0, and the value itself otherwise.
    /// A NaN is neither less nor greater than anything and stays as it is,
    /// and so does negative zero, which is not less than 0.0.
    pub open spec fn clamped_to_unit(self) -> Binary32 {
        if self.is_nan() {
            self
        } else if self.rank() < 0 {
            Binary32 { bits: 0 }
        } else if self.rank() > ONE_BITS {
            Binary32 { bits: ONE_BITS }
        } else {
            self
        }
    }

    /// Saturates the value into the unit interval.
    pub fn clamp_unit(self) -> (r: Binary32)
        ensures
            r == self.clamped_to_unit(),
            self.is_nan() ==> r == self,
            !self.is_nan() ==> r.in_unit_interval(),
            self.in_unit_interval() ==> r == self,
    {
        let magnitude: u32 = self.bits % 0x8000_0000;
        if magnitude > INFINITY_BITS {
            self
        } else if self.bits > SIGN_BIT {
            Binary32 { bits: 0 }
        } else if self.bits < SIGN_BIT && magnitude > ONE_BITS {
            Binary32 { bits: ONE_BITS }
        } else {
            self
        }
    }

    /// Saturation lands in the unit interval or on a NaN, and nowhere else.
    pub proof fn lemma_clamped_in_unit(self)
        ensures
            self.clamped_to_unit().is_nan() <==> self.is_nan(),
            !self.is_nan() ==> self.clamped_to_unit().in_unit_interval(),
    {
    }

    /// Saturating twice is saturating once.
    pub proof fn lemma_clamp_idempotent(self)
        ensures
            self.clamped_to_unit().clamped_to_unit() == self.clamped_to_unit(),
    {
    }

    /// Saturation keeps the order of numbers: it never swaps two of them.
    pub proof fn lemma_clamp_monotone(self, other: Binary32)
        requires
            !self.is_nan(),
            !other.is_nan(),
            self.rank() <= other.rank(),
        ensures
            self.clamped_to_unit().rank() <= other.clamped_to_unit().rank(),
    {
    }
}

} // verus!
