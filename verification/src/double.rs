//! Double-precision numbers, held by their bit pattern.
//!
//! A [`Double`] is the 64 bits of an IEEE 754 binary64 number: one sign bit,
//! eleven exponent bits and fifty-two fraction bits, from the top down. The
//! order of such numbers can be read off the bits with integer arithmetic
//! alone, which is what this module does.

use vstd::prelude::*;
use crate::key::Key;

verus! {

/// The sign bit; a pattern at or above it is negative.
pub const SIGN_BIT: u64 = 0x8000_0000_0000_0000;

/// The pattern of positive infinity. A magnitude above it is not a number.
pub const INFINITY_BITS: u64 = 0x7FF0_0000_0000_0000;

/// A double-precision number.
#[derive(Clone, Copy, Debug)]
pub struct Double {
    /// The bit pattern of the number.
    pub bits: u64,
}

impl Double {
    /// The pattern without its sign bit.
    pub open spec fn magnitude(self) -> int {
        if self.bits >= SIGN_BIT {
            self.bits - SIGN_BIT
        } else {
            self.bits as int
        }
    }

    /// Whether the sign bit is set.
    pub open spec fn is_negative(self) -> bool {
        self.bits >= SIGN_BIT
    }

    /// Whether the pattern is not a number.
    pub open spec fn is_nan(self) -> bool {
        self.magnitude() > INFINITY_BITS
    }

    /// Where the number stands among all numbers: for patterns that are
    /// numbers, a larger rank is a larger number and an equal rank is an equal
    /// number. Both zeros have rank `0`.
    pub open spec fn rank(self) -> int {
        if self.is_negative() {
            -self.magnitude()
        } else {
            self.magnitude()
        }
    }

    /// The number with the given bit pattern.
    pub fn from_bits(bits: u64) -> (d: Double)
        ensures
            d == (Double { bits }),
    {
        Double { bits }
    }

    /// The bit pattern of the number.
    pub fn to_bits(self) -> (bits: u64)
        ensures
            bits == self.bits,
    {
        self.bits
    }
}

impl Key for Double {
    /// The IEEE 754 `<=`: false when either side is not a number, and the
    /// order of the ranks otherwise.
    open spec fn le_spec(&self, other: &Self) -> bool {
        !self.is_nan() && !other.is_nan() && self.rank() <= other.rank()
    }

    fn le(&self, other: &Self) -> (r: bool) {
        let a = self.bits;
        let b = other.bits;
        let a_negative = a >= SIGN_BIT;
        let b_negative = b >= SIGN_BIT;
        let a_magnitude = if a_negative { a - SIGN_BIT } else { a };
        let b_magnitude = if b_negative { b - SIGN_BIT } else { b };
        if a_magnitude > INFINITY_BITS || b_magnitude > INFINITY_BITS {
            false
        } else if a_negative {
            !b_negative || a_magnitude >= b_magnitude
        } else if b_negative {
            a_magnitude == 0 && b_magnitude == 0
        } else {
            a_magnitude <= b_magnitude
        }
    }

    proof fn le_transitive(a: &Self, b: &Self, c: &Self) {
    }
}

} // verus!
