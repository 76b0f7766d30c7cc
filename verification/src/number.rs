//! Numbers of a spreadsheet, carried without arithmetic.

use vstd::prelude::*;

verus! {

/// The encoding of zero.
pub const ZERO_BITS: u64 = 0;

/// The encoding of zero with the sign set.
pub const NEGATIVE_ZERO_BITS: u64 = 0x8000_0000_0000_0000;

/// A number as a spreadsheet holds it, kept as the 64 bits of its IEEE 754
/// binary64 encoding. Two numbers are equal when their bits are.
#[derive(Debug, Clone, Copy, PartialEq, Eq, Structural, Hash)]
pub struct Number {
    pub bits: u64,
}

impl Number {
    /// Zero, which also stands for "nothing entered".
    pub open spec fn zero() -> Number {
        Number { bits: ZERO_BITS }
    }

    /// The number is zero, with either sign.
    pub open spec fn is_zero(self) -> bool {
        self.bits == ZERO_BITS || self.bits == NEGATIVE_ZERO_BITS
    }

    /// The number with this encoding.
    pub fn from_bits(bits: u64) -> (number: Number)
        ensures
            number.bits == bits,
    {
        Number { bits }
    }

    /// The number's encoding.
    pub fn to_bits(&self) -> (bits: u64)
        ensures
            bits == self.bits,
    {
        self.bits
    }

    /// Tells whether the number is zero, with either sign.
    pub fn equals_zero(&self) -> (yes: bool)
        ensures
            yes == self.is_zero(),
    {
        self.bits == ZERO_BITS || self.bits == NEGATIVE_ZERO_BITS
    }
}

impl Default for Number {
    fn default() -> (number: Number)
        ensures
            number == Number::zero(),
    {
        Number { bits: ZERO_BITS }
    }
}

} // verus!
