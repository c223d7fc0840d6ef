//! Measured quantities, held by the bit pattern of a single-precision binary
//! floating-point number so that a value is kept exactly as it was given.

use vstd::prelude::*;

verus! {

/// Bit pattern of positive zero.
pub const POSITIVE_ZERO_BITS: u32 = 0;

/// Bit pattern of negative zero.
pub const NEGATIVE_ZERO_BITS: u32 = 0x8000_0000;

/// A single-precision quantity, identified by its thirty-two bits. Two
/// quantities are the same exactly when their bits are.
#[derive(Clone, Copy, Debug, PartialEq, Eq, Structural)]
pub struct Quantity {
    pub bits: u32,
}

impl Quantity {
    /// Whether the quantity is zero, of either sign.
    pub open spec fn spec_is_zero(&self) -> bool {
        self.bits == POSITIVE_ZERO_BITS || self.bits == NEGATIVE_ZERO_BITS
    }

    /// The quantity with the given bits.
    pub fn from_bits(bits: u32) -> (value: Quantity)
        ensures
            value.bits == bits,
    {
        Quantity { bits }
    }

    /// The bits of the quantity.
    pub fn to_bits(&self) -> (bits: u32)
        ensures
            bits == self.bits,
    {
        self.bits
    }

    /// Positive zero.
    pub fn zero() -> (value: Quantity)
        ensures
            value.bits == POSITIVE_ZERO_BITS,
    {
        Quantity { bits: POSITIVE_ZERO_BITS }
    }

    /// Whether the quantity is zero, of either sign.
    #[verifier::when_used_as_spec(spec_is_zero)]
    pub fn is_zero(&self) -> (zero: bool)
        ensures
            zero == self.spec_is_zero(),
    {
        self.bits == POSITIVE_ZERO_BITS || self.bits == NEGATIVE_ZERO_BITS
    }
}

} // verus!
