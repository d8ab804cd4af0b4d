//! Operands, held as IEEE 754 binary64 encodings.

use vstd::prelude::*;

verus! {

/// The bit of an encoding that holds the sign.
pub const SIGN_MASK: u64 = 0x8000_0000_0000_0000;

/// The bits of an encoding that hold the exponent and fraction fields.
pub const MAGNITUDE_MASK: u64 = 0x7fff_ffff_ffff_ffff;

/// A double-precision operand.
///
/// The value is kept as the 64 bits of its IEEE 754 binary64 encoding: from the
/// top, one sign bit, eleven bits of biased exponent, fifty-two bits of fraction.
#[derive(Clone, Copy, Debug)]
pub struct Operand {
    bits: u64,
}

impl View for Operand {
    type V = u64;

    /// The encoding of the operand.
    closed spec fn view(&self) -> u64 {
        self.bits
    }
}

impl Operand {
    /// The biased exponent field.
    pub open spec fn exponent(self) -> nat {
        ((self@ / 0x10_0000_0000_0000) % 0x800) as nat
    }

    /// The fraction field.
    pub open spec fn fraction(self) -> nat {
        (self@ % 0x10_0000_0000_0000) as nat
    }

    /// Whether the operand is a zero: its exponent and fraction fields are both
    /// zero, whatever its sign.
    pub open spec fn is_zero_spec(self) -> bool {
        self.exponent() == 0 && self.fraction() == 0
    }

    /// The operand with the encoding `bits`.
    pub fn from_bits(bits: u64) -> (r: Operand)
        ensures
            r@ == bits,
    {
        Operand { bits }
    }

    /// The encoding of the operand.
    pub fn to_bits(self) -> (r: u64)
        ensures
            r == self@,
    {
        self.bits
    }

    /// Whether the operand compares equal to zero.
    #[verifier::when_used_as_spec(is_zero_spec)]
    pub fn is_zero(self) -> (r: bool)
        ensures
            r == self.is_zero_spec(),
    {
        let bits: u64 = self.bits;
        assert(bits & MAGNITUDE_MASK == 0 <==> {
            &&& (bits / 0x10_0000_0000_0000) % 0x800 == 0
            &&& bits % 0x10_0000_0000_0000 == 0
        }) by (bit_vector);
        bits & MAGNITUDE_MASK == 0
    }

    /// An operand is a zero exactly when its encoding is that of positive zero or
    /// that of negative zero.
    pub proof fn lemma_zero_encodings(self)
        ensures
            self.is_zero_spec() <==> (self@ == 0 || self@ == SIGN_MASK),
    {
        let bits: u64 = self@;
        assert((bits == 0 || bits == 0x8000_0000_0000_0000) <==> {
            &&& (bits / 0x10_0000_0000_0000) % 0x800 == 0
            &&& bits % 0x10_0000_0000_0000 == 0
        }) by (bit_vector);
    }
}

} // verus!
