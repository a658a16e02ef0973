use vstd::prelude::*;

verus! {

/// The bit pattern of positive infinity in the IEEE 754 binary64 format:
/// sign clear, every exponent bit set, fraction zero.
pub const POSITIVE_INFINITY_BITS: u64 = 0x7ff0_0000_0000_0000;

/// The sign field of a binary64 bit pattern: its topmost bit.
pub open spec fn sign_field(bits: u64) -> u64 {
    bits >> 63
}

/// The biased exponent field of a binary64 bit pattern: the eleven bits
/// below the sign.
pub open spec fn exponent_field(bits: u64) -> u64 {
    (bits >> 52) & 0x7ff
}

/// The fraction field of a binary64 bit pattern: its low fifty-two bits.
pub open spec fn fraction_field(bits: u64) -> u64 {
    bits & 0x000f_ffff_ffff_ffff
}

/// Whether a binary64 bit pattern encodes a number greater than zero.
///
/// Such a pattern has a clear sign, is not a zero (exponent and fraction
/// both zero) and is not a NaN (exponent all ones with a nonzero fraction).
/// Subnormal numbers and positive infinity are greater than zero.
pub open spec fn encodes_positive(bits: u64) -> bool {
    &&& sign_field(bits) == 0
    &&& !(exponent_field(bits) == 0 && fraction_field(bits) == 0)
    &&& !(exponent_field(bits) == 0x7ff && fraction_field(bits) != 0)
}

/// The patterns that encode a number greater than zero are exactly those
/// that, read as unsigned integers, lie above zero and not above the pattern
/// of positive infinity.
pub proof fn lemma_positive_patterns_form_a_range(bits: u64)
    by (bit_vector)
    ensures
        encodes_positive(bits) <==> 0 < bits <= POSITIVE_INFINITY_BITS,
{
}

/// The ratio of physical pixels to logical units, held as the IEEE 754
/// binary64 bit pattern of a number greater than zero.
#[derive(Debug, Clone, Copy, PartialEq, Eq, Structural)]
pub struct ScaleFactor {
    bits: u64,
}

/// The rejection of a bit pattern that does not encode a number greater
/// than zero: a zero, a negative number or a NaN.
#[derive(Debug, Clone, Copy, PartialEq, Eq, Structural)]
pub struct InvalidScaleFactor {
    /// The pattern that was rejected.
    pub bits: u64,
}

impl View for ScaleFactor {
    type V = u64;

    /// The bit pattern that the scale factor holds.
    closed spec fn view(&self) -> u64 {
        self.bits
    }
}

impl ScaleFactor {
    /// What holds of every scale factor: its pattern encodes a number
    /// greater than zero.
    #[verifier::type_invariant]
    pub open spec fn is_positive(self) -> bool {
        encodes_positive(self@)
    }

    /// Accepts the bit pattern of a number greater than zero and rejects
    /// every other pattern, handing the rejected pattern back.
    ///
    /// The accepted patterns are those from the smallest subnormal number up
    /// to positive infinity.
    pub fn from_bits(bits: u64) -> (result: Result<ScaleFactor, InvalidScaleFactor>)
        ensures
            result is Ok <==> encodes_positive(bits),
            result is Ok <==> 0 < bits <= POSITIVE_INFINITY_BITS,
            result matches Ok(scale_factor) ==> scale_factor@ == bits,
            result matches Err(error) ==> error.bits == bits,
    {
        proof {
            lemma_positive_patterns_form_a_range(bits);
        }
        if 0 < bits && bits <= POSITIVE_INFINITY_BITS {
            Ok(ScaleFactor { bits })
        } else {
            Err(InvalidScaleFactor { bits })
        }
    }

    /// The bit pattern of the scale factor, which always encodes a number
    /// greater than zero.
    pub fn to_bits(&self) -> (bits: u64)
        ensures
            bits == self@,
            encodes_positive(bits),
    {
        proof {
            use_type_invariant(self);
        }
        self.bits
    }
}

} // verus!
