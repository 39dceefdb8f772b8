//! Playback volume: a single-precision number between zero and one, handled
//! by its bit pattern.

use crate::error::ValidationError;
use vstd::arithmetic::power2::{
    lemma2_to64, lemma_pow2_adds, lemma_pow2_pos, lemma_pow2_strictly_increases, pow2,
};
use vstd::prelude::*;

verus! {

/// Bit pattern of the single-precision number one.
pub const UNIT_BITS: u32 = 0x3F80_0000;

/// Bit pattern of the single-precision negative zero.
pub const NEGATIVE_ZERO_BITS: u32 = 0x8000_0000;

/// Whether the sign bit of a single-precision bit pattern is set.
pub open spec fn sign_bit(bits: u32) -> bool {
    bits >= 0x8000_0000u32
}

/// The eight-bit biased exponent field of a single-precision bit pattern.
pub open spec fn exponent_field(bits: u32) -> int {
    (bits as int / 0x80_0000) % 0x100
}

/// The twenty-three-bit fraction field of a single-precision bit pattern.
pub open spec fn fraction_field(bits: u32) -> int {
    bits as int % 0x80_0000
}

/// Whether the pattern denotes a number, that is neither an infinity nor a
/// NaN.
pub open spec fn is_finite(bits: u32) -> bool {
    exponent_field(bits) < 0xFF
}

/// The absolute value that a finite pattern denotes, counted in units of
/// 2^-149, the smallest positive single-precision number.
pub open spec fn magnitude(bits: u32) -> int {
    if exponent_field(bits) == 0 {
        fraction_field(bits)
    } else {
        (0x80_0000 + fraction_field(bits)) * pow2((exponent_field(bits) - 1) as nat)
    }
}

/// The value that a finite pattern denotes, in units of 2^-149.
pub open spec fn scaled_value(bits: u32) -> int {
    if sign_bit(bits) {
        -magnitude(bits)
    } else {
        magnitude(bits)
    }
}

/// The number one in units of 2^-149.
pub open spec fn scaled_one() -> int {
    pow2(149) as int
}

/// Whether the pattern denotes a number in the closed interval from zero to
/// one.
pub open spec fn in_unit_range(bits: u32) -> bool {
    is_finite(bits) && 0 <= scaled_value(bits) <= scaled_one()
}

/// On bit patterns the unit interval is the range from positive zero up to
/// one, together with negative zero.
pub proof fn lemma_unit_range_by_bits(bits: u32)
    ensures
        in_unit_range(bits) <==> (bits <= UNIT_BITS || bits == NEGATIVE_ZERO_BITS),
{
    let e = exponent_field(bits);
    let f = fraction_field(bits);
    let one = 0x80_0000 * pow2(126);
    lemma2_to64();
    lemma_pow2_adds(23, 126);
    lemma_pow2_pos(126);
    if e == 0 {
        assert(f < one) by (nonlinear_arith)
            requires
                f < 0x80_0000,
                one == 0x80_0000 * pow2(126),
                pow2(126) > 0,
        ;
    } else {
        let p = pow2((e - 1) as nat);
        lemma_pow2_pos((e - 1) as nat);
        if e < 127 {
            lemma_pow2_adds(1, (e - 1) as nat);
            if e < 126 {
                lemma_pow2_strictly_increases(e as nat, 126);
            }
            assert(0 < (0x80_0000 + f) * p < one) by (nonlinear_arith)
                requires
                    0 <= f < 0x80_0000,
                    p > 0,
                    2 * p <= pow2(126),
                    one == 0x80_0000 * pow2(126),
            ;
        } else if e == 127 {
            assert(0 < (0x80_0000 + f) * p && ((0x80_0000 + f) * p <= one <==> f == 0))
                by (nonlinear_arith)
                requires
                    0 <= f,
                    p > 0,
                    one == 0x80_0000 * p,
            ;
        } else {
            lemma_pow2_adds(1, 126);
            if e > 128 {
                lemma_pow2_strictly_increases(127, (e - 1) as nat);
            }
            assert((0x80_0000 + f) * p > one) by (nonlinear_arith)
                requires
                    0 <= f,
                    p >= 2 * pow2(126),
                    pow2(126) > 0,
                    one == 0x80_0000 * pow2(126),
            ;
        }
    }
}

/// A playback volume: a single-precision number between zero and one, held
/// by its bit pattern.
#[derive(Clone, Copy, Debug)]
pub struct Volume {
    bits: u32,
}

impl View for Volume {
    type V = u32;

    closed spec fn view(&self) -> u32 {
        self.bits
    }
}

impl Volume {
    /// Holds of every volume: its pattern denotes a number between zero and
    /// one.
    #[verifier::type_invariant]
    pub closed spec fn wf(self) -> bool {
        in_unit_range(self.bits)
    }

    /// A volume always denotes a number between zero and one.
    pub proof fn lemma_in_range(self)
        requires
            self.wf(),
        ensures
            in_unit_range(self@),
    {
    }

    /// Accepts the pattern exactly when it denotes a number between zero and
    /// one.
    pub fn new(bits: u32) -> (r: Result<Volume, ValidationError>)
        ensures
            in_unit_range(bits) ==> r is Ok && r->Ok_0@ == bits,
            !in_unit_range(bits) ==> r == Err::<Volume, ValidationError>(
                ValidationError::VolumeOutOfRange,
            ),
    {
        proof {
            lemma_unit_range_by_bits(bits);
        }
        if bits <= UNIT_BITS || bits == NEGATIVE_ZERO_BITS {
            Ok(Volume { bits })
        } else {
            Err(ValidationError::VolumeOutOfRange)
        }
    }

    /// The bit pattern of the volume.
    pub fn bits(&self) -> (r: u32)
        ensures
            r == self@,
            in_unit_range(r),
    {
        proof {
            use_type_invariant(self);
        }
        self.bits
    }
}

} // verus!
