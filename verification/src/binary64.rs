//! Reading IEEE 754 binary64 numbers, given by their 64 bits, as amounts.
//!
//! Telemetry and requests arrive as binary floating point. The library takes
//! such a number by its bit pattern and reads it in integer arithmetic alone.
use crate::amount::Amount;
use vstd::arithmetic::power2::{
    lemma2_to64, lemma_pow2_adds, lemma_pow2_pos, lemma_pow2_strictly_increases,
    lemma_pow2_unfold, pow2,
};
use vstd::prelude::*;

verus! {

/// Two to the 52nd: the span of the fraction field.
pub const FRACTION_SPAN: u64 = 0x10_0000_0000_0000;

/// The pattern's sign bit.
pub const SIGN_BIT: u64 = 0x8000_0000_0000_0000;

/// The biased exponent of infinities and of values that are not numbers.
pub const EXPONENT_SPECIAL: u64 = 2047;

/// The biased exponent at which the significand counts whole units.
pub const EXPONENT_OF_UNITS: u64 = 1075;

/// The biased exponent field, bits 52 to 62.
pub open spec fn exponent_field(bits: u64) -> int {
    (bits as int / 0x10_0000_0000_0000) % 2048
}

/// The fraction field, bits 0 to 51.
pub open spec fn fraction_field(bits: u64) -> int {
    bits as int % 0x10_0000_0000_0000
}

/// Whether the sign bit is set.
pub open spec fn sign_set(bits: u64) -> bool {
    bits >= 0x8000_0000_0000_0000
}

/// Whether the pattern is a value that is not a number.
pub open spec fn is_nan(bits: u64) -> bool {
    exponent_field(bits) == 2047 && fraction_field(bits) != 0
}

/// Whether the pattern is a number that is not infinite.
pub open spec fn is_finite(bits: u64) -> bool {
    exponent_field(bits) != 2047
}

/// The significand as an integer: the fraction, with the implicit leading bit
/// for all but subnormal numbers.
pub open spec fn significand(bits: u64) -> int {
    if exponent_field(bits) == 0 {
        fraction_field(bits)
    } else {
        fraction_field(bits) + 0x10_0000_0000_0000
    }
}

/// The power of two that scales the significand: the magnitude of a finite
/// pattern is `significand * 2^scale`.
pub open spec fn scale(bits: u64) -> int {
    if exponent_field(bits) == 0 {
        -1074
    } else {
        exponent_field(bits) - 1075
    }
}

/// The magnitude of a finite pattern in millionths, rounded to the nearest
/// whole millionth, a tie upward.
pub open spec fn magnitude_micros(bits: u64) -> int {
    let scaled = significand(bits) * 1_000_000;
    if scale(bits) >= 0 {
        scaled * pow2(scale(bits) as nat)
    } else {
        (scaled + pow2((-scale(bits) - 1) as nat)) / (pow2((-scale(bits)) as nat) as int)
    }
}

/// The amount that a pattern stands for exactly enough: `None` for what is not
/// a finite number, for a negative number other than minus zero, and for a
/// number too large to hold.
pub open spec fn exact_amount(bits: u64) -> Option<Amount> {
    if !is_finite(bits) {
        None
    } else if sign_set(bits) && significand(bits) != 0 {
        None
    } else if magnitude_micros(bits) > u128::MAX {
        None
    } else {
        Some(Amount { micros: magnitude_micros(bits) as u128 })
    }
}

/// The amount nearest to a pattern: zero for a negative number, the largest
/// amount for a number too large to hold, for plus infinity and for what is
/// not a number. A negative number so stays below every positive floor, and
/// what is not a number stays below none, as in the IEEE comparison.
pub open spec fn clamped_amount(bits: u64) -> Amount {
    if is_nan(bits) {
        Amount { micros: u128::MAX }
    } else if sign_set(bits) {
        Amount { micros: 0 }
    } else if !is_finite(bits) || magnitude_micros(bits) > u128::MAX {
        Amount { micros: u128::MAX }
    } else {
        Amount { micros: magnitude_micros(bits) as u128 }
    }
}

proof fn lemma_pow2_128()
    ensures
        pow2(128) == 0x1_0000_0000_0000_0000_0000_0000_0000_0000,
        pow2(64) == 0x1_0000_0000_0000_0000,
{
    lemma2_to64();
    lemma_pow2_adds(64, 64);
}

/// Two to the `n`.
fn power_of_two(n: u64) -> (r: u128)
    requires
        n < 128,
    ensures
        r == pow2(n as nat),
{
    let mut r: u128 = 1;
    let mut i: u64 = 0;
    proof {
        lemma2_to64();
    }
    while i < n
        invariant
            i <= n,
            n < 128,
            r == pow2(i as nat),
        decreases n - i,
    {
        proof {
            lemma_pow2_unfold((i + 1) as nat);
            lemma_pow2_strictly_increases((i + 1) as nat, 128);
            lemma_pow2_128();
        }
        r = r * 2;
        i += 1;
    }
    r
}

/// Computes [`magnitude_micros`], or `None` where it cannot be held.
fn read_magnitude(bits: u64) -> (r: Option<u128>)
    requires
        is_finite(bits),
    ensures
        r matches Some(m) ==> m == magnitude_micros(bits),
        r is None <==> magnitude_micros(bits) > u128::MAX,
{
    let exponent: u64 = bits / FRACTION_SPAN % 2048;
    let fraction: u64 = bits % FRACTION_SPAN;
    let whole: u64 = if exponent == 0 {
        fraction
    } else {
        fraction + FRACTION_SPAN
    };
    let wide: u128 = whole as u128;
    let scaled: u128 = wide * 1_000_000;
    proof {
        lemma_pow2_128();
        assert(scaled < 0x20_0000_0000_0000 * 1_000_000);
    }
    if exponent >= EXPONENT_OF_UNITS {
        let up: u64 = exponent - EXPONENT_OF_UNITS;
        if up >= 128 {
            proof {
                lemma_pow2_strictly_increases(128, (up + 1) as nat);
                lemma_pow2_unfold((up + 1) as nat);
                assert(pow2(up as nat) >= pow2(128) / 2);
                assert(scaled >= 0x10_0000_0000_0000 * 1_000_000);
                assert(scaled * pow2(up as nat) > u128::MAX) by (nonlinear_arith)
                    requires
                        scaled >= 0x10_0000_0000_0000 * 1_000_000,
                        pow2(up as nat) >= 0x8000_0000_0000_0000_0000_0000_0000_0000,
                ;
            }
            None
        } else {
            let factor: u128 = power_of_two(up);
            scaled.checked_mul(factor)
        }
    } else {
        let down: u64 = if exponent == 0 {
            1074
        } else {
            EXPONENT_OF_UNITS - exponent
        };
        if down >= 128 {
            proof {
                let half = pow2((down - 1) as nat);
                lemma_pow2_unfold(down as nat);
                if down > 128 {
                    lemma_pow2_strictly_increases(127, (down - 1) as nat);
                }
                lemma_pow2_unfold(128);
                assert(half >= pow2(127));
                assert(scaled < half);
                assert((scaled + half) / (pow2(down as nat) as int) == 0) by (nonlinear_arith)
                    requires
                        0 <= scaled < half,
                        pow2(down as nat) == 2 * half,
                ;
            }
            Some(0)
        } else {
            let divisor: u128 = power_of_two(down);
            let half: u128 = divisor / 2;
            proof {
                lemma_pow2_unfold(down as nat);
                lemma_pow2_pos(down as nat);
                lemma_pow2_strictly_increases((down - 1) as nat, 127);
                lemma_pow2_unfold(128);
            }
            Some((scaled + half) / divisor)
        }
    }
}

impl Amount {
    /// Reads an amount from the bits of a binary64 number, see
    /// [`exact_amount`]: the nearest whole millionth of a finite number that
    /// is not negative, `None` for anything else.
    pub fn from_binary64_bits(bits: u64) -> (r: Option<Amount>)
        ensures
            r == exact_amount(bits),
    {
        let exponent: u64 = bits / FRACTION_SPAN % 2048;
        if exponent == EXPONENT_SPECIAL {
            return None;
        }
        if bits >= SIGN_BIT && bits != SIGN_BIT {
            proof {
                lemma_nonzero_below_sign(bits);
            }
            return None;
        }
        proof {
            if bits == SIGN_BIT {
                assert(significand(bits) == 0);
            }
        }
        match read_magnitude(bits) {
            Some(micros) => Some(Amount { micros }),
            None => None,
        }
    }

    /// Reads an amount from the bits of a binary64 number and keeps it within
    /// what an amount can hold, see [`clamped_amount`].
    pub fn clamped_from_binary64_bits(bits: u64) -> (r: Amount)
        ensures
            r == clamped_amount(bits),
    {
        let exponent: u64 = bits / FRACTION_SPAN % 2048;
        let fraction: u64 = bits % FRACTION_SPAN;
        if exponent == EXPONENT_SPECIAL && fraction != 0 {
            return Amount { micros: u128::MAX };
        }
        if bits >= SIGN_BIT {
            return Amount { micros: 0 };
        }
        if exponent == EXPONENT_SPECIAL {
            return Amount { micros: u128::MAX };
        }
        match read_magnitude(bits) {
            Some(micros) => Amount { micros },
            None => Amount { micros: u128::MAX },
        }
    }
}

/// A pattern with the sign bit and any other bit set has a significand other
/// than zero.
proof fn lemma_nonzero_below_sign(bits: u64)
    requires
        bits > 0x8000_0000_0000_0000,
    ensures
        significand(bits) != 0,
{
    if exponent_field(bits) == 0 {
        assert(bits as int / 0x10_0000_0000_0000 == 2048);
    }
}

} // verus!
