//! The Eisel-Lemire algorithm: a candidate result from one or two 64-bit
//! multiplications with a tabulated power of five.

use crate::dec2flt::arith::{clear_bit, lemma_clear_bit, lemma_low_bits, lemma_normalize_word, lemma_shr, two64};
use crate::dec2flt::common::Fp;
use crate::dec2flt::float::{lemma_format, same_encoding, RawFloat};
use crate::dec2flt::rounding::nearest;
use crate::dec2flt::soundness::{lemma_compute_float_sound, power_denominator, power_numerator};
use crate::dec2flt::table::{power_of_five, power_of_five_128, LARGEST_POWER_OF_FIVE, SMALLEST_POWER_OF_FIVE};
use vstd::arithmetic::power2::{lemma2_to64, lemma2_to64_rest, lemma_pow2_adds, lemma_pow2_pos, pow2};
use vstd::bits::{lemma_u64_low_bits_mask_is_mod, lemma_u64_shl_is_mul, low_bits_mask};
use vstd::prelude::*;
use vstd::std_specs::bits::u64_leading_zeros;

verus! {

/// An estimate of the binary exponent of `10^q`, offset by 63:
/// `floor(q * 217706 / 2^16) + 63`, where `217706 / 2^16` approximates
/// `log2(10)`.
pub open spec fn power_model(q: int) -> int {
    (q * 217706) / 65536 + 63
}

/// The two words that the product approximation of `w` and the number of
/// 128 bits with the upper word `upper` and the lower word `lower` yields,
/// lower word first.
///
/// `w` is multiplied with `upper`. Only if the low `64 - precision` bits of
/// the upper half of that product are all set, the product with `lower` is
/// taken into account: its upper half is added to the lower half of the
/// first product, and a carry goes to the upper half.
pub open spec fn product_words(w: nat, upper: nat, lower: nat, precision: nat) -> (nat, nat) {
    let first = w * upper;
    let first_lo = first % two64();
    let first_hi = first / two64();
    let low = if precision < 64 {
        pow2((64 - precision) as nat)
    } else {
        two64()
    };
    if first_hi % low == low - 1 {
        let second_hi = (w * lower) / two64();
        let sum = first_lo + second_hi;
        if sum >= two64() {
            ((sum - two64()) as nat, first_hi + 1)
        } else {
            (sum, first_hi)
        }
    } else {
        (first_lo, first_hi)
    }
}

/// The two words that the product approximation of `w * 5^q` yields, lower
/// word first: the words of the product of `w` and the table entry for
/// `5^q`.
pub open spec fn product_approx_model(q: int, w: nat, precision: nat) -> (nat, nat)
    recommends
        SMALLEST_POWER_OF_FIVE <= q <= LARGEST_POWER_OF_FIVE,
        precision <= 64,
{
    product_words(w, power_of_five_128(q).0 as nat, power_of_five_128(q).1 as nat, precision)
}

/// The upper bit of the upper word of a product: whether the product has
/// 128 bits, or 127.
pub open spec fn upper_bit(hi: nat) -> nat {
    hi / pow2(63)
}

/// The shift that takes the upper word of a product to a significand with
/// its hidden bit and one bit more.
pub open spec fn significand_shift<F: RawFloat>(hi: nat) -> nat {
    (upper_bit(hi) + 61 - F::MANTISSA_EXPLICIT_BITS) as nat
}

/// The significand of a product, with its hidden bit and one bit more: the
/// top bits of the upper word.
pub open spec fn wide_significand<F: RawFloat>(hi: nat) -> nat {
    hi / pow2(significand_shift::<F>(hi))
}

/// Whether the product of `lo` and `hi` is taken for a tie between two
/// values of the format of which the lower is the even one: the product is
/// an odd wide significand with nothing below it, for an exponent `q` for
/// which that can be.
pub open spec fn tie_detected<F: RawFloat>(q: int, lo: nat, hi: nat) -> bool {
    &&& lo <= 1
    &&& F::MIN_EXPONENT_ROUND_TO_EVEN <= q <= F::MAX_EXPONENT_ROUND_TO_EVEN
    &&& wide_significand::<F>(hi) % 4 == 1
    &&& wide_significand::<F>(hi) * pow2(significand_shift::<F>(hi)) == hi
}

/// What the Eisel-Lemire algorithm makes of the two words `lo` and `hi` of
/// a product, for a decimal exponent `q` and a significand that was shifted
/// by `lz` bits: the top bits of `hi` are the significand, with one bit
/// more that decides the rounding, and the binary exponent follows from
/// `q`, `lz` and the length of the product.
pub open spec fn rounded_product<F: RawFloat>(q: int, lz: int, lo: nat, hi: nat) -> Fp {
    let bits = F::MANTISSA_EXPLICIT_BITS as nat;
    let mantissa = wide_significand::<F>(hi);
    let power2 = power_model(q) + upper_bit(hi) - lz - F::MINIMUM_EXPONENT;
    if power2 <= 0 {
        if -power2 + 1 >= 64 {
            Fp { mantissa: 0, power2: 0 }
        } else {
            let cut = mantissa / pow2((-power2 + 1) as nat);
            let rounded = (cut + cut % 2) / 2;
            Fp {
                mantissa: rounded as u64,
                power2: if rounded >= pow2(bits) {
                    1
                } else {
                    0
                },
            }
        }
    } else {
        let even = if tie_detected::<F>(q, lo, hi) {
            (mantissa - 1) as nat
        } else {
            mantissa
        };
        let rounded = (even + even % 2) / 2;
        let carried = rounded >= 2 * pow2(bits);
        let significand = if carried {
            pow2(bits)
        } else {
            rounded
        };
        let exponent = if carried {
            power2 + 1
        } else {
            power2
        };
        if exponent >= F::INFINITE_POWER {
            Fp { mantissa: 0, power2: F::INFINITE_POWER }
        } else {
            Fp { mantissa: clear_bit(significand, bits) as u64, power2: exponent as i32 }
        }
    }
}

/// What the Eisel-Lemire algorithm yields for `w * 10^q` in the format `F`.
///
/// A `power2` of `-1` marks a product approximation that is too close to
/// a rounding boundary to be trusted.
pub open spec fn compute_float_model<F: RawFloat>(q: int, w: u64) -> Fp {
    let bits = F::MANTISSA_EXPLICIT_BITS as nat;
    if w == 0 || q < F::SMALLEST_POWER_OF_TEN {
        Fp { mantissa: 0, power2: 0 }
    } else if q > F::LARGEST_POWER_OF_TEN {
        Fp { mantissa: 0, power2: F::INFINITE_POWER }
    } else {
        let lz = u64_leading_zeros(w);
        let (lo, hi) = product_approx_model(q, (w * pow2(lz as nat)) as nat, bits + 3);
        if lo == two64() - 1 && !(-27 <= q <= 55) {
            Fp { mantissa: 0, power2: -1i32 }
        } else {
            rounded_product::<F>(q, lz, lo, hi)
        }
    }
}

/// Compute a float using an extended-precision representation.
///
/// The significant digits `w` and the decimal exponent `q` are scaled with a
/// pre-computed power of five, and the 128-bit product is rounded to the
/// nearest value of the format where that is unambiguous. A result with a
/// negative `power2` stands for an ambiguous product; every other result
/// makes the encoding of the value of the format that is nearest to
/// `w * 10^q`.
pub fn compute_float<F: RawFloat>(q: i64, w: u64) -> (r: Fp)
    ensures
        r == compute_float_model::<F>(q as int, w),
        r.power2 >= 0 ==> same_encoding::<F>(
            r,
            nearest::<F>(power_numerator(w as nat, q as int), power_denominator(q as int)),
        ),
{
    proof {
        if compute_float_model::<F>(q as int, w).power2 >= 0 {
            lemma_compute_float_sound::<F>(q as int, w);
        }
        lemma_format::<F>();
        lemma2_to64();
        lemma2_to64_rest();
    }
    let am_zero = Fp::zero_pow2(0);
    let am_inf = Fp::zero_pow2(F::INFINITE_POWER);
    let am_error = Fp::zero_pow2(-1);

    if w == 0 || q < F::SMALLEST_POWER_OF_TEN as i64 {
        return am_zero;
    } else if q > F::LARGEST_POWER_OF_TEN as i64 {
        return am_inf;
    }
    let lz = w.leading_zeros();
    proof {
        lemma_normalize_word(w);
    }
    let w = w << lz;
    let (lo, hi) = compute_product_approx(q, w, F::MANTISSA_EXPLICIT_BITS + 3);
    if lo == 0xFFFF_FFFF_FFFF_FFFF {
        let inside_safe_exponent = (q >= -27) && (q <= 55);
        if !inside_safe_exponent {
            return am_error;
        }
    }
    proof {
        lemma_shr(hi, 63);
    }
    let upperbit = (hi >> 63) as i32;
    let shift = (upperbit + 64 - F::MANTISSA_EXPLICIT_BITS as i32 - 3) as u32;
    proof {
        lemma_shr(hi, shift as u64);
    }
    let mut mantissa = hi >> shift;
    let ghost mantissa0 = mantissa;
    assert(mantissa as nat * pow2(shift as nat) <= hi) by (nonlinear_arith)
        requires
            mantissa as nat == hi as nat / pow2(shift as nat),
            pow2(shift as nat) > 0,
    ;
    assert(mantissa < 0x80_0000_0000_0000) by {
        lemma_pow2_adds(shift as nat, 55);
        assert(pow2(shift as nat) >= 512) by {
            vstd::arithmetic::power2::lemma_pow2_strictly_increases(8, shift as nat);
        }
        assert(mantissa as nat * 512 <= mantissa as nat * pow2(shift as nat)) by (nonlinear_arith)
            requires
                pow2(shift as nat) >= 512,
        ;
    }
    let mut power2 = power(q as i32) + upperbit - lz as i32 - F::MINIMUM_EXPONENT;
    if power2 <= 0 {
        if -power2 + 1 >= 64 {
            return am_zero;
        }
        proof {
            lemma_shr(mantissa, (-power2 + 1) as u64);
        }
        mantissa >>= (-power2 + 1) as u32;
        proof {
            lemma_low_bits(mantissa);
            lemma_shr((mantissa + mantissa % 2) as u64, 1);
        }
        mantissa += mantissa & 1;
        mantissa >>= 1;
        proof {
            lemma_u64_shl_is_mul(1, F::MANTISSA_EXPLICIT_BITS as u64);
        }
        power2 = if mantissa >= (1_u64 << F::MANTISSA_EXPLICIT_BITS) {
            1
        } else {
            0
        };
        return Fp { mantissa, power2 };
    }
    proof {
        lemma_low_bits(mantissa);
        lemma_u64_shl_is_mul(mantissa, shift as u64);
    }
    if lo <= 1 && q >= F::MIN_EXPONENT_ROUND_TO_EVEN as i64 && q
        <= F::MAX_EXPONENT_ROUND_TO_EVEN as i64 && mantissa & 3 == 1 && (mantissa << shift) == hi {
        assert(mantissa & !1u64 == mantissa - 1) by (bit_vector)
            requires
                mantissa & 3 == 1,
        ;
        mantissa &= !1_u64;
    }
    proof {
        lemma_low_bits(mantissa);
        lemma_shr((mantissa + mantissa % 2) as u64, 1);
        lemma_u64_shl_is_mul(1, F::MANTISSA_EXPLICIT_BITS as u64);
        lemma_u64_shl_is_mul(2, F::MANTISSA_EXPLICIT_BITS as u64);
    }
    mantissa += mantissa & 1;
    mantissa >>= 1;
    if mantissa >= (2_u64 << F::MANTISSA_EXPLICIT_BITS) {
        mantissa = 1_u64 << F::MANTISSA_EXPLICIT_BITS;
        power2 += 1;
    }
    proof {
        lemma_clear_bit(mantissa, F::MANTISSA_EXPLICIT_BITS as u64);
    }
    mantissa &= !(1_u64 << F::MANTISSA_EXPLICIT_BITS);
    if power2 >= F::INFINITE_POWER {
        return am_inf;
    }
    Fp { mantissa, power2 }
}

/// The estimate [`power_model`] of a binary exponent, for a decimal exponent
/// within the range of the table of powers of five.
pub fn power(q: i32) -> (r: i32)
    requires
        SMALLEST_POWER_OF_FIVE <= q <= LARGEST_POWER_OF_FIVE,
    ensures
        r == power_model(q as int),
{
    let t: i32 = q.wrapping_mul(152_170 + 65536);
    assert(t == q * 217706);
    assert(t >> 16 == (t + 0x4000_0000) / 65536 - 0x4000) by (bit_vector)
        requires
            -0x1000_0000 <= t < 0x1000_0000,
    ;
    (t >> 16) + 63
}

/// The full product of two words, as its lower and its upper half.
pub fn full_multiplication(a: u64, b: u64) -> (r: (u64, u64))
    ensures
        r.0 == (a as nat * b as nat) % two64(),
        r.1 == (a as nat * b as nat) / two64(),
{
    assert(a as nat * b as nat <= 0xFFFF_FFFF_FFFF_FFFF * 0xFFFF_FFFF_FFFF_FFFF)
        by (nonlinear_arith);
    let r = (a as u128) * (b as u128);
    assert(r as u64 == r % 0x1_0000_0000_0000_0000) by (bit_vector);
    assert((r >> 64) as u64 == r / 0x1_0000_0000_0000_0000) by (bit_vector)
        requires
            r <= 0xFFFF_FFFF_FFFF_FFFF * 0xFFFF_FFFF_FFFF_FFFF,
    ;
    (r as u64, (r >> 64) as u64)
}

/// Approximates `w * 5^q` by the two words of [`product_approx_model`], the
/// lower word first.
pub fn compute_product_approx(q: i64, w: u64, precision: usize) -> (r: (u64, u64))
    requires
        SMALLEST_POWER_OF_FIVE <= q <= LARGEST_POWER_OF_FIVE,
        precision <= 64,
    ensures
        (r.0 as nat, r.1 as nat) == product_approx_model(q as int, w as nat, precision as nat),
{
    proof {
        lemma2_to64();
        lemma2_to64_rest();
    }
    let mask = if precision < 64 {
        0xFFFF_FFFF_FFFF_FFFF_u64 >> precision
    } else {
        0xFFFF_FFFF_FFFF_FFFF_u64
    };
    let (lo5, hi5) = power_of_five(q);
    let (mut first_lo, mut first_hi) = full_multiplication(w, lo5);
    proof {
        assert(w as nat * lo5 as nat <= 0xFFFF_FFFF_FFFF_FFFF * 0xFFFF_FFFF_FFFF_FFFF)
            by (nonlinear_arith);
        if precision < 64 {
            let k = (64 - precision) as nat;
            lemma_shr(0xFFFF_FFFF_FFFF_FFFF_u64, precision as u64);
            lemma_pow2_adds(precision as nat, k);
            lemma_pow2_pos(k);
            assert(0xFFFF_FFFF_FFFF_FFFF as nat / pow2(precision as nat) == pow2(k) - 1)
                by (nonlinear_arith)
                requires
                    pow2(precision as nat) * pow2(k) == 0x1_0000_0000_0000_0000,
                    pow2(precision as nat) > 0,
                    pow2(k) > 0,
            ;
            if k < 64 {
                lemma_u64_low_bits_mask_is_mod(first_hi, k);
                assert(low_bits_mask(k) == mask);
            } else {
                assert(mask == 0xFFFF_FFFF_FFFF_FFFF_u64);
                assert(first_hi & 0xFFFF_FFFF_FFFF_FFFF_u64 == first_hi) by (bit_vector);
            }
        } else {
            assert(first_hi & 0xFFFF_FFFF_FFFF_FFFF_u64 == first_hi) by (bit_vector);
        }
    }
    let ghost entry = power_of_five_128(q as int);
    let ghost low = if precision < 64 {
        pow2((64 - precision) as nat)
    } else {
        two64()
    };
    assert(entry.0 == lo5 && entry.1 == hi5);
    assert(first_lo == (w as nat * lo5 as nat) % two64());
    assert(first_hi == (w as nat * lo5 as nat) / two64());
    assert((first_hi & mask == mask) <==> (first_hi as nat % low == low - 1));
    if first_hi & mask == mask {
        let (_, second_hi) = full_multiplication(w, hi5);
        assert(second_hi == (w as nat * hi5 as nat) / two64());
        first_lo = first_lo.wrapping_add(second_hi);
        if second_hi > first_lo {
            first_hi += 1;
        }
    }
    (first_lo, first_hi)
}

} // verus!
