//! Slow, fallback algorithm for the cases that the Eisel-Lemire algorithm
//! cannot round.

use crate::dec2flt::arith::lemma_low_mask;
use crate::dec2flt::common::Fp;
use crate::dec2flt::decimal::{decimal_model, leading_digit, left_shift_model, lemma_leading_digit, lemma_left_shift_progress, lemma_right_shift_nonzero, lemma_right_shift_progress, parse_decimal, right_shift_model, round_model, DecimalModel, DECIMAL_POINT_RANGE, MAX_SHIFT};
use crate::dec2flt::digits::{digit_count, lemma_digit_count_bounds, lemma_pow10, lemma_pow10_adds, lemma_pow10_increases, lemma_pow10_values, pow10};
use crate::dec2flt::float::{fields_fit, lemma_format, RawFloat};
use crate::dec2flt::laws::lemma_slow_path_literal;
use crate::dec2flt::parse::{literal_denominator, literal_numerator};
use crate::dec2flt::rounding::nearest;
use vstd::arithmetic::power2::{lemma2_to64, lemma2_to64_rest, lemma_pow2_pos, pow2};
use vstd::prelude::*;

verus! {

/// The number of entries of [`POWERS`].
pub const NUM_POWERS: usize = 19;

/// For each number `n` of decimal digits below [`NUM_POWERS`], the largest
/// shift that takes a number of `n` digits before the point to one below ten:
/// the largest `s` with `2^s <= 10^n`.
pub const POWERS: [u8; 19] = [0, 3, 6, 9, 13, 16, 19, 23, 26, 29, 33, 36, 39, 43, 46, 49, 53, 56, 59];

/// The shift for a decimal point that is `n` places off: the entry of
/// [`POWERS`], or [`MAX_SHIFT`] where the table ends.
pub open spec fn shift_for(n: int) -> nat {
    if 0 <= n < NUM_POWERS {
        POWERS[n] as nat
    } else {
        MAX_SHIFT as nat
    }
}

/// The shift for a decimal point that is `n` places off.
pub fn get_shift(n: usize) -> (r: usize)
    ensures
        r == shift_for(n as int),
        r <= MAX_SHIFT,
        n >= 1 ==> r >= 3,
{
    if n < NUM_POWERS {
        POWERS[n] as usize
    } else {
        MAX_SHIFT
    }
}

/// The shifts are at most [`MAX_SHIFT`], and at least three from one place
/// on; and the shift for `n` places is a power of two that does not exceed
/// `10^n`.
pub proof fn lemma_shift_for(n: int)
    ensures
        shift_for(n) <= MAX_SHIFT,
        n >= 1 ==> shift_for(n) >= 3,
        n >= 0 ==> pow2(shift_for(n)) <= pow10(n as nat),
{
    lemma2_to64();
    lemma2_to64_rest();
    lemma_pow10_values();
    if n >= 19 {
        lemma_pow10_increases(19, n as nat);
    }
}

/// A decimal with the binary exponent that belongs to it: together they
/// stand for `decimal * 2^exp2`.
pub struct Scaled {
    pub decimal: DecimalModel,
    pub exp2: int,
}

/// How far `m` is from a decimal point of zero, from above: ten for each
/// place, and the leading digit.
pub open spec fn distance_down(m: DecimalModel) -> nat {
    if m.decimal_point > 0 {
        (m.decimal_point * 10 + leading_digit(m.significand)) as nat
    } else {
        0
    }
}

/// How far `m` is from the numbers of one half and more, from below: ten
/// for each place, and what the leading digit lacks to ten.
pub open spec fn distance_up(m: DecimalModel) -> nat {
    if m.decimal_point <= 0 && leading_digit(m.significand) <= 9 {
        (-m.decimal_point * 10 + 10 - leading_digit(m.significand)) as nat
    } else {
        0
    }
}

/// A division by the shift for its decimal point brings `m` closer to a
/// decimal point of zero.
pub proof fn lemma_scale_down_step(m: DecimalModel)
    requires
        m.decimal_point > 0,
        m.significand > 0,
    ensures
        distance_down(right_shift_model(m, shift_for(m.decimal_point))) < distance_down(m),
{
    let shift = shift_for(m.decimal_point);
    lemma_shift_for(m.decimal_point);
    lemma_right_shift_progress(m, shift);
    lemma_leading_digit(m.significand);
    let r = right_shift_model(m, shift);
    if r.significand > 0 {
        lemma_leading_digit(r.significand);
    }
}

/// A multiplication by a power of two, from two on, brings `m` closer to
/// the numbers of one half and more.
pub proof fn lemma_scale_up_step(m: DecimalModel, shift: nat)
    requires
        m.decimal_point <= 0,
        m.significand > 0,
        shift >= 1,
    ensures
        distance_up(left_shift_model(m, shift)) < distance_up(m),
{
    lemma_left_shift_progress(m, shift);
    lemma_leading_digit(m.significand);
    let r = left_shift_model(m, shift);
    lemma_leading_digit(r.significand);
}

/// Divides `m` by powers of two until its decimal point is at zero or to
/// the left of it, and counts the powers in `exp2`.
pub open spec fn scale_down(m: DecimalModel, exp2: int) -> Scaled
    decreases distance_down(m),
{
    if m.decimal_point > 0 && m.significand > 0 {
        let shift = shift_for(m.decimal_point);
        proof {
            lemma_scale_down_step(m);
        }
        scale_down(right_shift_model(m, shift), exp2 + shift)
    } else {
        Scaled { decimal: m, exp2 }
    }
}

/// The shift that brings `m`, a number below one, closer to the numbers
/// from one half on.
pub open spec fn shift_up_for(m: DecimalModel) -> nat {
    if m.decimal_point == 0 {
        if leading_digit(m.significand) < 2 {
            2
        } else {
            1
        }
    } else {
        shift_for(-m.decimal_point)
    }
}

/// Whether the scaling up goes on at `m`: `m` is below one half.
pub open spec fn below_half(m: DecimalModel) -> bool {
    m.decimal_point <= 0 && m.significand > 0 && !(m.decimal_point == 0 && leading_digit(
        m.significand,
    ) >= 5)
}

/// A number below one half stays below one when it is multiplied by the
/// power of two that [`shift_up_for`] names for it.
pub proof fn lemma_scale_up_stays(m: DecimalModel)
    requires
        below_half(m),
    ensures
        left_shift_model(m, shift_up_for(m)).decimal_point <= 0,
        shift_up_for(m) >= 1,
        shift_up_for(m) <= MAX_SHIFT,
{
    let d = m.significand;
    let n = digit_count(d);
    let shift = shift_up_for(m);
    let p = pow2(shift);
    let e = d * p;
    lemma_shift_for(-m.decimal_point);
    lemma2_to64();
    vstd::arithmetic::power2::lemma_pow2_pos(shift);
    lemma_leading_digit(d);
    lemma_digit_count_bounds(d);
    lemma_left_shift_progress(m, shift);
    crate::dec2flt::decimal::lemma_normalized(e, m.decimal_point - n, m.truncated);
    lemma_pow10((n - 1) as nat);
    // d * 2^shift < 10^(n - decimal_point)
    let k = (-m.decimal_point) as nat;
    lemma_pow10_adds(n, k);
    lemma_pow10(k);
    if m.decimal_point < 0 {
        assert(e < pow10(n + k)) by (nonlinear_arith)
            requires
                e == d * p,
                d < pow10(n),
                p <= pow10(k),
                pow10(n + k) == pow10(n) * pow10(k),
                p > 0,
        ;
    } else {
        let a = leading_digit(d);
        let u = pow10((n - 1) as nat);
        assert(e < 10 * u) by (nonlinear_arith)
            requires
                e == d * p,
                d < (a + 1) * u,
                (a < 2 && p == 4) || (a < 5 && p == 2),
                u > 0,
        ;
        assert(pow10(0) == 1);
        assert(pow10(n) * 1 == pow10(n));
    }
    lemma_digit_count_bounds(e);
    if digit_count(e) > n + k {
        lemma_pow10_increases(n + k, (digit_count(e) - 1) as nat);
    }
}

/// Multiplies `m`, a number below one, by powers of two until it is one
/// half or more, and counts the powers in `exp2`.
pub open spec fn scale_up(m: DecimalModel, exp2: int) -> Scaled
    decreases distance_up(m),
{
    if below_half(m) {
        let shift = shift_up_for(m);
        proof {
            lemma_shift_for(-m.decimal_point);
            lemma_scale_up_step(m, shift);
        }
        scale_up(left_shift_model(m, shift), exp2 - shift)
    } else {
        Scaled { decimal: m, exp2 }
    }
}

/// Divides `m` by powers of two until the binary exponent `exp2` has
/// reached that of the smallest normal number, as subnormal numbers ask for.
pub open spec fn lift_model<F: RawFloat>(m: DecimalModel, exp2: int) -> Scaled
    decreases F::MINIMUM_EXPONENT + 1 - exp2,
{
    if F::MINIMUM_EXPONENT + 1 > exp2 {
        let gap = F::MINIMUM_EXPONENT + 1 - exp2;
        let shift = if gap > MAX_SHIFT {
            MAX_SHIFT as nat
        } else {
            gap as nat
        };
        lift_model::<F>(right_shift_model(m, shift), exp2 + shift)
    } else {
        Scaled { decimal: m, exp2 }
    }
}

/// The result for `m * 2^(exp2 + 1)`, where `m` is a number from one half
/// up to one: `m` is scaled to a significand with the hidden bit at its
/// top, and rounded to an integer; a significand that the rounding carries
/// to the next power of two is halved, and rounded again.
pub open spec fn finish_model<F: RawFloat>(m: DecimalModel, exp2: int) -> Fp {
    let bits = F::MANTISSA_EXPLICIT_BITS as nat;
    let lifted = lift_model::<F>(m, exp2);
    let scaled = left_shift_model(lifted.decimal, bits + 1);
    let first = round_model(scaled);
    let carried = first >= pow2(bits + 1);
    let mantissa = if carried {
        round_model(right_shift_model(scaled, 1))
    } else {
        first
    };
    let exponent = if carried {
        lifted.exp2 + 1
    } else {
        lifted.exp2
    };
    if lifted.exp2 - F::MINIMUM_EXPONENT >= F::INFINITE_POWER || exponent - F::MINIMUM_EXPONENT
        >= F::INFINITE_POWER {
        Fp { mantissa: 0, power2: F::INFINITE_POWER }
    } else {
        Fp {
            mantissa: (mantissa % pow2(bits)) as u64,
            power2: (if mantissa < pow2(bits) {
                exponent - F::MINIMUM_EXPONENT - 1
            } else {
                exponent - F::MINIMUM_EXPONENT
            }) as i32,
        }
    }
}

/// What the slow path yields for the decimal `m` in the format `F`.
pub open spec fn long_mantissa_model<F: RawFloat>(m: DecimalModel) -> Fp {
    if m.significand == 0 || m.decimal_point < -324 {
        Fp { mantissa: 0, power2: 0 }
    } else if m.decimal_point >= 310 {
        Fp { mantissa: 0, power2: F::INFINITE_POWER }
    } else {
        let down = scale_down(m, 0);
        let up = scale_up(down.decimal, down.exp2);
        finish_model::<F>(up.decimal, up.exp2 - 1)
    }
}

/// The lifting ends at the binary exponent of the smallest normal number,
/// or where it began, if that is above.
pub proof fn lemma_lift_floor<F: RawFloat>(m: DecimalModel, exp2: int)
    ensures
        lift_model::<F>(m, exp2).exp2 == if exp2 < F::MINIMUM_EXPONENT + 1 {
            F::MINIMUM_EXPONENT + 1
        } else {
            exp2
        },
    decreases F::MINIMUM_EXPONENT + 1 - exp2,
{
    if F::MINIMUM_EXPONENT + 1 > exp2 {
        let gap = F::MINIMUM_EXPONENT + 1 - exp2;
        let shift = if gap > MAX_SHIFT {
            MAX_SHIFT as nat
        } else {
            gap as nat
        };
        lemma_lift_floor::<F>(right_shift_model(m, shift), exp2 + shift);
    }
}

/// The fields that the slow path yields fit their places.
pub proof fn lemma_long_mantissa_fits<F: RawFloat>(m: DecimalModel)
    ensures
        fields_fit::<F>(long_mantissa_model::<F>(m)),
{
    lemma_format::<F>();
    let bits = F::MANTISSA_EXPLICIT_BITS as nat;
    lemma_pow2_pos(bits);
    if !(m.significand == 0 || m.decimal_point < -324) && m.decimal_point < 310 {
        let down = scale_down(m, 0);
        let up = scale_up(down.decimal, down.exp2);
        lemma_lift_floor::<F>(up.decimal, up.exp2 - 1);
        let lifted = lift_model::<F>(up.decimal, up.exp2 - 1);
        let scaled = left_shift_model(lifted.decimal, bits + 1);
        let first = round_model(scaled);
        let mantissa = if first >= pow2(bits + 1) {
            round_model(right_shift_model(scaled, 1))
        } else {
            first
        };
        vstd::arithmetic::div_mod::lemma_mod_bound(mantissa as int, pow2(bits) as int);
    }
}

/// Parse the significant digits and biased, binary exponent of a float.
///
/// This is a fallback algorithm that uses a big-decimal representation of
/// the literal, and therefore is considerably slower than the faster
/// approximations. The decimal is shifted until it is a number from one
/// half up to one, which fixes the binary exponent; then it is shifted to
/// expose the bits of the significand, and rounded with all of its digits.
///
/// The result is the value of the format that is nearest to the number
/// that the literal denotes, with ties going to the even significand,
/// whether the decimal holds all of its digits or not.
pub fn parse_long_mantissa<F: RawFloat>(s: &[u8]) -> (r: Fp)
    ensures
        r == long_mantissa_model::<F>(decimal_model(s@)),
        fields_fit::<F>(r),
        r == nearest::<F>(literal_numerator(s@), literal_denominator(s@)),
{
    let length = s.len();
    proof {
        assert(s@.len() == length);
        lemma_slow_path_literal::<F>(s@);
        lemma_format::<F>();
        lemma2_to64();
        lemma2_to64_rest();
    }
    let am_zero = Fp::zero_pow2(0);
    let am_inf = Fp::zero_pow2(F::INFINITE_POWER);

    let mut d = parse_decimal(s);
    let ghost target = long_mantissa_model::<F>(d@);
    proof {
        d.lemma_wf();
    }

    if d.num_digits == 0 || d.decimal_point < -324 {
        return am_zero;
    } else if d.decimal_point >= 310 {
        return am_inf;
    }
    let mut exp2 = 0_i32;
    proof {
        lemma_leading_digit(d@.significand);
    }
    while d.decimal_point > 0
        invariant
            d.wf(),
            d@.significand > 0,
            -1000 <= d.decimal_point < 310,
            target == finish_model::<F>(
                scale_up(
                    scale_down(d@, exp2 as int).decimal,
                    scale_down(d@, exp2 as int).exp2,
                ).decimal,
                scale_up(
                    scale_down(d@, exp2 as int).decimal,
                    scale_down(d@, exp2 as int).exp2,
                ).exp2 - 1,
            ),
            0 <= exp2,
            exp2 + 60 * distance_down(d@) <= 60 * 3100,
        decreases distance_down(d@),
    {
        let n = d.decimal_point as usize;
        let shift = get_shift(n);
        proof {
            d.lemma_wf();
            lemma_scale_down_step(d@);
            lemma_right_shift_progress(d@, shift as nat);
            lemma_right_shift_nonzero(d@, shift as nat);
        }
        d.right_shift(shift);
        if d.decimal_point < -DECIMAL_POINT_RANGE {
            return am_zero;
        }
        exp2 += shift as i32;
    }
    proof {
        d.lemma_wf();
        lemma_leading_digit(d@.significand);
    }
    while d.decimal_point <= 0
        invariant
            d.wf(),
            d@.significand > 0,
            -DECIMAL_POINT_RANGE <= d.decimal_point <= DECIMAL_POINT_RANGE,
            target == finish_model::<F>(
                scale_up(d@, exp2 as int).decimal,
                scale_up(d@, exp2 as int).exp2 - 1,
            ),
            -60 * 20500 <= exp2 - 60 * distance_up(d@),
            exp2 <= 60 * 3100,
        ensures
            d.wf(),
            d.decimal_point <= DECIMAL_POINT_RANGE,
            target == finish_model::<F>(d@, exp2 - 1),
            -60 * 20500 <= exp2 <= 60 * 3100,
        decreases distance_up(d@),
    {
        proof {
            d.lemma_wf();
            lemma_shift_for(-d.decimal_point);
        }
        let shift;
        if d.decimal_point == 0 {
            let digit = d.digits[0];
            if digit >= 5 {
                break ;
            }
            shift = if digit < 2 {
                2
            } else {
                1
            };
        } else {
            shift = get_shift((-d.decimal_point) as usize);
        }
        proof {
            lemma_scale_up_step(d@, shift as nat);
            lemma_left_shift_progress(d@, shift as nat);
            lemma_scale_up_stays(d@);
        }
        d.left_shift(shift);
        if d.decimal_point > DECIMAL_POINT_RANGE {
            return am_inf;
        }
        exp2 -= shift as i32;
    }
    exp2 -= 1;
    while (F::MINIMUM_EXPONENT + 1) > exp2
        invariant
            d.wf(),
            d.decimal_point <= DECIMAL_POINT_RANGE,
            finish_model::<F>(d@, exp2 as int) == target,
            -60 * 20500 - 1 <= exp2 <= 60 * 3100,
            F::MINIMUM_EXPONENT == -127 || F::MINIMUM_EXPONENT == -1023,
        decreases F::MINIMUM_EXPONENT + 1 - exp2,
    {
        let mut n = ((F::MINIMUM_EXPONENT + 1) - exp2) as usize;
        if n > MAX_SHIFT {
            n = MAX_SHIFT;
        }
        proof {
            d.lemma_wf();
            if d@.significand > 0 {
                lemma_right_shift_progress(d@, n as nat);
            }
        }
        d.right_shift(n);
        exp2 += n as i32;
    }
    if (exp2 - F::MINIMUM_EXPONENT) >= F::INFINITE_POWER {
        return am_inf;
    }
    d.left_shift(F::MANTISSA_EXPLICIT_BITS + 1);
    let mut mantissa = d.round();
    proof {
        vstd::bits::lemma_u64_shl_is_mul(1, (F::MANTISSA_EXPLICIT_BITS + 1) as u64);
        vstd::bits::lemma_u64_shl_is_mul(1, F::MANTISSA_EXPLICIT_BITS as u64);
    }
    if mantissa >= (1_u64 << (F::MANTISSA_EXPLICIT_BITS + 1)) {
        d.right_shift(1);
        exp2 += 1;
        mantissa = d.round();
        if (exp2 - F::MINIMUM_EXPONENT) >= F::INFINITE_POWER {
            return am_inf;
        }
    }
    let mut power2 = exp2 - F::MINIMUM_EXPONENT;
    if mantissa < (1_u64 << F::MANTISSA_EXPLICIT_BITS) {
        power2 -= 1;
    }
    proof {
        lemma_low_mask(mantissa, F::MANTISSA_EXPLICIT_BITS as u64);
    }
    mantissa &= (1_u64 << F::MANTISSA_EXPLICIT_BITS) - 1;
    Fp { mantissa, power2 }
}

} // verus!
