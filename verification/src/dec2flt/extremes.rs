//! Numbers beyond the range of a format: those that are rounded to zero,
//! and those that are rounded to infinity.

use crate::dec2flt::common::Fp;
use crate::dec2flt::decimal::DecimalModel;
use crate::dec2flt::digits::{digit_count, lemma_digit_count_bounds, lemma_pow10, lemma_pow10_adds, lemma_pow10_increases, lemma_pow10_values, pow10};
use crate::dec2flt::float::{lemma_format, RawFloat};
use crate::dec2flt::lemire_exact::lemma_scaled_shift;
use crate::dec2flt::rounding::{in_binade, lemma_binade_exists, lemma_nearest, lemma_pow2_le, lemma_round_half_even, nearest, rounded_in_binade, scaled_den, scaled_num};
use crate::dec2flt::slow::long_mantissa_model;
use crate::dec2flt::units::{decimal_denominator, decimal_numerator, unit_exponent};
use vstd::arithmetic::power2::{lemma2_to64, lemma2_to64_rest, lemma_pow2_adds, lemma_pow2_pos, pow2};
use vstd::prelude::*;

verus! {

/// `2^(93 * j) <= 10^(28 * j)`.
pub proof fn lemma_pow2_below_pow10_tight(j: nat)
    ensures
        pow2(93 * j) <= pow10(28 * j),
    decreases j,
{
    lemma2_to64();
    lemma2_to64_rest();
    lemma_pow10_values();
    if j > 0 {
        let a = pow2(93 * (j - 1) as nat);
        let b = pow10(28 * (j - 1) as nat);
        lemma_pow2_below_pow10_tight((j - 1) as nat);
        lemma_pow10_adds(14, 14);
        lemma_pow10_adds(28 * (j - 1) as nat, 28);
        lemma_pow2_adds(46, 47);
        lemma_pow2_adds(93 * (j - 1) as nat, 93);
        assert(pow2(93) == 70368744177664 * 140737488355328);
        assert(pow10(28) == 100000000000000 * 100000000000000);
        assert(pow2(93) <= pow10(28));
        assert(a * pow2(93) <= b * pow10(28)) by (nonlinear_arith)
            requires
                a <= b,
                pow2(93) <= pow10(28),
        ;
    }
}

/// The weight that the last bit of a subnormal number has in the format
/// `F`, as an exponent of one half: `2^-subnormal_scale` is the smallest
/// positive value of the format.
pub open spec fn subnormal_scale<F: RawFloat>() -> nat {
    (F::MANTISSA_EXPLICIT_BITS - 1 - F::MINIMUM_EXPONENT) as nat
}

/// The binary exponent at which the format `F` has no finite values any
/// more.
pub open spec fn top_exponent<F: RawFloat>() -> nat {
    (F::INFINITE_POWER + F::MINIMUM_EXPONENT) as nat
}

/// A fraction below half of the smallest positive value of the format is
/// rounded to zero.
pub proof fn lemma_tiny_is_zero<F: RawFloat>(num: nat, den: nat)
    requires
        den > 0,
        2 * (num * pow2(subnormal_scale::<F>())) < den,
    ensures
        nearest::<F>(num, den) == (Fp { mantissa: 0, power2: 0 }),
{
    lemma_format::<F>();
    let zero = Fp { mantissa: 0, power2: 0 };
    if num > 0 {
        let k = subnormal_scale::<F>();
        let bits = F::MANTISSA_EXPLICIT_BITS as nat;
        lemma_binade_exists(num, den);
        let e = choose|e: int| in_binade(num, den, e);
        let up = num * pow2(k);
        if e - F::MINIMUM_EXPONENT >= 1 {
            // the fraction is at least 2^e, which is more than 2^-k
            let c = (k + e) as nat;
            lemma_scaled_shift(num, den, k as int, c);
            lemma_pow2_le(0, c);
            lemma2_to64();
            let sn = scaled_num(num, -e);
            let sd = scaled_den(den, -e);
            let pc = pow2(c);
            assert(scaled_num(num, k as int) == up);
            assert(scaled_den(den, k as int) == den);
            assert(k - c == -e);
            assert(up * sd == pc * (sn * den));
            assert(false) by (nonlinear_arith)
                requires
                    up * sd == pc * (sn * den),
                    pc >= 1,
                    sd <= sn,
                    sd > 0,
                    2 * up < den,
            ;
        }
        lemma_round_half_even(up, den, 0, up);
        lemma_pow2_pos(bits);
        assert(k == bits - 1 - F::MINIMUM_EXPONENT);
        assert(scaled_num(num, k as int) == up);
        assert(scaled_den(den, k as int) == den);
        assert(rounded_in_binade::<F>(num, den, e) == zero);
    }
    lemma_nearest::<F>(num, den, zero);
}

/// A fraction of `2^top_exponent` or more is rounded to infinity.
pub proof fn lemma_huge_is_infinite<F: RawFloat>(num: nat, den: nat)
    requires
        den > 0,
        num >= den * pow2(top_exponent::<F>()),
    ensures
        nearest::<F>(num, den) == (Fp { mantissa: 0, power2: F::INFINITE_POWER }),
{
    lemma_format::<F>();
    let top = top_exponent::<F>();
    let inf = Fp { mantissa: 0, power2: F::INFINITE_POWER };
    lemma_pow2_pos(top);
    let pt = pow2(top);
    assert(num > 0) by (nonlinear_arith)
        requires
            num >= den * pt,
            den > 0,
            pt > 0,
    ;
    lemma_binade_exists(num, den);
    let e = choose|e: int| in_binade(num, den, e);
    if e < top {
        // the fraction is below 2^(e + 1), which is at most 2^top
        let c = (top - e) as nat;
        lemma_scaled_shift(num, den, -e, c);
        lemma_pow2_le(1, c);
        lemma2_to64();
        let sn = scaled_num(num, -e);
        let sd = scaled_den(den, -e);
        let pc = pow2(c);
        assert(-e - c == -top);
        assert(scaled_num(num, -(top as int)) == num) by {
            if top == 0 {
                assert(num * 1 == num);
            }
        }
        assert(scaled_den(den, -(top as int)) == den * pt) by {
            if top == 0 {
                assert(den * 1 == den);
            }
        }
        assert(sn * (den * pt) == pc * (num * sd));
        assert(false) by (nonlinear_arith)
            requires
                sn * (den * pt) == pc * (num * sd),
                pc >= 2,
                sn < 2 * sd,
                num >= den * pt,
                den * pt > 0,
                sd > 0,
        ;
    }
    assert(rounded_in_binade::<F>(num, den, e) == inf);
    lemma_nearest::<F>(num, den, inf);
}

/// The slow path is exact for the decimals that it does not scale: one
/// below `10^-324` is rounded to zero, and one that is `10^309` or more, to
/// infinity.
pub proof fn lemma_slow_path_extremes<F: RawFloat>(m: DecimalModel)
    requires
        m.significand > 0,
        m.decimal_point < -324 || m.decimal_point >= 310,
    ensures
        long_mantissa_model::<F>(m) == nearest::<F>(decimal_numerator(m), decimal_denominator(m)),
{
    lemma_format::<F>();
    lemma2_to64();
    lemma2_to64_rest();
    lemma_pow10_values();
    let d = m.significand;
    let n = digit_count(d);
    let unit = unit_exponent(m);
    let num = decimal_numerator(m);
    let den = decimal_denominator(m);
    lemma_digit_count_bounds(d);
    lemma_pow10((n - 1) as nat);
    if m.decimal_point >= 310 {
        // the number is 10^309 or more, and 2^1026 <= 10^309
        let top = top_exponent::<F>();
        let pt = pow2(top);
        lemma_pow2_below_pow10_tight(11);
        lemma_pow10_adds(308, 1);
        lemma_pow2_adds(1023, 3);
        lemma_pow2_le(top, 1026);
        assert(pow2(1023) * pow2(3) <= pow10(308) * pow10(1)) by (nonlinear_arith)
            requires
                pow2(1023) <= pow10(308),
                pow2(3) <= pow10(1),
        ;
        lemma_pow10_increases(309, (m.decimal_point - 1) as nat);
        let low = pow10((m.decimal_point - 1) as nat);
        assert(pt <= low);
        if unit >= 0 {
            lemma_pow10_adds((n - 1) as nat, unit as nat);
            assert(num >= low) by (nonlinear_arith)
                requires
                    num == d * pow10(unit as nat),
                    d >= pow10((n - 1) as nat),
                    low == pow10((n - 1) as nat) * pow10(unit as nat),
            ;
            assert(1 * pt == pt);
        } else {
            lemma_pow10_adds((m.decimal_point - 1) as nat, (-unit) as nat);
            lemma_pow10((-unit) as nat);
            assert(num >= den * pt) by (nonlinear_arith)
                requires
                    num >= low * den,
                    pt <= low,
                    den > 0,
            ;
        }
        lemma_huge_is_infinite::<F>(num, den);
    } else {
        // the number is below 10^-324, and 2^1076 <= 10^324
        let k = subnormal_scale::<F>();
        let pk = pow2(k);
        let far = (-m.decimal_point) as nat;
        lemma_pow2_below_pow10_tight(11);
        lemma_pow10_adds(308, 16);
        lemma_pow2_adds(1023, 53);
        lemma_pow2_le(k + 1, 1076);
        lemma_pow2_adds(k, 1);
        assert(pow2(1023) * pow2(53) <= pow10(308) * pow10(16)) by (nonlinear_arith)
            requires
                pow2(1023) <= pow10(308),
                pow2(53) <= pow10(16),
        ;
        lemma_pow10_increases(324, far);
        lemma_pow10_adds(n, far);
        lemma_pow10(far);
        assert(num == d);
        assert(den == pow10(n) * pow10(far));
        assert(2 * (num * pk) < den) by (nonlinear_arith)
            requires
                num < pow10(n),
                2 * pk <= pow10(far),
                den == pow10(n) * pow10(far),
                pk > 0,
        ;
        lemma_tiny_is_zero::<F>(num, den);
    }
}

} // verus!
