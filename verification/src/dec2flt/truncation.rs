//! The slow path is exact, whether it drops digits or not: the decimal has
//! digits enough to tell on which side of every half of a last place the
//! number lies.

use crate::dec2flt::brackets::{brackets, lemma_brackets_below, lemma_brackets_close, lemma_brackets_coarser, lemma_floor_keeps, lemma_left_shift_brackets, lemma_lift_brackets, lemma_right_shift_brackets, lemma_round_model_brackets, lemma_scale_down_brackets, lemma_scale_down_grows, lemma_scale_up_brackets, lemma_weight_divides};
use crate::dec2flt::decimal::{leading_digit, lemma_left_shift_progress, lemma_right_shift_nonzero, lemma_right_shift_progress, model_wf, right_shift_model, round_model, DecimalModel, MAX_DIGITS};
use crate::dec2flt::digits::{lemma_digit_count_bounds, lemma_pow10, lemma_pow10_adds, lemma_pow10_increases, lemma_pow10_values, pow10};
use crate::dec2flt::float::{lemma_format, RawFloat};
use crate::dec2flt::rounding::{correctly_rounded, in_binade, lemma_nearest, lemma_nearest_ratio, lemma_pow2_le, lemma_round_half_even_ratio, nearest, round_half_even, rounded_in_binade, scaled_den, scaled_num};
use crate::dec2flt::slow::{finish_model, lemma_lift_floor, long_mantissa_model};
use crate::dec2flt::units::{decimal_denominator, decimal_numerator, lemma_binade_of_half, lemma_pow10_below_pow2, lemma_round_half_even_bounds, lemma_round_half_even_carry, lemma_scaled_fraction, lemma_value_bounds, lemma_weight, lifted, margin, rounded_decimal, scale, scaled_down, scaled_up, scaled_value, unit_exponent, weight};
use vstd::arithmetic::power2::{lemma2_to64, lemma2_to64_rest, lemma_pow2_adds, lemma_pow2_pos, lemma_pow2_unfold, pow2};
use vstd::prelude::*;

verus! {

/// What the slow path makes of its roundings is the nearest value of the
/// number `x`, counted in units of `10^-margin * 2^-margin`, where the first
/// rounding is the rounding of `x` at its binary exponent, and the second
/// one, after a carry, yields the power of two above.
pub proof fn lemma_finish_nearest<F: RawFloat>(m: DecimalModel, x: nat)
    requires
        m.significand > 0,
        -324 <= m.decimal_point < 310,
        x > 0,
        -1500 <= scaled_up::<F>(m).exp2 <= 1500,
        in_binade(x, scale(), scaled_up::<F>(m).exp2 - 1),
        round_model(rounded_decimal::<F>(m)) == round_half_even(
            scaled_num(x, F::MANTISSA_EXPLICIT_BITS - lifted::<F>(m).exp2),
            scaled_den(scale(), F::MANTISSA_EXPLICIT_BITS - lifted::<F>(m).exp2),
        ),
        scaled_up::<F>(m).exp2 - 1 >= F::MINIMUM_EXPONENT + 1 ==> pow2(
            F::MANTISSA_EXPLICIT_BITS as nat,
        ) <= round_model(rounded_decimal::<F>(m)) <= 2 * pow2(F::MANTISSA_EXPLICIT_BITS as nat),
        scaled_up::<F>(m).exp2 - 1 < F::MINIMUM_EXPONENT + 1 ==> round_model(
            rounded_decimal::<F>(m),
        ) <= pow2(F::MANTISSA_EXPLICIT_BITS as nat),
        round_model(rounded_decimal::<F>(m)) >= 2 * pow2(F::MANTISSA_EXPLICIT_BITS as nat)
            ==> round_model(right_shift_model(rounded_decimal::<F>(m), 1)) == pow2(
            F::MANTISSA_EXPLICIT_BITS as nat,
        ),
    ensures
        long_mantissa_model::<F>(m) == nearest::<F>(x, scale()),
{
    lemma_format::<F>();
    let bits = F::MANTISSA_EXPLICIT_BITS as nat;
    let up = scaled_up::<F>(m);
    let r = rounded_decimal::<F>(m);
    let first = round_model(r);
    let e = up.exp2 - 1;
    let result = long_mantissa_model::<F>(m);
    lemma_lift_floor::<F>(up.decimal, e);
    lemma_pow2_unfold(bits + 1);
    lemma_pow2_pos(bits);
    assert(result == finish_model::<F>(up.decimal, e));
    if e >= F::MINIMUM_EXPONENT + 1 {
        if first < 2 * pow2(bits) {
            vstd::arithmetic::div_mod::lemma_fundamental_div_mod_converse(
                first as int,
                pow2(bits) as int,
                1,
                (first - pow2(bits)) as int,
            );
        } else {
            vstd::arithmetic::div_mod::lemma_fundamental_div_mod_converse(
                pow2(bits) as int,
                pow2(bits) as int,
                1,
                0,
            );
        }
    } else {
        if first < pow2(bits) {
            vstd::arithmetic::div_mod::lemma_small_mod(first, pow2(bits));
        } else {
            vstd::arithmetic::div_mod::lemma_fundamental_div_mod_converse(
                first as int,
                pow2(bits) as int,
                1,
                0,
            );
        }
    }
    assert(result == rounded_in_binade::<F>(x, scale(), e));
    lemma_weight(0, 0, 0, 0);
    assert(correctly_rounded::<F>(x, scale(), result));
    lemma_nearest::<F>(x, scale(), result);
}

/// `10^59 <= 2^196`, and so `10^307 <= 2^1020`.
pub proof fn lemma_pow10_307()
    ensures
        pow10(307) <= pow2(1020),
{
    lemma2_to64();
    lemma2_to64_rest();
    lemma_pow10_values();
    lemma_pow10_adds(19, 19);
    lemma_pow10_adds(38, 19);
    lemma_pow10_adds(57, 2);
    lemma_pow2_adds(64, 64);
    lemma_pow2_adds(128, 64);
    lemma_pow2_adds(192, 4);
    let a = pow10(59);
    let b = pow2(196);
    assert(pow10(38) == 10000000000000000000 * 10000000000000000000);
    assert(pow10(57) == pow10(38) * 10000000000000000000);
    assert(a == pow10(57) * 100);
    assert(pow2(128) == 0x1_0000_0000_0000_0000 * 0x1_0000_0000_0000_0000);
    assert(pow2(192) == pow2(128) * 0x1_0000_0000_0000_0000);
    assert(b == pow2(192) * 16);
    assert(a <= b);
    lemma_pow10_adds(59, 59);
    lemma_pow10_adds(118, 118);
    lemma_pow10_adds(236, 59);
    lemma_pow10_adds(295, 12);
    lemma_pow2_adds(196, 196);
    lemma_pow2_adds(392, 392);
    lemma_pow2_adds(784, 196);
    lemma_pow2_adds(980, 40);
    let a2 = pow10(118);
    let b2 = pow2(392);
    assert(a2 <= b2) by (nonlinear_arith)
        requires
            a2 == a * a,
            b2 == b * b,
            0 <= a <= b,
    ;
    let a4 = pow10(236);
    let b4 = pow2(784);
    assert(a4 <= b4) by (nonlinear_arith)
        requires
            a4 == a2 * a2,
            b4 == b2 * b2,
            0 <= a2 <= b2,
    ;
    let a5 = pow10(295);
    let b5 = pow2(980);
    assert(a5 <= b5) by (nonlinear_arith)
        requires
            a5 == a4 * a,
            b5 == b4 * b,
            0 <= a4 <= b4,
            0 <= a <= b,
    ;
    assert(a5 * pow10(12) <= b5 * pow2(40)) by (nonlinear_arith)
        requires
            0 <= a5 <= b5,
            0 <= pow10(12) <= pow2(40),
    ;
}

/// `2^s <= 10^k`, for `s <= 3 * k`.
pub proof fn lemma_pow2_below(s: nat, k: nat)
    requires
        s <= 3 * k,
    ensures
        pow2(s) <= pow10(k),
    decreases k,
{
    lemma2_to64();
    lemma_pow10(0);
    if k == 0 {
    } else if s < 3 {
        lemma_pow10_increases(1, k);
        lemma_pow10(1);
    } else {
        lemma_pow2_below((s - 3) as nat, (k - 1) as nat);
        lemma_pow2_adds((s - 3) as nat, 3);
        lemma_pow10((k - 1) as nat);
        assert(pow2((s - 3) as nat) * 8 <= 10 * pow10((k - 1) as nat));
    }
}

/// `2^a <= 10^k` in units: for an exponent `a` of at most `3 * k`, where
/// `k` is not negative, and for an exponent `a` of at most `-10 * j`, where
/// `-k` is at most `3 * j`.
pub proof fn lemma_weight_below(a: int, k: int, j: nat)
    requires
        -margin() <= a,
        -margin() <= k,
        k >= 0 ==> a <= 3 * k,
        k < 0 ==> -k <= 3 * j && a <= -10 * j,
    ensures
        weight(0, a) <= weight(k, 0),
{
    let big = margin() as nat;
    lemma_pow10(big);
    lemma_pow2_pos(big);
    if k >= 0 {
        let up = if a > 0 {
            a as nat
        } else {
            0
        };
        lemma_pow2_le((a + margin()) as nat, big + up);
        lemma_pow2_adds(big, up);
        lemma_pow10_adds(big, k as nat);
        lemma_pow2_below(up, k as nat);
        assert(pow10(big) * pow2((a + margin()) as nat) <= (pow10(big) * pow10(k as nat)) * pow2(
            big,
        )) by (nonlinear_arith)
            requires
                pow2((a + margin()) as nat) <= pow2(big) * pow2(up),
                pow2(up) <= pow10(k as nat),
                pow10(big) > 0,
                pow2(big) > 0,
        ;
    } else {
        lemma_pow10_below_pow2(j);
        lemma_pow10_increases((-k) as nat, 3 * j);
        lemma_pow2_le(10 * j, (-a) as nat);
        lemma_weight_below_by(a, k);
    }
}

/// `2^a <= 10^k` in units, for negative exponents with `10^-k <= 2^-a`.
pub proof fn lemma_weight_below_by(a: int, k: int)
    requires
        -margin() <= a < 0,
        -margin() <= k < 0,
        pow10((-k) as nat) <= pow2((-a) as nat),
    ensures
        weight(0, a) <= weight(k, 0),
{
    let down = (-k) as nat;
    let fall = (-a) as nat;
    lemma_pow10_adds((k + margin()) as nat, down);
    lemma_pow2_adds((a + margin()) as nat, fall);
    lemma_pow10((k + margin()) as nat);
    lemma_pow2_pos((a + margin()) as nat);
    let ten = pow10((k + margin()) as nat);
    let two = pow2((a + margin()) as nat);
    assert((ten * pow10(down)) * two <= ten * (two * pow2(fall))) by (nonlinear_arith)
        requires
            pow10(down) <= pow2(fall),
            ten > 0,
            two > 0,
    ;
}

/// The grid that the digits of the slow path reach down to all the way lies
/// far below the number: for a decimal point `p0` and an exponent `ed` that
/// the scaling down ends with, the grid of `2^(ed + p0 - 768)`.
pub proof fn lemma_grid_below<F: RawFloat>(p0: int, ed: int)
    requires
        -324 <= p0 < 310,
        p0 > 0 ==> 0 <= ed < 10 * ((p0 + 3) / 3),
        p0 <= 0 ==> ed == 0,
    ensures
        weight(0, ed + p0 - MAX_DIGITS + 1) <= weight(p0 - 1, 0),
        ed + p0 - MAX_DIGITS > F::MINIMUM_EXPONENT - F::MANTISSA_EXPLICIT_BITS ==> weight(
            0,
            ed + p0 - MAX_DIGITS + F::MANTISSA_EXPLICIT_BITS + 2,
        ) <= weight(p0 - 1, 0),
{
    lemma_format::<F>();
    let g0 = ed + p0 - MAX_DIGITS;
    let bits = F::MANTISSA_EXPLICIT_BITS as int;
    if p0 > 0 {
        lemma_weight_below(g0 + 1, p0 - 1, 0);
        lemma_weight_below(g0 + bits + 2, p0 - 1, 0);
    } else {
        let far = (-p0) as nat;
        lemma_weight_below(g0 + 1, p0 - 1, (far + 3) / 3);
        if g0 > F::MINIMUM_EXPONENT - bits {
            // 10^(far + 1) * 10^(306 - far) <= 2^(far + 714) * 2^(306 - far)
            assert(bits == 52 && far <= 306);
            let rest = (306 - far) as nat;
            lemma_pow10_307();
            lemma_pow10_adds(far + 1, rest);
            lemma_pow2_adds(far + 714, rest);
            lemma_pow2_below(rest, rest);
            lemma_pow2_pos(rest);
            assert(pow10(far + 1) <= pow2(far + 714)) by (nonlinear_arith)
                requires
                    pow10(far + 1) * pow10(rest) <= pow2(far + 714) * pow2(rest),
                    0 < pow2(rest) <= pow10(rest),
                    pow10(far + 1) >= 0,
            ;
            lemma_weight_below_by(g0 + bits + 2, p0 - 1);
        }
    }
}

/// The decimal at the start stands for the number whose first digits it
/// holds, on every grid that its 768 digits reach down to; and the number
/// lies between the powers of ten that the decimal point names.
pub proof fn lemma_initial_brackets(m: DecimalModel, x: nat, grid: int)
    requires
        model_wf(m),
        m.significand > 0,
        -1000 <= m.decimal_point <= MAX_DIGITS,
        scaled_value(m, 0) <= x,
        m.truncated <==> scaled_value(m, 0) < x,
        x < scaled_value(m, 0) + weight(m.decimal_point - MAX_DIGITS, 0),
        m.decimal_point - MAX_DIGITS <= grid,
    ensures
        brackets(m, 0, x, grid),
        weight(m.decimal_point - 1, 0) <= x < weight(m.decimal_point, 0),
{
    let p = m.decimal_point;
    let low = p - MAX_DIGITS;
    let unit = weight(low, 0);
    let u = scaled_value(m, 0);
    let spare = (unit_exponent(m) - low) as nat;
    lemma_weight(low, 0, spare, 0);
    lemma_weight(low, 0, MAX_DIGITS as nat, 0);
    lemma2_to64();
    lemma_pow10(spare);
    lemma_pow10(MAX_DIGITS as nat);
    let k = m.significand * pow10(spare);
    let top = pow10(MAX_DIGITS as nat);
    assert(u == k * unit) by (nonlinear_arith)
        requires
            u == m.significand * (unit * (pow10(spare) * 1)),
            k == m.significand * pow10(spare),
    ;
    assert(weight(p, 0) == top * unit) by (nonlinear_arith)
        requires
            weight(p, 0) == unit * (top * 1),
    ;
    // the number lies in the cell of the decimal
    vstd::arithmetic::div_mod::lemma_fundamental_div_mod_converse(
        x as int,
        unit as int,
        k as int,
        (x - u) as int,
    );
    let t = lemma_weight_divides(low, 0, grid);
    lemma_floor_keeps(x, unit, t);
    // and below the next power of ten
    lemma_value_bounds(m);
    lemma_pow2_pos(margin() as nat);
    let w = pow2(margin() as nat);
    let v = m.significand * pow10((unit_exponent(m) + margin()) as nat);
    assert(u == v * w) by (nonlinear_arith)
        requires
            u == m.significand * (pow10((unit_exponent(m) + margin()) as nat) * w),
            v == m.significand * pow10((unit_exponent(m) + margin()) as nat),
    ;
    assert(weight(p - 1, 0) <= u && u < weight(p, 0)) by (nonlinear_arith)
        requires
            u == v * w,
            pow10((p - 1 + margin()) as nat) <= v,
            v < pow10((p + margin()) as nat),
            weight(p - 1, 0) == pow10((p - 1 + margin()) as nat) * w,
            weight(p, 0) == pow10((p + margin()) as nat) * w,
            w > 0,
    ;
    assert(k < top) by (nonlinear_arith)
        requires
            k * unit < top * unit,
            unit > 0,
    ;
    assert((k + 1) * unit <= top * unit && (k + 1) * unit == k * unit + unit) by (nonlinear_arith)
        requires
            k + 1 <= top,
            unit > 0,
    ;
}

/// The units `2^a` are ordered as their exponents are, and each is twice the
/// one before.
pub proof fn lemma_unit_order(a: int, b: int)
    requires
        -margin() <= a <= b,
    ensures
        0 < weight(0, a) <= weight(0, b),
        weight(0, a + 1) == 2 * weight(0, a),
        weight(0, b) == weight(0, a) * pow2((b - a) as nat),
{
    lemma_weight(0, a, 0, (b - a) as nat);
    lemma_weight(0, a, 0, 1);
    lemma_pow10(0);
    lemma2_to64();
    lemma_pow2_pos((b - a) as nat);
    let c = weight(0, a);
    let t = pow2((b - a) as nat);
    assert(weight(0, b) == c * t && c <= c * t) by (nonlinear_arith)
        requires
            weight(0, b) == c * (1 * t),
            c > 0,
            t >= 1,
    ;
    assert(weight(0, a + 1) == 2 * c) by (nonlinear_arith)
        requires
            weight(0, a + 1) == c * (1 * 2),
    ;
}

/// A number has the binary exponent `e` where it lies between `2^e` and
/// `2^(e + 1)`.
pub proof fn lemma_binade_weights(x: nat, e: int)
    requires
        -margin() <= e < margin(),
    ensures
        in_binade(x, scale(), e) <==> weight(0, e) <= x < weight(0, e + 1),
{
    let big = margin() as nat;
    let s = scale();
    lemma_unit_order(e, e + 1);
    lemma_weight(0, 0, 0, 0);
    if e >= 0 {
        // scale * 2^e <= x < 2 * scale * 2^e
        lemma_unit_order(0, e);
        assert(scaled_num(x, -e) == x) by {
            if e == 0 {
                lemma2_to64();
                assert(x * 1 == x);
            }
        }
        assert(scaled_den(s, -e) == weight(0, e)) by {
            if e == 0 {
                assert(s == weight(0, 0));
            }
        }
    } else {
        // scale <= x * 2^-e < 2 * scale
        let down = (-e) as nat;
        lemma_unit_order(e, 0);
        lemma_pow2_pos(down);
        let c = weight(0, e);
        let t = pow2(down);
        assert(s == c * t);
        assert(scaled_num(x, -e) == x * t);
        assert(scaled_den(s, -e) == s);
        assert((c * t <= x * t <==> c <= x) && (x * t < 2 * (c * t) <==> x < 2 * c))
            by (nonlinear_arith)
            requires
                t > 0,
        ;
    }
}

/// The decimal that the slow path has scaled to a number from one half up
/// to one stands for the number that the decimal at the start held the
/// first digits of, on the grid of the halves of the last place of the
/// result.
pub proof fn lemma_scaled_brackets<F: RawFloat>(m: DecimalModel, x: nat)
    requires
        model_wf(m),
        m.significand > 0,
        -324 <= m.decimal_point < 310,
        scaled_value(m, 0) <= x,
        m.truncated <==> scaled_value(m, 0) < x,
        x < scaled_value(m, 0) + weight(m.decimal_point - MAX_DIGITS, 0),
    ensures
        brackets(
            scaled_up::<F>(m).decimal,
            scaled_up::<F>(m).exp2,
            x,
            lifted::<F>(m).exp2 - F::MANTISSA_EXPLICIT_BITS - 1,
        ),
        model_wf(scaled_up::<F>(m).decimal),
        scaled_up::<F>(m).decimal.significand > 0,
        scaled_up::<F>(m).decimal.decimal_point == 0,
        leading_digit(scaled_up::<F>(m).decimal.significand) >= 5,
        -1100 < scaled_up::<F>(m).exp2 <= 1040,
        weight(0, scaled_up::<F>(m).exp2 - 1) <= x < weight(0, scaled_up::<F>(m).exp2),
        x > 0,
{
    lemma_format::<F>();
    let bits = F::MANTISSA_EXPLICIT_BITS as int;
    let p0 = m.decimal_point;
    let down = scaled_down::<F>(m);
    let ed = down.exp2;
    let g0 = ed + p0 - MAX_DIGITS;
    let j = if p0 > 0 {
        ((p0 + 3) / 3) as nat
    } else {
        1nat
    };
    lemma_scale_down_grows(m, 0);
    lemma_initial_brackets(m, x, g0);
    lemma_weight(p0, 0, (3 * j - 1 - p0) as nat, 0);
    lemma_pow10((3 * j - 1 - p0) as nat);
    lemma2_to64();
    assert(weight(p0, 0) <= weight(3 * j - 1, 0)) by (nonlinear_arith)
        requires
            weight(3 * j - 1, 0) == weight(p0, 0) * (pow10((3 * j - 1 - p0) as nat) * 1),
            pow10((3 * j - 1 - p0) as nat) >= 1,
            weight(p0, 0) >= 0,
    ;
    lemma_scale_down_brackets(m, 0, x, g0, j);
    lemma_grid_below::<F>(p0, ed);
    // the number is far above the grid, and above the numbers that are lost
    lemma_unit_order(g0, g0 + 1);
    lemma_weight(-330, 0, (p0 - 1 + 330) as nat, 0);
    lemma_pow10_increases(1, (p0 - 1 + 330) as nat);
    lemma_pow10(1);
    assert(2 * weight(-330, 0) <= weight(p0 - 1, 0)) by (nonlinear_arith)
        requires
            weight(p0 - 1, 0) == weight(-330, 0) * (pow10((p0 - 1 + 330) as nat) * 1),
            pow10((p0 - 1 + 330) as nat) >= 10,
            weight(-330, 0) >= 0,
    ;
    lemma_scale_up_brackets(down.decimal, ed, x, g0);
    let up = scaled_up::<F>(m);
    let eu = up.exp2;
    lemma_lift_floor::<F>(up.decimal, eu - 1);
    let grid = lifted::<F>(m).exp2 - bits - 1;
    // the number lies between 2^(eu - 1) and 2^eu, as the decimal does
    lemma_digit_count_bounds(up.decimal.significand);
    lemma_binade_of_half(up.decimal, eu, scaled_value(up.decimal, eu));
    lemma_binade_weights(scaled_value(up.decimal, eu), eu - 1);
    lemma_brackets_close(up.decimal, eu, x, g0);
    if eu < g0 {
        lemma_unit_order(eu, g0);
        assert(false);
    }
    lemma_brackets_below(up.decimal, eu, x, g0, eu);
    if g0 > grid {
        // the number would be below 2^(g0 + bits + 2)
        assert(eu <= g0 + bits + 1);
        lemma_unit_order(eu, g0 + bits + 1);
        lemma_unit_order(g0, g0 + bits + 1);
        lemma_unit_order(g0 + bits + 1, g0 + bits + 2);
        assert(false);
    }
    lemma_brackets_coarser(up.decimal, eu, x, g0, grid);
}

/// The slow path is exact, whether it drops digits or not: for a decimal
/// that holds the first 768 digits of the number `x`, and is marked as
/// truncated where `x` has more, it yields the value of the format that is
/// nearest to `x`, with ties going to the even significand. The number `x`
/// is counted in units of `10^-margin * 2^-margin`.
pub proof fn lemma_slow_path_nearest<F: RawFloat>(m: DecimalModel, x: nat)
    requires
        model_wf(m),
        m.significand > 0,
        -324 <= m.decimal_point < 310,
        scaled_value(m, 0) <= x,
        m.truncated <==> scaled_value(m, 0) < x,
        x < scaled_value(m, 0) + weight(m.decimal_point - MAX_DIGITS, 0),
    ensures
        long_mantissa_model::<F>(m) == nearest::<F>(x, scale()),
{
    lemma_format::<F>();
    lemma2_to64();
    lemma2_to64_rest();
    let bits = F::MANTISSA_EXPLICIT_BITS as nat;
    let up = scaled_up::<F>(m);
    let eu = up.exp2;
    let lift = lifted::<F>(m);
    let l = lift.decimal;
    let top = lift.exp2;
    let grid = top - bits - 1;
    let r = rounded_decimal::<F>(m);
    let first = round_model(r);
    let unit = weight(0, top - bits);
    let full = pow2(bits);
    lemma_scaled_brackets::<F>(m, x);
    lemma_lift_floor::<F>(up.decimal, eu - 1);
    lemma_binade_weights(x, eu - 1);
    // lifted, and scaled to a significand
    lemma_lift_brackets::<F>(up.decimal, eu - 1, x, grid);
    lemma_left_shift_brackets(l, bits + 1, top + 1, x, grid);
    lemma_left_shift_progress(l, bits + 1);
    // the significand has less than 17 digits before the point
    lemma_unit_order(top - bits, top + 1);
    lemma_unit_order(eu, top + 1);
    lemma_pow2_le(bits + 1, 53);
    assert(x < unit * pow2(bits + 1));
    assert(r.decimal_point <= 18) by {
        if r.decimal_point > 17 {
            lemma_value_bounds(r);
            lemma_pow10_values();
            lemma_pow10_adds(margin() as nat, 16);
            lemma_pow10_increases(
                (margin() + 16) as nat,
                (r.decimal_point - 1 + margin()) as nat,
            );
            lemma_pow10(margin() as nat);
            let v = r.significand * pow10((unit_exponent(r) + margin()) as nat);
            let w = pow2((top - bits + margin()) as nat);
            lemma_pow2_pos((top - bits + margin()) as nat);
            assert(false) by (nonlinear_arith)
                requires
                    scaled_value(r, top - bits) == r.significand * (pow10(
                        (unit_exponent(r) + margin()) as nat,
                    ) * w),
                    v == r.significand * pow10((unit_exponent(r) + margin()) as nat),
                    v >= pow10(margin() as nat) * 10_000_000_000_000_000,
                    scaled_value(r, top - bits) <= x,
                    x < unit * pow2(bits + 1),
                    unit == pow10(margin() as nat) * w,
                    pow2(bits + 1) <= 0x20_0000_0000_0000,
                    pow10(margin() as nat) > 0,
                    w > 0,
            ;
        }
    }
    lemma_round_model_brackets(r, top - bits, x);
    // the first rounding, as the rounding of the number at its exponent
    let k = bits - top;
    assert(x * scaled_den(scale(), k) == scaled_num(x, k) * unit && scaled_den(scale(), k) > 0)
        by {
        lemma_weight(0, 0, 0, 0);
        if k >= 0 {
            lemma_unit_order(-k, 0);
            assert(x * (unit * pow2(k as nat)) == (x * pow2(k as nat)) * unit)
                by (nonlinear_arith);
        } else {
            lemma_unit_order(0, -k);
            lemma_pow2_pos((-k) as nat);
        }
    }
    lemma_unit_order(top - bits, top - bits);
    lemma_round_half_even_ratio(x, unit, scaled_num(x, k), scaled_den(scale(), k));
    // its bounds
    lemma_pow2_unfold(bits + 1);
    lemma_pow2_pos(bits);
    lemma_unit_order(top - bits, top);
    lemma_round_half_even_bounds(x, unit, full);
    lemma_round_half_even_bounds(x, unit, 2 * full);
    assert(x < (2 * full) * unit) by (nonlinear_arith)
        requires
            x < unit * pow2(bits + 1),
            pow2(bits + 1) == 2 * full,
    ;
    if eu - 1 >= F::MINIMUM_EXPONENT + 1 {
        assert(x >= full * unit) by (nonlinear_arith)
            requires
                x >= weight(0, top),
                weight(0, top) == unit * full,
        ;
    } else {
        lemma_unit_order(eu, top);
        assert(x <= full * unit) by (nonlinear_arith)
            requires
                x < weight(0, top),
                weight(0, top) == unit * full,
        ;
    }
    if first >= 2 * full {
        // the carry: the half of the decimal rounds to 2^bits
        let half = right_shift_model(r, 1);
        lemma_right_shift_nonzero(r, 1);
        lemma_right_shift_progress(r, 1);
        lemma_right_shift_brackets(r, 1, top - bits, x, grid);
        lemma_brackets_coarser(half, top - bits + 1, x, grid, top - bits);
        lemma_round_model_brackets(half, top - bits + 1, x);
        lemma_unit_order(top - bits, top - bits + 1);
        lemma_round_half_even_carry(x, unit, 2 * full);
    }
    lemma_finish_nearest::<F>(m, x);
}

/// The slow path is exact for every decimal that is not marked as
/// truncated: it yields the value of the format that is nearest to the
/// decimal, with ties going to the even significand.
pub proof fn lemma_slow_path_exact<F: RawFloat>(m: DecimalModel)
    requires
        model_wf(m),
        m.significand > 0,
        !m.truncated,
        -324 <= m.decimal_point < 310,
    ensures
        long_mantissa_model::<F>(m) == nearest::<F>(decimal_numerator(m), decimal_denominator(m)),
{
    let x = scaled_value(m, 0);
    lemma_weight(m.decimal_point - MAX_DIGITS, 0, 0, 0);
    lemma_slow_path_nearest::<F>(m, x);
    lemma_digit_count_bounds(m.significand);
    lemma_scaled_fraction(m, 0, x);
    lemma2_to64();
    assert(scaled_num(x, 0) == x) by {
        assert(x * 1 == x);
    }
    lemma_nearest_ratio::<F>(x, scale(), decimal_numerator(m), decimal_denominator(m));
}

} // verus!
