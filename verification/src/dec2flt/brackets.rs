//! What the slow path keeps of a number when it drops digits: the decimal
//! stays below the number, knows whether it is below it, and lies in the
//! same cell of every grid that is coarse enough, the grid of the halves of
//! the last place of the result among them.

use crate::dec2flt::decimal::{leading_digit, left_shift_model, lemma_normalized, lemma_pow2_pow5, model_wf, normalized, right_shift_model, round_model, DecimalModel, DECIMAL_POINT_RANGE, MAX_DIGITS, MAX_SHIFT};
use crate::dec2flt::digits::{digit_count, lemma_digit_count_shift, lemma_pow10, lemma_pow10_adds, lemma_pow5, lemma_strip_zeros, pow10, pow5, strip_zeros};
use crate::dec2flt::float::RawFloat;
use crate::dec2flt::rounding::round_half_even;
use crate::dec2flt::slow::{below_half, distance_down, distance_up, lemma_scale_down_step, lemma_scale_up_stays, lemma_scale_up_step, lemma_shift_for, lift_model, scale_down, scale_up, shift_for, shift_up_for, Scaled};
use crate::dec2flt::units::{decimal_denominator, decimal_numerator, lemma_exponent_floor, lemma_pow2_below_pow10, lemma_value_bounds, lemma_weight, margin, scaled_value, unit_exponent, weight};
use vstd::arithmetic::div_mod::{lemma_div_denominator, lemma_div_multiples_vanish, lemma_fundamental_div_mod, lemma_mod_bound};
use vstd::arithmetic::power2::{lemma_pow2_adds, lemma_pow2_pos, pow2};
use vstd::prelude::*;

verus! {

/// The decimal `m`, times `2^exp2`, stands for the number `x` as far as the
/// grid of the multiples of `2^e` can tell: it does not exceed `x`, it is
/// marked as truncated where it is below `x`, and no multiple of `2^e` lies
/// above it that does not lie above `x`. The numbers are counted in units of
/// `10^-margin * 2^-margin`.
pub open spec fn brackets(m: DecimalModel, exp2: int, x: nat, e: int) -> bool {
    let u = scaled_value(m, exp2);
    let c = weight(0, e);
    &&& u <= x
    &&& (m.truncated <==> u < x)
    &&& u / c == x / c
}

/// A number and the multiple of `g` below it lie in the same cell of every
/// grid whose unit is a multiple of `g`.
pub proof fn lemma_floor_keeps(a: nat, g: nat, t: nat)
    requires
        g > 0,
        t > 0,
    ensures
        ((a / g) * g) / (g * t) == a / (g * t),
        (a / g) * g <= a,
        (a / g) * g < a <==> a % g != 0,
        g * t > 0,
{
    let q = a / g;
    lemma_fundamental_div_mod(a as int, g as int);
    lemma_mod_bound(a as int, g as int);
    assert(q * g == g * q) by (nonlinear_arith);
    lemma_div_multiples_vanish(q as int, g as int);
    lemma_div_denominator((q * g) as int, g as int, t as int);
    lemma_div_denominator(a as int, g as int, t as int);
    assert(g * t > 0) by (nonlinear_arith)
        requires
            g > 0,
            t > 0,
    ;
}

/// The unit `2^e` is a multiple of the unit `10^a * 2^b`, for `a <= 0` and
/// `a + b <= e`.
pub proof fn lemma_weight_divides(a: int, b: int, e: int) -> (t: nat)
    requires
        -margin() <= a <= 0,
        -margin() <= b,
        -margin() <= e,
        a + b <= e,
    ensures
        t > 0,
        weight(0, e) == weight(a, b) * t,
        weight(a, b) > 0,
{
    let big = margin() as nat;
    let down = (-a) as nat;
    let up = (e - b - a) as nat;
    let t = pow5(down) * pow2(up);
    lemma_pow5(down);
    lemma_pow2_pos(up);
    lemma_pow2_pow5(down);
    lemma_pow10_adds((a + margin()) as nat, down);
    lemma_pow2_adds((e + margin()) as nat, down);
    lemma_pow2_adds((b + margin()) as nat, up);
    lemma_weight(a, b, 0, 0);
    let ten = pow10((a + margin()) as nat);
    let two = pow2((b + margin()) as nat);
    let top = pow2((e + margin()) as nat);
    assert(t > 0) by (nonlinear_arith)
        requires
            t == pow5(down) * pow2(up),
            pow5(down) > 0,
            pow2(up) > 0,
    ;
    // 10^big * 2^(e + big) * 2^down == 10^(a + big) * 2^down * 5^down * 2^(b + big) * 2^up
    assert((pow10(big) * top) * pow2(down) == ((ten * two) * t) * pow2(down)) by (nonlinear_arith)
        requires
            pow10(big) == ten * pow10(down),
            pow2(down) * pow5(down) == pow10(down),
            top * pow2(down) == two * pow2(up),
            t == pow5(down) * pow2(up),
    ;
    assert(pow10(big) * top == (ten * two) * t) by (nonlinear_arith)
        requires
            (pow10(big) * top) * pow2(down) == ((ten * two) * t) * pow2(down),
            pow2(down) > 0,
    ;
    t
}

/// How many digits [`normalized`] cuts off a number.
pub open spec fn cut(e: nat) -> nat {
    if digit_count(e) > MAX_DIGITS {
        (digit_count(e) - MAX_DIGITS) as nat
    } else {
        0
    }
}

/// The decimal that [`normalized`] makes of a number is the number without
/// the digits that are cut off.
pub proof fn lemma_normalized_cut(e: nat, e10: int, t: bool, exp2: int)
    requires
        e > 0,
        e10 >= -margin(),
        exp2 >= -margin(),
    ensures
        scaled_value(normalized(e, e10, t), exp2) == (e / pow10(cut(e))) * (pow10(cut(e)) * weight(
            e10,
            exp2,
        )),
        pow10(cut(e)) * weight(e10, exp2) == weight(e10 + cut(e), exp2),
        weight(e10, exp2) > 0,
        normalized(e, e10, t).truncated == (t || e % pow10(cut(e)) != 0),
        unit_exponent(normalized(e, e10, t)) >= e10 + cut(e),
        normalized(e, e10, t).decimal_point == e10 + digit_count(e),
{
    let r = normalized(e, e10, t);
    let len = digit_count(e);
    let extra = cut(e);
    let p = pow10(extra);
    lemma_pow10(extra);
    lemma_normalized(e, e10, t);
    lemma_fundamental_div_mod(e as int, p as int);
    lemma_mod_bound(e as int, p as int);
    let kept = e / p;
    lemma_strip_zeros(kept);
    let sig = strip_zeros(kept);
    assert(sig == r.significand);
    assert(kept > 0);
    let z = choose|z: nat| kept == strip_zeros(kept) * #[trigger] pow10(z);
    lemma_digit_count_shift(sig, z);
    // the digits that are kept
    assert(digit_count(kept) + extra == len) by {
        if extra > 0 {
            crate::dec2flt::digits::lemma_digit_count_bounds(e);
            lemma_pow10_adds((len - 1 - extra) as nat, extra);
            lemma_pow10_adds((len - extra) as nat, extra);
            let lo = pow10((len - 1 - extra) as nat);
            let hi = pow10((len - extra) as nat);
            assert(lo <= kept && kept < hi) by (nonlinear_arith)
                requires
                    lo * p <= e,
                    e < hi * p,
                    e == p * kept + e % p,
                    0 <= e % p < p,
            ;
            crate::dec2flt::digits::lemma_digit_count_unique(kept, (len - extra) as nat);
        } else {
            assert(e / 1 == e);
        }
    }
    assert(unit_exponent(r) == e10 + extra + z);
    let w = weight(e10, exp2);
    let base = (e10 + margin()) as nat;
    let two = pow2((exp2 + margin()) as nat);
    lemma_weight(e10, exp2, 0, 0);
    lemma_pow10_adds(base, z + extra);
    lemma_pow10_adds(z, extra);
    lemma_pow10(z);
    let g = p * w;
    assert(scaled_value(r, exp2) == kept * g) by (nonlinear_arith)
        requires
            scaled_value(r, exp2) == sig * (pow10(base + z + extra) * two),
            kept == sig * pow10(z),
            pow10(base + z + extra) == pow10(base) * pow10(z + extra),
            pow10(z + extra) == pow10(z) * p,
            w == pow10(base) * two,
            g == p * w,
    ;
    assert(g == weight(e10 + extra, exp2)) by {
        lemma_pow10_adds(base, extra);
        assert(p * (pow10(base) * two) == (pow10(base) * p) * two) by (nonlinear_arith);
    }
}

/// The number above the decimal that [`normalized`] makes of it: what is
/// cut off is less than one unit of the last digit that is kept.
pub proof fn lemma_normalized_rest(e: nat, w: nat)
    requires
        e > 0,
        w > 0,
    ensures
        ({
            let p = pow10(cut(e));
            let g = p * w;
            let a = e * w;
            &&& g > 0
            &&& a == g * (e / p) + (e % p) * w
            &&& 0 <= (e % p) * w < g
            &&& (e % p != 0 <==> (e % p) * w != 0)
            &&& a / g == e / p
            &&& a % g == (e % p) * w
        }),
{
    let p = pow10(cut(e));
    lemma_pow10(cut(e));
    lemma_fundamental_div_mod(e as int, p as int);
    lemma_mod_bound(e as int, p as int);
    let kept = e / p;
    let rest = e % p;
    let g = p * w;
    let a = e * w;
    assert(g > 0) by (nonlinear_arith)
        requires
            g == p * w,
            p > 0,
            w > 0,
    ;
    assert(a == (p * kept) * w + rest * w) by (nonlinear_arith)
        requires
            a == e * w,
            e == p * kept + rest,
    ;
    assert((p * kept) * w == kept * g) by (nonlinear_arith)
        requires
            g == p * w,
    ;
    assert(a == g * kept + rest * w) by (nonlinear_arith)
        requires
            a == (p * kept) * w + rest * w,
            (p * kept) * w == kept * g,
    ;
    assert(rest * w < g && (rest != 0 <==> rest * w != 0)) by (nonlinear_arith)
        requires
            0 <= rest < p,
            g == p * w,
            w > 0,
    ;
    vstd::arithmetic::div_mod::lemma_fundamental_div_mod_converse(
        a as int,
        g as int,
        kept as int,
        (rest * w) as int,
    );
}

/// What [`normalized`] makes of a number that stands for `x` stands for
/// `x`, where the digits that it keeps reach down to the grid.
pub proof fn lemma_normalized_brackets(e: nat, e10: int, t: bool, exp2: int, x: nat, grid: int)
    requires
        e > 0,
        e10 >= -margin(),
        exp2 >= -margin(),
        grid >= -margin(),
        e * weight(e10, exp2) <= x,
        t <==> e * weight(e10, exp2) < x,
        (e * weight(e10, exp2)) / weight(0, grid) == x / weight(0, grid),
        digit_count(e) > MAX_DIGITS ==> e10 + digit_count(e) <= MAX_DIGITS && e10 + digit_count(e)
            - MAX_DIGITS + exp2 <= grid,
    ensures
        brackets(normalized(e, e10, t), exp2, x, grid),
        unit_exponent(normalized(e, e10, t)) >= e10,
{
    let w = weight(e10, exp2);
    let p = pow10(cut(e));
    let g = p * w;
    let a = e * w;
    lemma_normalized_cut(e, e10, t, exp2);
    lemma_normalized_rest(e, w);
    if cut(e) == 0 {
        lemma_pow10(0);
        assert(e % 1 == 0);
        assert(e / 1 == e);
        assert(g == w) by (nonlinear_arith)
            requires
                g == p * w,
                p == 1,
        ;
    } else {
        // the number is cut down to the grid of the digits that are kept
        let t = lemma_weight_divides(e10 + cut(e), exp2, grid);
        lemma_floor_keeps(a, g, t);
    }
}

/// The decimal that [`normalized`] makes of a number holds its first 768
/// digits: it does not exceed the number, it is marked as truncated where it
/// is below the number, and it is less than one unit of its 768th digit
/// below it.
pub proof fn lemma_normalized_holds(e: nat, e10: int)
    requires
        e > 0,
        e10 >= -margin(),
    ensures
        scaled_value(normalized(e, e10, false), 0) <= e * weight(e10, 0),
        normalized(e, e10, false).truncated <==> scaled_value(normalized(e, e10, false), 0) < e
            * weight(e10, 0),
        e10 + digit_count(e) - MAX_DIGITS >= -margin() ==> e * weight(e10, 0) < scaled_value(
            normalized(e, e10, false),
            0,
        ) + weight(e10 + digit_count(e) - MAX_DIGITS, 0),
{
    let w = weight(e10, 0);
    let p = pow10(cut(e));
    let g = p * w;
    let a = e * w;
    lemma_normalized_cut(e, e10, false, 0);
    lemma_normalized_rest(e, w);
    if cut(e) == 0 {
        lemma_pow10(0);
        assert(e % 1 == 0);
        assert(e / 1 == e);
        assert(g == w) by (nonlinear_arith)
            requires
                g == p * w,
                p == 1,
        ;
        if e10 + digit_count(e) - MAX_DIGITS >= -margin() {
            lemma_weight(e10 + digit_count(e) - MAX_DIGITS, 0, 0, 0);
        }
    }
}

/// A division by `2^shift` keeps what the decimal stands for, where the
/// digits of the quotient reach down to the grid.
pub proof fn lemma_right_shift_brackets(m: DecimalModel, shift: nat, exp2: int, x: nat, grid: int)
    requires
        m.significand > 0,
        unit_exponent(m) - shift >= -margin(),
        exp2 >= -margin(),
        grid >= -margin(),
        m.decimal_point - shift >= -DECIMAL_POINT_RANGE,
        brackets(m, exp2, x, grid),
        m.decimal_point <= MAX_DIGITS,
        m.decimal_point - MAX_DIGITS + exp2 + shift <= grid,
    ensures
        brackets(right_shift_model(m, shift), exp2 + shift, x, grid),
        unit_exponent(right_shift_model(m, shift)) >= unit_exponent(m) - shift,
        right_shift_model(m, shift).significand > 0,
{
    let d = m.significand;
    let unit = unit_exponent(m);
    let e = d * pow5(shift);
    lemma_pow5(shift);
    lemma_pow2_pow5(shift);
    assert(e > 0) by (nonlinear_arith)
        requires
            e == d * pow5(shift),
            d > 0,
            pow5(shift) > 0,
    ;
    crate::dec2flt::decimal::lemma_right_shift_nonzero(m, shift);
    lemma_normalized(e, unit - shift, m.truncated);
    assert(right_shift_model(m, shift) == normalized(e, unit - shift, m.truncated));
    if shift >= 1 {
        crate::dec2flt::decimal::lemma_right_shift_progress(m, shift);
    } else {
        assert(e == d) by (nonlinear_arith)
            requires
                e == d * 1,
        ;
    }
    assert(unit - shift + digit_count(e) <= m.decimal_point);
    // the quotient times 2^shift is the dividend
    let low = pow10((unit - shift + margin()) as nat);
    let two = pow2((exp2 + margin()) as nat);
    lemma_pow10_adds((unit - shift + margin()) as nat, shift);
    lemma_pow2_adds((exp2 + margin()) as nat, shift);
    assert(e * weight(unit - shift, exp2 + shift) == scaled_value(m, exp2)) by (nonlinear_arith)
        requires
            e == d * pow5(shift),
            weight(unit - shift, exp2 + shift) == low * (two * pow2(shift)),
            scaled_value(m, exp2) == d * ((low * pow10(shift)) * two),
            pow2(shift) * pow5(shift) == pow10(shift),
    ;
    lemma_normalized_brackets(e, unit - shift, m.truncated, exp2 + shift, x, grid);
}

/// A multiplication by `2^shift` keeps what the decimal stands for, where
/// the digits of the product reach down to the grid.
pub proof fn lemma_left_shift_brackets(m: DecimalModel, shift: nat, exp2: int, x: nat, grid: int)
    requires
        m.significand > 0,
        unit_exponent(m) >= -margin(),
        exp2 - shift >= -margin(),
        grid >= -margin(),
        brackets(m, exp2, x, grid),
        m.decimal_point + shift <= MAX_DIGITS,
        m.decimal_point + shift - MAX_DIGITS + exp2 - shift <= grid,
    ensures
        brackets(left_shift_model(m, shift), exp2 - shift, x, grid),
        unit_exponent(left_shift_model(m, shift)) >= unit_exponent(m),
        left_shift_model(m, shift).significand > 0,
{
    let d = m.significand;
    let unit = unit_exponent(m);
    let e = d * pow2(shift);
    lemma_pow2_pos(shift);
    assert(e > 0) by (nonlinear_arith)
        requires
            e == d * pow2(shift),
            d > 0,
            pow2(shift) > 0,
    ;
    lemma_normalized(e, unit, m.truncated);
    if shift >= 1 {
        crate::dec2flt::decimal::lemma_left_shift_progress(m, shift);
    } else {
        assert(pow2(0) == 1) by {
            vstd::arithmetic::power2::lemma2_to64();
        }
        assert(e == d) by (nonlinear_arith)
            requires
                e == d * 1,
        ;
    }
    let ten = pow10((unit + margin()) as nat);
    let two = pow2((exp2 - shift + margin()) as nat);
    lemma_pow2_adds((exp2 - shift + margin()) as nat, shift);
    assert(e * weight(unit, exp2 - shift) == scaled_value(m, exp2)) by (nonlinear_arith)
        requires
            e == d * pow2(shift),
            weight(unit, exp2 - shift) == ten * two,
            scaled_value(m, exp2) == d * (ten * (two * pow2(shift))),
    ;
    lemma_normalized_brackets(e, unit, m.truncated, exp2 - shift, x, grid);
}

/// What holds on a grid holds on every coarser one.
pub proof fn lemma_brackets_coarser(m: DecimalModel, exp2: int, x: nat, fine: int, coarse: int)
    requires
        -margin() <= fine <= coarse,
        brackets(m, exp2, x, fine),
    ensures
        brackets(m, exp2, x, coarse),
{
    let t = pow2((coarse - fine) as nat);
    let c = weight(0, fine);
    lemma_pow2_pos((coarse - fine) as nat);
    lemma_weight(0, fine, 0, (coarse - fine) as nat);
    lemma_pow10(0);
    assert(weight(0, coarse) == c * t) by (nonlinear_arith)
        requires
            weight(0, coarse) == c * (1 * t),
    ;
    lemma_div_denominator(scaled_value(m, exp2) as int, c as int, t as int);
    lemma_div_denominator(x as int, c as int, t as int);
}

/// A decimal that stands for `x` on a grid is less than one unit of the
/// grid below `x`.
pub proof fn lemma_brackets_close(m: DecimalModel, exp2: int, x: nat, grid: int)
    requires
        -margin() <= grid,
        brackets(m, exp2, x, grid),
    ensures
        x < scaled_value(m, exp2) + weight(0, grid),
{
    let c = weight(0, grid);
    let u = scaled_value(m, exp2);
    lemma_weight(0, grid, 0, 0);
    lemma_fundamental_div_mod(x as int, c as int);
    lemma_mod_bound(x as int, c as int);
    lemma_fundamental_div_mod(u as int, c as int);
    lemma_mod_bound(u as int, c as int);
    let q = x / c;
    assert(c * q + x % c < c * q + u % c + c);
}

/// A number of one or more, times `2^exp2`, that is below `10^(3 * j - 1)`,
/// and a shift that does not take it below one tenth: `exp2` and the shift
/// together are below `10 * j`.
pub proof fn lemma_exponent_cap_shift(m: DecimalModel, exp2: int, shift: nat, j: nat)
    requires
        m.significand > 0,
        m.decimal_point >= 1,
        unit_exponent(m) >= -margin(),
        0 <= exp2,
        j >= 1,
        pow2(shift) <= pow10(m.decimal_point as nat),
        scaled_value(m, exp2) < weight(3 * j - 1, 0),
    ensures
        exp2 + shift < 10 * j,
{
    lemma_value_bounds(m);
    let k = margin() as nat;
    let p = m.decimal_point as nat;
    let v = m.significand * pow10((unit_exponent(m) + margin()) as nat);
    let low = pow10((p - 1 + k) as nat);
    let total = (exp2 + shift) as nat;
    lemma_pow10((p - 1 + k) as nat);
    lemma_pow2_pos(k);
    lemma_pow2_pos(shift);
    lemma_pow2_adds(k, exp2 as nat);
    lemma_pow2_adds(exp2 as nat, shift);
    lemma_pow10_adds((3 * j - 1 + k) as nat, p);
    lemma_pow10_adds((p - 1 + k) as nat, 3 * j);
    assert(scaled_value(m, exp2) == v * pow2((exp2 + margin()) as nat)) by (nonlinear_arith)
        requires
            scaled_value(m, exp2) == m.significand * (pow10(
                (unit_exponent(m) + margin()) as nat,
            ) * pow2((exp2 + margin()) as nat)),
            v == m.significand * pow10((unit_exponent(m) + margin()) as nat),
    ;
    let top = pow10((3 * j - 1 + k) as nat);
    // low * 2^exp2 < top, and 2^shift <= 10^p
    assert(low * pow2(exp2 as nat) < top) by (nonlinear_arith)
        requires
            v * (pow2(k) * pow2(exp2 as nat)) < top * pow2(k),
            low <= v,
            pow2(k) > 0,
            pow2(exp2 as nat) >= 0,
    ;
    assert(low * (pow2(exp2 as nat) * pow2(shift)) < top * pow10(p)) by (nonlinear_arith)
        requires
            low * pow2(exp2 as nat) < top,
            0 < pow2(shift) <= pow10(p),
    ;
    assert(top * pow10(p) == low * pow10(3 * j));
    assert(pow2(total) < pow10(3 * j)) by (nonlinear_arith)
        requires
            low * pow2(total) < low * pow10(3 * j),
            low > 0,
    ;
    lemma_pow2_below_pow10(total, j);
}

/// The scaling down goes up with the exponent only.
pub proof fn lemma_scale_down_grows(m: DecimalModel, exp2: int)
    ensures
        scale_down(m, exp2).exp2 >= exp2,
    decreases distance_down(m),
{
    if m.decimal_point > 0 && m.significand > 0 {
        let shift = shift_for(m.decimal_point);
        lemma_scale_down_step(m);
        lemma_scale_down_grows(right_shift_model(m, shift), exp2 + shift);
    }
}

/// The scaling down keeps what the decimal stands for, on a grid that the
/// digits of the decimal reach down to all the way.
pub proof fn lemma_scale_down_brackets(m: DecimalModel, exp2: int, x: nat, grid: int, j: nat)
    requires
        model_wf(m),
        m.significand > 0,
        -1000 <= m.decimal_point <= 400,
        0 <= exp2,
        1 <= j,
        x < weight(3 * j - 1, 0),
        -margin() <= grid,
        brackets(m, exp2, x, grid),
        m.decimal_point > 0 ==> grid >= scale_down(m, exp2).exp2 + m.decimal_point - MAX_DIGITS,
    ensures
        brackets(scale_down(m, exp2).decimal, scale_down(m, exp2).exp2, x, grid),
        model_wf(scale_down(m, exp2).decimal),
        scale_down(m, exp2).decimal.significand > 0,
        exp2 <= scale_down(m, exp2).exp2,
        m.decimal_point > 0 ==> scale_down(m, exp2).exp2 < 10 * j && -60 <= scale_down(
            m,
            exp2,
        ).decimal.decimal_point <= 0,
        m.decimal_point <= 0 ==> scale_down(m, exp2) == (Scaled { decimal: m, exp2 }),
    decreases distance_down(m),
{
    if m.decimal_point > 0 && m.significand > 0 {
        let shift = shift_for(m.decimal_point);
        let r = right_shift_model(m, shift);
        lemma_shift_for(m.decimal_point);
        lemma_scale_down_step(m);
        crate::dec2flt::decimal::lemma_right_shift_progress(m, shift);
        crate::dec2flt::decimal::lemma_right_shift_nonzero(m, shift);
        lemma_exponent_cap_shift(m, exp2, shift, j);
        lemma_scale_down_grows(r, exp2 + shift);
        lemma_right_shift_brackets(m, shift, exp2, x, grid);
        lemma_scale_down_brackets(r, exp2 + shift, x, grid, j);
    }
}

/// The scaling up keeps what the decimal stands for, on a grid that the
/// digits of the decimal reach down to at the start.
pub proof fn lemma_scale_up_brackets(m: DecimalModel, exp2: int, x: nat, grid: int)
    requires
        model_wf(m),
        m.significand > 0,
        -1000 <= m.decimal_point <= 0,
        -margin() + MAX_SHIFT <= exp2,
        -margin() <= grid,
        brackets(m, exp2, x, grid),
        grid >= exp2 + m.decimal_point - MAX_DIGITS,
        x >= weight(-330, 0) + weight(0, grid),
    ensures
        brackets(scale_up(m, exp2).decimal, scale_up(m, exp2).exp2, x, grid),
        model_wf(scale_up(m, exp2).decimal),
        scale_up(m, exp2).decimal.significand > 0,
        scale_up(m, exp2).decimal.decimal_point == 0,
        leading_digit(scale_up(m, exp2).decimal.significand) >= 5,
        -1100 < scale_up(m, exp2).exp2 <= exp2,
    decreases distance_up(m),
{
    lemma_brackets_close(m, exp2, x, grid);
    lemma_exponent_floor(m, exp2, 110);
    if below_half(m) {
        let shift = shift_up_for(m);
        let r = left_shift_model(m, shift);
        lemma_shift_for(-m.decimal_point);
        lemma_scale_up_step(m, shift);
        lemma_scale_up_stays(m);
        crate::dec2flt::decimal::lemma_left_shift_progress(m, shift);
        lemma_left_shift_brackets(m, shift, exp2, x, grid);
        lemma_scale_up_brackets(r, exp2 - shift, x, grid);
    }
}

/// The lifting keeps what the decimal stands for, on a grid that is not
/// finer than the last bit of the format.
pub proof fn lemma_lift_brackets<F: RawFloat>(m: DecimalModel, exp2: int, x: nat, grid: int)
    requires
        model_wf(m),
        m.significand > 0,
        -1200 <= exp2,
        -600 - (exp2 + 1200) <= m.decimal_point <= 0,
        -margin() <= grid,
        brackets(m, exp2 + 1, x, grid),
        grid >= F::MINIMUM_EXPONENT + 2 - MAX_DIGITS,
        -1100 <= F::MINIMUM_EXPONENT <= -2,
    ensures
        brackets(lift_model::<F>(m, exp2).decimal, lift_model::<F>(m, exp2).exp2 + 1, x, grid),
        model_wf(lift_model::<F>(m, exp2).decimal),
        lift_model::<F>(m, exp2).decimal.significand > 0,
        lift_model::<F>(m, exp2).decimal.decimal_point <= 0,
        lift_model::<F>(m, exp2).decimal.decimal_point >= m.decimal_point - (lift_model::<F>(
            m,
            exp2,
        ).exp2 - exp2),
        F::MINIMUM_EXPONENT + 1 <= exp2 ==> lift_model::<F>(m, exp2) == (Scaled {
            decimal: m,
            exp2,
        }),
    decreases F::MINIMUM_EXPONENT + 1 - exp2,
{
    if F::MINIMUM_EXPONENT + 1 > exp2 {
        let gap = F::MINIMUM_EXPONENT + 1 - exp2;
        let shift = if gap > MAX_SHIFT {
            MAX_SHIFT as nat
        } else {
            gap as nat
        };
        let r = right_shift_model(m, shift);
        crate::dec2flt::decimal::lemma_right_shift_nonzero(m, shift);
        crate::dec2flt::decimal::lemma_right_shift_progress(m, shift);
        lemma_right_shift_brackets(m, shift, exp2 + 1, x, grid);
        lemma_lift_brackets::<F>(r, exp2 + shift, x, grid);
    }
}

/// Rounding to the nearest integer, in terms of halves: `n / (2 * c)` is
/// rounded up where the number of halves in it is odd and either something
/// is left above the last half, or the integer below is odd.
pub proof fn lemma_round_by_halves(n: nat, c: nat)
    requires
        c > 0,
    ensures
        round_half_even(n, 2 * c) == (n / c) / 2 + if (n / c) % 2 == 1 && (n % c != 0 || ((n / c)
            / 2) % 2 == 1) {
            1nat
        } else {
            0nat
        },
{
    let h = n / c;
    let rest = n % c;
    lemma_fundamental_div_mod(n as int, c as int);
    lemma_mod_bound(n as int, c as int);
    let q = h / 2;
    let b = h % 2;
    assert(n == (2 * c) * q + (b * c + rest)) by (nonlinear_arith)
        requires
            n == c * h + rest,
            h == 2 * q + b,
    ;
    assert(0 <= b * c + rest < 2 * c) by (nonlinear_arith)
        requires
            0 <= b <= 1,
            0 <= rest < c,
    ;
    vstd::arithmetic::div_mod::lemma_fundamental_div_mod_converse(
        n as int,
        (2 * c) as int,
        q as int,
        (b * c + rest) as int,
    );
    if b == 0 {
        assert(b * c == 0) by (nonlinear_arith)
            requires
                b == 0,
        ;
    } else {
        assert(b * c == c) by (nonlinear_arith)
            requires
                b == 1,
        ;
    }
}

/// Two fractions of the same value have the same integer part, and both
/// are integers or neither is.
pub proof fn lemma_floor_ratio(a1: nat, d1: nat, a2: nat, d2: nat)
    requires
        d1 > 0,
        d2 > 0,
        a1 * d2 == a2 * d1,
    ensures
        a1 / d1 == a2 / d2,
        a1 % d1 == 0 <==> a2 % d2 == 0,
{
    let q = a1 / d1;
    let r1 = a1 % d1;
    lemma_fundamental_div_mod(a1 as int, d1 as int);
    lemma_mod_bound(a1 as int, d1 as int);
    lemma_fundamental_div_mod(a2 as int, d2 as int);
    lemma_mod_bound(a2 as int, d2 as int);
    let q2 = a2 / d2;
    let r2 = a2 % d2;
    // (q - q2) * d1 * d2 == r2 * d1 - r1 * d2
    assert((q - q2) * (d1 * d2) == r2 * d1 - r1 * d2) by (nonlinear_arith)
        requires
            a1 == d1 * q + r1,
            a2 == d2 * q2 + r2,
            a1 * d2 == a2 * d1,
    ;
    assert(q == q2) by (nonlinear_arith)
        requires
            (q - q2) * (d1 * d2) == r2 * d1 - r1 * d2,
            0 <= r1 < d1,
            0 <= r2 < d2,
            d1 > 0,
            d2 > 0,
    ;
    assert(r2 * d1 == r1 * d2) by (nonlinear_arith)
        requires
            (q - q2) * (d1 * d2) == r2 * d1 - r1 * d2,
            q == q2,
    ;
    assert(r1 == 0 <==> r2 == 0) by (nonlinear_arith)
        requires
            r2 * d1 == r1 * d2,
            d1 > 0,
            d2 > 0,
            r1 >= 0,
            r2 >= 0,
    ;
}

/// The rounding of a decimal below `10^18`, in terms of halves: it is
/// rounded up where the number of halves in it is odd and either something
/// is left above the last half, be it digits that were dropped, or the
/// integer below is odd.
pub proof fn lemma_round_model_halves(m: DecimalModel)
    requires
        m.decimal_point <= 18,
    ensures
        ({
            let h = (2 * decimal_numerator(m)) / decimal_denominator(m);
            let exact = (2 * decimal_numerator(m)) % decimal_denominator(m) == 0;
            round_model(m) == h / 2 + if h % 2 == 1 && (!exact || m.truncated || (h / 2) % 2 == 1) {
                1nat
            } else {
                0nat
            }
        }),
        decimal_denominator(m) > 0,
{
    let d = m.significand;
    let n = digit_count(d);
    let num = decimal_numerator(m);
    let den = decimal_denominator(m);
    lemma_pow10((-unit_exponent(m)) as nat);
    if d == 0 {
        if unit_exponent(m) >= 0 {
            assert(d * pow10(unit_exponent(m) as nat) == 0);
        }
        assert(num == 0);
        vstd::arithmetic::div_mod::lemma_small_mod(0, den);
        vstd::arithmetic::div_mod::lemma_basic_div(0, den as int);
    } else if m.decimal_point < 0 {
        crate::dec2flt::digits::lemma_digit_count_bounds(d);
        lemma_pow10(n);
        crate::dec2flt::digits::lemma_pow10_increases(n + 1, (n - m.decimal_point) as nat);
        vstd::arithmetic::div_mod::lemma_basic_div((2 * d) as int, den as int);
    } else if m.decimal_point >= n {
        assert(den == 1);
        assert((2 * num) / 1 == 2 * num);
        assert((2 * num) % 1 == 0);
    } else {
        let unit = pow10((n - m.decimal_point) as nat);
        lemma_pow10((n - m.decimal_point) as nat);
        let whole = d / unit;
        let rest = d % unit;
        lemma_fundamental_div_mod(d as int, unit as int);
        lemma_mod_bound(d as int, unit as int);
        assert(num == d && den == unit);
        if 2 * rest >= unit {
            assert(2 * d == (2 * whole + 1) * unit + (2 * rest - unit)) by (nonlinear_arith)
                requires
                    d == unit * whole + rest,
            ;
            vstd::arithmetic::div_mod::lemma_fundamental_div_mod_converse(
                (2 * d) as int,
                unit as int,
                (2 * whole + 1) as int,
                (2 * rest - unit) as int,
            );
        } else {
            assert(2 * d == (2 * whole) * unit + 2 * rest) by (nonlinear_arith)
                requires
                    d == unit * whole + rest,
            ;
            vstd::arithmetic::div_mod::lemma_fundamental_div_mod_converse(
                (2 * d) as int,
                unit as int,
                (2 * whole) as int,
                (2 * rest) as int,
            );
        }
    }
}

/// The rounding of a decimal that stands for `x` on the grid of the halves
/// of its units is the rounding of `x`.
pub proof fn lemma_round_model_brackets(r: DecimalModel, exp2: int, x: nat)
    requires
        r.decimal_point <= 18,
        unit_exponent(r) >= -margin(),
        exp2 - 1 >= -margin(),
        brackets(r, exp2, x, exp2 - 1),
    ensures
        round_model(r) == round_half_even(x, weight(0, exp2)),
{
    let big = margin() as nat;
    let c = weight(0, exp2 - 1);
    let u = scaled_value(r, exp2);
    let t = pow2((exp2 - 1 + margin()) as nat);
    let a = r.significand * pow10((unit_exponent(r) + margin()) as nat);
    let b = pow10(big);
    let num = decimal_numerator(r);
    let den = decimal_denominator(r);
    lemma_weight(0, exp2 - 1, 0, 1);
    lemma_pow10(0);
    vstd::arithmetic::power2::lemma2_to64();
    lemma_pow2_pos((exp2 - 1 + margin()) as nat);
    lemma_pow10(big);
    lemma_pow2_adds((exp2 - 1 + margin()) as nat, 1);
    assert(weight(0, exp2) == 2 * c) by (nonlinear_arith)
        requires
            weight(0, exp2) == c * (1 * 2),
    ;
    lemma_round_by_halves(x, c);
    lemma_round_model_halves(r);
    // the halves in the decimal
    assert(u == t * (2 * a) && c == t * b) by (nonlinear_arith)
        requires
            u == r.significand * (pow10((unit_exponent(r) + margin()) as nat) * (t * 2)),
            a == r.significand * pow10((unit_exponent(r) + margin()) as nat),
            c == b * t,
    ;
    vstd::arithmetic::div_mod::lemma_div_multiples_vanish_quotient(
        t as int,
        (2 * a) as int,
        b as int,
    );
    lemma_fundamental_div_mod((2 * a) as int, b as int);
    lemma_mod_bound((2 * a) as int, b as int);
    let h = (2 * a) / b;
    let rest = (2 * a) % b;
    assert(u == c * h + t * rest) by (nonlinear_arith)
        requires
            u == t * (2 * a),
            c == t * b,
            2 * a == b * h + rest,
    ;
    assert(0 <= t * rest < c && (t * rest == 0 <==> rest == 0)) by (nonlinear_arith)
        requires
            c == t * b,
            0 <= rest < b,
            t > 0,
    ;
    vstd::arithmetic::div_mod::lemma_fundamental_div_mod_converse(
        u as int,
        c as int,
        h as int,
        (t * rest) as int,
    );
    // the decimal as a fraction
    lemma_split(r, a, b);
    lemma_floor_ratio(2 * a, b, 2 * num, den);
    // what is left above the last half
    lemma_fundamental_div_mod(x as int, c as int);
    lemma_mod_bound(x as int, c as int);
    lemma_fundamental_div_mod(u as int, c as int);
    assert(x % c - u % c == x - u);
}

/// A decimal as a fraction over `10^margin`.
proof fn lemma_split(r: DecimalModel, a: nat, b: nat)
    requires
        unit_exponent(r) >= -margin(),
        a == r.significand * pow10((unit_exponent(r) + margin()) as nat),
        b == pow10(margin() as nat),
    ensures
        (2 * a) * decimal_denominator(r) == (2 * decimal_numerator(r)) * b,
        decimal_denominator(r) > 0,
        b > 0,
{
    let x = unit_exponent(r);
    let big = margin() as nat;
    let d = r.significand;
    lemma_pow10(big);
    if x >= 0 {
        lemma_pow10_adds(x as nat, big);
        assert((2 * (d * pow10((x + big) as nat))) * 1 == (2 * (d * pow10(x as nat))) * b)
            by (nonlinear_arith)
            requires
                pow10((x + big) as nat) == pow10(x as nat) * b,
        ;
    } else {
        lemma_pow10((-x) as nat);
        lemma_pow10_adds((x + big) as nat, (-x) as nat);
        assert((2 * (d * pow10((x + big) as nat))) * pow10((-x) as nat) == (2 * d) * b)
            by (nonlinear_arith)
            requires
                b == pow10((x + big) as nat) * pow10((-x) as nat),
        ;
    }
}

/// A number that a decimal stands for on a grid is below every point of
/// the grid that the decimal is below.
pub proof fn lemma_brackets_below(m: DecimalModel, exp2: int, x: nat, grid: int, bound: int)
    requires
        -margin() <= grid <= bound,
        brackets(m, exp2, x, grid),
        scaled_value(m, exp2) < weight(0, bound),
    ensures
        x < weight(0, bound),
{
    let c = weight(0, grid);
    let t = pow2((bound - grid) as nat);
    let u = scaled_value(m, exp2);
    lemma_weight(0, grid, 0, (bound - grid) as nat);
    lemma_pow10(0);
    lemma_fundamental_div_mod(x as int, c as int);
    lemma_mod_bound(x as int, c as int);
    lemma_fundamental_div_mod(u as int, c as int);
    lemma_mod_bound(u as int, c as int);
    let q = x / c;
    assert(weight(0, bound) == c * t) by (nonlinear_arith)
        requires
            weight(0, bound) == c * (1 * t),
    ;
    assert(q < t) by (nonlinear_arith)
        requires
            c * q + u % c < c * t,
            0 <= u % c,
            c > 0,
    ;
    assert(c * q + x % c < c * t) by (nonlinear_arith)
        requires
            q < t,
            0 <= x % c < c,
    ;
}

} // verus!
