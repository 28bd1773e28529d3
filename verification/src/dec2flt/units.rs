//! The numbers of the slow path as integers: a decimal times a power of
//! two, counted in units so small that every number on the way is a whole
//! number of them.

use crate::dec2flt::decimal::{leading_digit, left_shift_model, lemma_leading_digit, lemma_normalized, normalized, DecimalModel, MAX_DIGITS};
use crate::dec2flt::digits::{digit_count, lemma_digit_count_bounds, lemma_digit_count_shift, lemma_pow10, lemma_pow10_adds, lemma_pow10_increases, lemma_strip_zeros, pow10, strip_zeros};
use crate::dec2flt::float::RawFloat;
use crate::dec2flt::rounding::{in_binade, lemma_pow2_le, lemma_round_half_even, round_half_even, scaled_den, scaled_num};
use crate::dec2flt::slow::{lift_model, scale_down, scale_up, Scaled};
use vstd::arithmetic::power2::{lemma2_to64, lemma_pow2_adds, lemma_pow2_pos, lemma_pow2_unfold, pow2};
use vstd::prelude::*;

verus! {

/// The exponents of ten and of two that occur on the slow path stay above
/// the negative of this number.
pub open spec fn margin() -> int {
    0x2_0000_0000_0000_0000
}

/// `10^(a + margin) * 2^(b + margin)`.
pub open spec fn weight(a: int, b: int) -> nat {
    pow10((a + margin()) as nat) * pow2((b + margin()) as nat)
}

/// The power of ten that belongs to the last digit of `m`.
pub open spec fn unit_exponent(m: DecimalModel) -> int {
    m.decimal_point - digit_count(m.significand)
}

/// `m * 2^exp2`, as a multiple of `10^-margin * 2^-margin`.
pub open spec fn scaled_value(m: DecimalModel, exp2: int) -> nat {
    m.significand * weight(unit_exponent(m), exp2)
}

/// The numerator of the number that `m` stands for.
pub open spec fn decimal_numerator(m: DecimalModel) -> nat {
    if unit_exponent(m) >= 0 {
        m.significand * pow10(unit_exponent(m) as nat)
    } else {
        m.significand
    }
}

/// The denominator of the number that `m` stands for.
pub open spec fn decimal_denominator(m: DecimalModel) -> nat {
    if unit_exponent(m) >= 0 {
        1
    } else {
        pow10((-unit_exponent(m)) as nat)
    }
}

/// Weights are positive, and multiply as their exponents add.
pub proof fn lemma_weight(a: int, b: int, c: nat, d: nat)
    requires
        a >= -margin(),
        b >= -margin(),
    ensures
        weight(a, b) > 0,
        weight(a + c, b + d) == weight(a, b) * (pow10(c) * pow2(d)),
        pow10(c) * pow2(d) > 0,
{
    let x = pow10((a + margin()) as nat);
    let y = pow2((b + margin()) as nat);
    lemma_pow10((a + margin()) as nat);
    lemma_pow2_pos((b + margin()) as nat);
    lemma_pow10(c);
    lemma_pow2_pos(d);
    lemma_pow10_adds((a + margin()) as nat, c);
    lemma_pow2_adds((b + margin()) as nat, d);
    assert(x * y > 0) by (nonlinear_arith)
        requires
            x > 0,
            y > 0,
    ;
    assert(pow10(c) * pow2(d) > 0) by (nonlinear_arith)
        requires
            pow10(c) > 0,
            pow2(d) > 0,
    ;
    assert((x * pow10(c)) * (y * pow2(d)) == (x * y) * (pow10(c) * pow2(d))) by (nonlinear_arith);
}

/// Where [`normalized`] drops no digit, the decimal that it yields stands
/// for the number that it was given.
pub proof fn lemma_normalized_exact(e: nat, e10: int, t: bool)
    requires
        e > 0,
        e10 >= -margin(),
        !normalized(e, e10, t).truncated,
    ensures
        !t,
        unit_exponent(normalized(e, e10, t)) >= e10,
        normalized(e, e10, t).significand * pow10(
            (unit_exponent(normalized(e, e10, t)) + margin()) as nat,
        ) == e * pow10((e10 + margin()) as nat),
        digit_count(normalized(e, e10, t).significand) <= digit_count(e),
{
    let r = normalized(e, e10, t);
    let len = digit_count(e);
    let extra = if len > MAX_DIGITS {
        (len - MAX_DIGITS) as nat
    } else {
        0
    };
    let p = pow10(extra);
    lemma_pow10(extra);
    lemma_normalized(e, e10, t);
    vstd::arithmetic::div_mod::lemma_fundamental_div_mod(e as int, p as int);
    let kept = e / p;
    assert(e == kept * p) by (nonlinear_arith)
        requires
            e == p * kept + e % p,
            e % p == 0,
    ;
    assert(kept > 0) by (nonlinear_arith)
        requires
            e == kept * p,
            e > 0,
    ;
    lemma_strip_zeros(kept);
    let sig = strip_zeros(kept);
    let z = choose|z: nat| kept == strip_zeros(kept) * #[trigger] pow10(z);
    lemma_digit_count_shift(sig, z);
    lemma_digit_count_shift(kept, extra);
    assert(digit_count(sig) + z + extra == len);
    assert(unit_exponent(r) == e10 + extra + z);
    let base = (e10 + margin()) as nat;
    lemma_pow10_adds(base, z + extra);
    lemma_pow10_adds(z, extra);
    assert(sig * pow10(base + z + extra) == e * pow10(base)) by (nonlinear_arith)
        requires
            e == kept * p,
            kept == sig * pow10(z),
            pow10(base + z + extra) == pow10(base) * pow10(z + extra),
            pow10(z + extra) == pow10(z) * p,
    ;
}

/// `10^(3 * j) <= 2^(10 * j)`.
pub proof fn lemma_pow10_below_pow2(j: nat)
    ensures
        pow10(3 * j) <= pow2(10 * j),
    decreases j,
{
    lemma2_to64();
    crate::dec2flt::digits::lemma_pow10_values();
    if j > 0 {
        lemma_pow10_below_pow2((j - 1) as nat);
        lemma_pow10_adds(3 * (j - 1) as nat, 3);
        lemma_pow2_adds(10 * (j - 1) as nat, 10);
        assert(pow10(3 * (j - 1) as nat) * 1000 <= pow2(10 * (j - 1) as nat) * 1024)
            by (nonlinear_arith)
            requires
                pow10(3 * (j - 1) as nat) <= pow2(10 * (j - 1) as nat),
        ;
    }
}

/// A power of two below `10^(3 * j)` has an exponent below `10 * j`.
pub proof fn lemma_pow2_below_pow10(a: nat, j: nat)
    requires
        pow2(a) < pow10(3 * j),
    ensures
        a < 10 * j,
{
    lemma_pow10_below_pow2(j);
    if a >= 10 * j {
        lemma_pow2_le(10 * j, a);
    }
}

/// The value of a decimal lies between the powers of ten that its decimal
/// point names: `10^(decimal_point - 1) <= m < 10^decimal_point`, here in
/// terms of the significand and its weight.
pub proof fn lemma_value_bounds(m: DecimalModel)
    requires
        m.significand > 0,
        unit_exponent(m) >= -margin(),
    ensures
        pow10((m.decimal_point - 1 + margin()) as nat) <= m.significand * pow10(
            (unit_exponent(m) + margin()) as nat,
        ),
        m.significand * pow10((unit_exponent(m) + margin()) as nat) < pow10(
            (m.decimal_point + margin()) as nat,
        ),
{
    let d = m.significand;
    let n = digit_count(d);
    let base = (unit_exponent(m) + margin()) as nat;
    lemma_digit_count_bounds(d);
    lemma_pow10_adds((n - 1) as nat, base);
    lemma_pow10_adds(n, base);
    lemma_pow10(base);
    assert(pow10((n - 1) as nat) * pow10(base) <= d * pow10(base)) by (nonlinear_arith)
        requires
            pow10((n - 1) as nat) <= d,
    ;
    assert(d * pow10(base) < pow10(n) * pow10(base)) by (nonlinear_arith)
        requires
            d < pow10(n),
            pow10(base) > 0,
    ;
}

/// The cut of an exponent at zero, from below.
pub open spec fn positive_part(x: int) -> nat {
    if x >= 0 {
        x as nat
    } else {
        0
    }
}

/// Powers with a sum of exponents that is not negative, split by sign.
proof fn lemma_split_powers(x: int, k: nat)
    requires
        x + k >= 0,
    ensures
        pow10((x + k) as nat) * pow10(positive_part(-x)) == pow10(positive_part(x)) * pow10(k),
        pow2((x + k) as nat) * pow2(positive_part(-x)) == pow2(positive_part(x)) * pow2(k),
{
    lemma_pow10(0);
    lemma2_to64();
    if x >= 0 {
        lemma_pow10_adds(x as nat, k);
        lemma_pow2_adds(x as nat, k);
        assert(positive_part(-x) == 0 && positive_part(x) == x);
        assert(pow10((x + k) as nat) * 1 == pow10((x + k) as nat));
        assert(pow2((x + k) as nat) * 1 == pow2((x + k) as nat));
    } else {
        lemma_pow10_adds((x + k) as nat, (-x) as nat);
        lemma_pow2_adds((x + k) as nat, (-x) as nat);
        assert(positive_part(-x) == -x && positive_part(x) == 0);
        assert(((x + k) as nat + (-x) as nat) as nat == k);
        assert(1 * pow10(k) == pow10(k));
        assert(1 * pow2(k) == pow2(k));
    }
}

/// The number `10^margin * 2^margin`, by which [`scaled_value`] is scaled.
pub open spec fn scale() -> nat {
    weight(0, 0)
}

/// A decimal `m` with `m * 2^-k == v0 / scale` stands for the fraction that
/// `v0 / scale * 2^k` is.
pub proof fn lemma_scaled_fraction(m: DecimalModel, k: int, v0: nat)
    requires
        unit_exponent(m) >= -margin(),
        -margin() <= k <= margin(),
        scaled_value(m, -k) == v0,
    ensures
        decimal_numerator(m) * scaled_den(scale(), k) == scaled_num(v0, k) * decimal_denominator(m),
        decimal_denominator(m) > 0,
        scaled_den(scale(), k) > 0,
{
    let x = unit_exponent(m);
    let big = margin() as nat;
    let d = m.significand;
    lemma_split_powers(x, big);
    lemma_split_powers(-k, big);
    lemma_pow10(positive_part(-x));
    lemma_pow10(big);
    lemma_pow2_pos(big);
    lemma_pow2_pos(positive_part(-k));
    lemma_pow10(0);
    lemma2_to64();
    let a = pow10((x + big) as nat);
    let an = pow10(positive_part(-x));
    let ap = pow10(positive_part(x));
    let b = pow2((-k + big) as nat);
    let bn = pow2(positive_part(k));
    let bp = pow2(positive_part(-k));
    let t = pow10(big);
    let u = pow2(big);
    // a * an == ap * t, b * bn == bp * u
    let p = a * an;
    let q = b * bn;
    assert(((d * (a * b)) * bn) * an == d * (p * q)) by (nonlinear_arith)
        requires
            p == a * an,
            q == b * bn,
    ;
    let up2 = ap * t;
    let q2 = bp * u;
    assert((d * ap) * ((t * u) * bp) == d * (up2 * q2)) by (nonlinear_arith)
        requires
            up2 == ap * t,
            q2 == bp * u,
    ;
    assert((d * ap) * ((t * u) * bp) == ((d * (a * b)) * bn) * an);
    assert(decimal_numerator(m) == d * ap) by {
        if x < 0 {
            assert(d * 1 == d);
        }
    }
    assert(decimal_denominator(m) == an);
    assert(scaled_den(scale(), k) == (t * u) * bp) by {
        if k >= 0 {
            assert((t * u) * 1 == t * u);
        }
    }
    assert(scaled_num(v0, k) == v0 * bn) by {
        if k < 0 {
            assert(v0 * 1 == v0);
        }
    }
    assert((t * u) * bp > 0) by (nonlinear_arith)
        requires
            t > 0,
            u > 0,
            bp > 0,
    ;
}

/// A number from one half up to one, times `2^exp2`, has the binary
/// exponent `exp2 - 1`.
pub proof fn lemma_binade_of_half(m: DecimalModel, exp2: int, v0: nat)
    requires
        m.significand > 0,
        m.decimal_point == 0,
        leading_digit(m.significand) >= 5,
        digit_count(m.significand) <= margin(),
        -margin() < exp2 <= margin(),
        scaled_value(m, exp2) == v0,
    ensures
        in_binade(v0, scale(), exp2 - 1),
{
    let d = m.significand;
    let n = digit_count(d);
    let big = margin() as nat;
    let e = exp2 - 1;
    lemma_leading_digit(d);
    lemma_pow10((n - 1) as nat);
    let low = pow10((n - 1) as nat);
    // 10^n <= 2 * d < 2 * 10^n
    let lead = leading_digit(d);
    assert(5 * low <= lead * low) by (nonlinear_arith)
        requires
            lead >= 5,
            low >= 0,
    ;
    assert(pow10(n) <= 2 * d);
    lemma_digit_count_bounds(d);
    let a = pow10((big - n) as nat);
    let t = pow10(big);
    let u = pow2(big);
    lemma_pow10_adds((big - n) as nat, n);
    lemma_pow10((big - n) as nat);
    lemma_pow2_pos(big);
    lemma2_to64();
    lemma_split_powers(e, big);
    let b = pow2((e + big) as nat);
    let bn = pow2(positive_part(-e));
    let bp = pow2(positive_part(e));
    lemma_pow2_pos(positive_part(-e));
    lemma_pow2_pos(positive_part(e));
    lemma_pow2_unfold((exp2 + big) as nat);
    // v0 == d * a * 2 * b, scale == 10^n * a * u, b * bn == bp * u
    assert(v0 == d * (a * (2 * b)));
    let num = scaled_num(v0, -e);
    let den = scaled_den(scale(), -e);
    assert(num == v0 * bn) by {
        if e > 0 {
            assert(v0 * 1 == v0);
        }
    }
    assert(den == (t * u) * bp) by {
        if e <= 0 {
            assert((t * u) * 1 == t * u);
        }
    }
    let c = a * (bp * u);
    assert(num == (2 * d) * c) by (nonlinear_arith)
        requires
            num == (d * (a * (2 * b))) * bn,
            b * bn == bp * u,
            c == a * (bp * u),
    ;
    assert(den == pow10(n) * c) by (nonlinear_arith)
        requires
            den == (t * u) * bp,
            t == a * pow10(n),
            c == a * (bp * u),
    ;
    assert(c > 0) by (nonlinear_arith)
        requires
            c == a * (bp * u),
            a > 0,
            u > 0,
            bp > 0,
    ;
    assert(den <= num && num < 2 * den) by (nonlinear_arith)
        requires
            num == (2 * d) * c,
            den == pow10(n) * c,
            pow10(n) <= 2 * d,
            d < pow10(n),
            c > 0,
    ;
}

/// The rounding of a fraction against an integer bound.
pub proof fn lemma_round_half_even_bounds(n: nat, d: nat, t: nat)
    requires
        d > 0,
    ensures
        n >= t * d ==> round_half_even(n, d) >= t,
        n <= t * d ==> round_half_even(n, d) <= t,
{
    vstd::arithmetic::div_mod::lemma_fundamental_div_mod(n as int, d as int);
    vstd::arithmetic::div_mod::lemma_mod_bound(n as int, d as int);
    let q = n / d;
    let r = n % d;
    assert(n >= t * d ==> q >= t) by (nonlinear_arith)
        requires
            n == d * q + r,
            r < d,
            d > 0,
    ;
    assert(n <= t * d ==> (q < t || (q == t && r == 0))) by (nonlinear_arith)
        requires
            n == d * q + r,
            0 <= r,
            d > 0,
    ;
}

/// A fraction below the even number `t` that rounds to `t` rounds, halved,
/// to the half of `t`.
pub proof fn lemma_round_half_even_carry(n: nat, d: nat, t: nat)
    requires
        d > 0,
        t >= 2,
        t % 2 == 0,
        n < t * d,
        round_half_even(n, d) >= t,
    ensures
        round_half_even(n, 2 * d) == t / 2,
{
    vstd::arithmetic::div_mod::lemma_fundamental_div_mod(n as int, d as int);
    vstd::arithmetic::div_mod::lemma_mod_bound(n as int, d as int);
    let q = n / d;
    let r = n % d;
    assert(q < t) by (nonlinear_arith)
        requires
            n == d * q + r,
            0 <= r,
            n < t * d,
            d > 0,
    ;
    assert(q == t - 1 && 2 * r >= d);
    let h = (t / 2 - 1) as nat;
    assert(n == h * (2 * d) + (d + r)) by (nonlinear_arith)
        requires
            n == d * q + r,
            q == t - 1,
            t == 2 * (h + 1),
    ;
    lemma_round_half_even(n, 2 * d, h, d + r);
}

/// The decimals of the slow path for `m`, one after the other: `m` scaled
/// down, scaled up, lifted to the smallest exponent, and scaled to a
/// significand.
pub open spec fn scaled_down<F: RawFloat>(m: DecimalModel) -> Scaled {
    scale_down(m, 0)
}

/// See [`scaled_down`].
pub open spec fn scaled_up<F: RawFloat>(m: DecimalModel) -> Scaled {
    scale_up(scaled_down::<F>(m).decimal, scaled_down::<F>(m).exp2)
}

/// See [`scaled_down`].
pub open spec fn lifted<F: RawFloat>(m: DecimalModel) -> Scaled {
    lift_model::<F>(scaled_up::<F>(m).decimal, scaled_up::<F>(m).exp2 - 1)
}

/// The decimal that the slow path rounds to get the significand: see
/// [`scaled_down`].
pub open spec fn rounded_decimal<F: RawFloat>(m: DecimalModel) -> DecimalModel {
    left_shift_model(lifted::<F>(m).decimal, (F::MANTISSA_EXPLICIT_BITS + 1) as nat)
}

/// A number below one, times `2^exp2`, that is `10^-(3 * j)` or more:
/// `exp2` is above `-10 * j`.
pub proof fn lemma_exponent_floor(m: DecimalModel, exp2: int, j: nat)
    requires
        m.significand > 0,
        m.decimal_point <= 0,
        unit_exponent(m) >= -margin(),
        -margin() <= exp2,
        1 <= j,
        3 * j <= margin(),
        scaled_value(m, exp2) >= weight(-3 * j as int, 0),
    ensures
        exp2 > -10 * j,
{
    if exp2 < 0 {
        lemma_value_bounds(m);
        lemma_pow10_below_pow2(j);
        let k = margin() as nat;
        let v = m.significand * pow10((unit_exponent(m) + margin()) as nat);
        let w = pow2((exp2 + margin()) as nat);
        lemma_pow10_increases((m.decimal_point + margin()) as nat, k);
        lemma_pow10((k - 3 * j) as nat);
        lemma_pow2_pos((exp2 + margin()) as nat);
        lemma_pow2_adds((exp2 + margin()) as nat, (-exp2) as nat);
        lemma_pow10_adds((k - 3 * j) as nat, 3 * j);
        assert(scaled_value(m, exp2) == v * w) by (nonlinear_arith)
            requires
                scaled_value(m, exp2) == m.significand * (pow10(
                    (unit_exponent(m) + margin()) as nat,
                ) * w),
                v == m.significand * pow10((unit_exponent(m) + margin()) as nat),
        ;
        assert(pow2((-exp2) as nat) < pow10(3 * j)) by (nonlinear_arith)
            requires
                v * w >= pow10((k - 3 * j) as nat) * pow2(k),
                v < pow10(k),
                pow2(k) == w * pow2((-exp2) as nat),
                pow10(k) == pow10((k - 3 * j) as nat) * pow10(3 * j),
                pow10((k - 3 * j) as nat) > 0,
                w > 0,
        ;
        lemma_pow2_below_pow10((-exp2) as nat, j);
    }
}

/// Two numbers with powers of ten that stand for the same value are
/// fractions of the same value.
pub proof fn lemma_same_fraction(d1: nat, x1: int, d2: nat, x2: int)
    requires
        x1 >= -margin(),
        x2 >= -margin(),
        d1 * pow10((x1 + margin()) as nat) == d2 * pow10((x2 + margin()) as nat),
    ensures
        (d1 * pow10(positive_part(x1))) * pow10(positive_part(-x2)) == (d2 * pow10(
            positive_part(x2),
        )) * pow10(positive_part(-x1)),
        pow10(positive_part(-x1)) > 0,
        pow10(positive_part(-x2)) > 0,
{
    let big = margin() as nat;
    lemma_split_powers(x1, big);
    lemma_split_powers(x2, big);
    lemma_pow10(big);
    lemma_pow10(positive_part(-x1));
    lemma_pow10(positive_part(-x2));
    let a1 = pow10((x1 + big) as nat);
    let n1 = pow10(positive_part(-x1));
    let up1 = pow10(positive_part(x1));
    let a2 = pow10((x2 + big) as nat);
    let n2 = pow10(positive_part(-x2));
    let up2 = pow10(positive_part(x2));
    let t = pow10(big);
    // (d1 * up1) * n2 * t == d1 * a1 * n1 * n2 == d2 * a2 * n1 * n2 == (d2 * up2) * n1 * t
    assert(((d1 * up1) * n2) * t == ((d1 * a1) * n1) * n2) by (nonlinear_arith)
        requires
            a1 * n1 == up1 * t,
    ;
    assert(((d2 * up2) * n1) * t == ((d2 * a2) * n2) * n1) by (nonlinear_arith)
        requires
            a2 * n2 == up2 * t,
    ;
    assert(((d1 * a1) * n1) * n2 == ((d2 * a2) * n2) * n1) by (nonlinear_arith)
        requires
            d1 * a1 == d2 * a2,
    ;
    assert((d1 * up1) * n2 == (d2 * up2) * n1) by (nonlinear_arith)
        requires
            ((d1 * up1) * n2) * t == ((d2 * up2) * n1) * t,
            t > 0,
    ;
}

} // verus!
