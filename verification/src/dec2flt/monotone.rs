//! Rounding to nearest keeps the order of the numbers: of two fractions,
//! the larger one is not rounded to the smaller value.

use crate::dec2flt::common::Fp;
use crate::dec2flt::extremes::subnormal_scale;
use crate::dec2flt::float::{encoding, fields_fit, lemma_encoding, lemma_format, same_encoding, RawFloat};
use crate::dec2flt::lemire_exact::lemma_scaled_shift;
use crate::dec2flt::rounding::{in_binade, lemma_binade_exists, lemma_nearest, lemma_nearest_ratio, lemma_pow2_le, nearest, round_half_even, rounded_in_binade, scaled_den, scaled_num};
use crate::dec2flt::units::lemma_round_half_even_bounds;
use vstd::arithmetic::div_mod::{lemma_fundamental_div_mod, lemma_mod_bound};
use vstd::arithmetic::power2::{lemma2_to64, lemma2_to64_rest, lemma_pow2_pos, lemma_pow2_unfold, pow2};
use vstd::prelude::*;

verus! {

/// The place of a value among the values of the format that are not
/// negative, counted from zero: its encoding, read as a number. The values
/// of the format are ordered as their places are.
pub open spec fn ordinal<F: RawFloat>(fp: Fp) -> int {
    fp.power2 * pow2(F::MANTISSA_EXPLICIT_BITS as nat) + fp.mantissa
}

/// The place of `2^e` among the values of the format, where infinity
/// stands for the powers that are too large, and zero for those that are
/// too small.
pub open spec fn boundary<F: RawFloat>(e: int) -> int {
    let bits = F::MANTISSA_EXPLICIT_BITS as nat;
    let biased = e - F::MINIMUM_EXPONENT;
    if biased >= F::INFINITE_POWER {
        F::INFINITE_POWER * pow2(bits)
    } else if biased >= 1 {
        biased * pow2(bits)
    } else if biased + bits - 1 >= 0 {
        pow2((biased + bits - 1) as nat) as int
    } else {
        0
    }
}

/// The place of the value that a fraction with the binary exponent `e` is
/// rounded to.
pub open spec fn ordinal_in_binade<F: RawFloat>(num: nat, den: nat, e: int) -> int {
    let bits = F::MANTISSA_EXPLICIT_BITS as nat;
    let biased = e - F::MINIMUM_EXPONENT;
    if biased >= 1 {
        let m = round_half_even(scaled_num(num, bits - e), scaled_den(den, bits - e));
        let place = (biased - 1) * pow2(bits) + m;
        if place >= F::INFINITE_POWER * pow2(bits) {
            F::INFINITE_POWER * pow2(bits)
        } else {
            place
        }
    } else {
        let k = subnormal_scale::<F>() as int;
        round_half_even(scaled_num(num, k), scaled_den(den, k)) as int
    }
}

/// Rounding to the nearest integer keeps the order of the numerators.
pub proof fn lemma_round_half_even_monotone(n1: nat, n2: nat, d: nat)
    requires
        d > 0,
        n1 <= n2,
    ensures
        round_half_even(n1, d) <= round_half_even(n2, d),
{
    lemma_fundamental_div_mod(n1 as int, d as int);
    lemma_mod_bound(n1 as int, d as int);
    lemma_fundamental_div_mod(n2 as int, d as int);
    lemma_mod_bound(n2 as int, d as int);
    let q1 = n1 / d;
    let r1 = n1 % d;
    let q2 = n2 / d;
    let r2 = n2 % d;
    assert(q1 < q2 || (q1 == q2 && r1 <= r2)) by (nonlinear_arith)
        requires
            n1 == d * q1 + r1,
            n2 == d * q2 + r2,
            0 <= r1 < d,
            0 <= r2 < d,
            n1 <= n2,
    ;
}

/// The scaled numerator keeps the order of the numerators.
proof fn lemma_scaled_num_monotone(n1: nat, n2: nat, k: int)
    requires
        n1 <= n2,
    ensures
        scaled_num(n1, k) <= scaled_num(n2, k),
{
    if k >= 0 {
        let p = pow2(k as nat);
        assert(n1 * p <= n2 * p) by (nonlinear_arith)
            requires
                n1 <= n2,
                p >= 0,
        ;
    }
}

/// Of two fractions with one denominator, the one with the larger
/// numerator has the larger binary exponent, or the same.
pub proof fn lemma_binade_monotone(n1: nat, n2: nat, den: nat, e1: int, e2: int)
    requires
        den > 0,
        n1 <= n2,
        in_binade(n1, den, e1),
        in_binade(n2, den, e2),
    ensures
        e1 <= e2,
{
    if e2 < e1 {
        // n2 / den < 2^(e2 + 1) <= 2^e1 <= n1 / den
        let c = (e1 - e2) as nat;
        lemma_scaled_shift(n2, den, -e2, c);
        lemma_scaled_num_monotone(n1, n2, -e1);
        lemma_pow2_le(1, c);
        lemma2_to64();
        let pc = pow2(c);
        let a = scaled_num(n2, -e2);
        let b = scaled_den(den, -e2);
        let x = scaled_num(n2, -e1);
        let y = scaled_den(den, -e1);
        assert(-e2 - c == -e1);
        assert(a * y == pc * (x * b));
        assert(false) by (nonlinear_arith)
            requires
                a * y == pc * (x * b),
                a < 2 * b,
                y <= x,
                y > 0,
                b > 0,
                pc >= 2,
        ;
    }
}

/// A fraction with the binary exponent `e`, scaled by `2^(c - e)`, lies
/// between `2^c` and `2^(c + 1)`.
pub proof fn lemma_scaled_range(num: nat, den: nat, e: int, c: nat)
    requires
        den > 0,
        in_binade(num, den, e),
    ensures
        pow2(c) * scaled_den(den, c - e) <= scaled_num(num, c - e),
        scaled_num(num, c - e) <= (2 * pow2(c)) * scaled_den(den, c - e),
        scaled_num(num, c - e) < 2 * (pow2(c) * scaled_den(den, c - e)),
        scaled_den(den, c - e) > 0,
{
    lemma_scaled_shift(num, den, c - e, c);
    lemma_pow2_pos(c);
    let pc = pow2(c);
    let a = scaled_num(num, c - e);
    let t = scaled_den(den, c - e);
    let s = scaled_num(num, -e);
    let b = scaled_den(den, -e);
    assert(c - e - c == -e);
    assert(a * b == pc * (s * t));
    let x = pc * t;
    assert(a * b == x * s) by (nonlinear_arith)
        requires
            a * b == pc * (s * t),
            x == pc * t,
    ;
    assert(x > 0) by (nonlinear_arith)
        requires
            x == pc * t,
            pc > 0,
            t > 0,
    ;
    assert(x <= a) by (nonlinear_arith)
        requires
            a * b == x * s,
            b <= s,
            b > 0,
            x > 0,
    ;
    assert(a < 2 * x) by (nonlinear_arith)
        requires
            a * b == x * s,
            s < 2 * b,
            b > 0,
            x > 0,
    ;
    assert((2 * pc) * t == 2 * x) by (nonlinear_arith)
        requires
            x == pc * t,
    ;
}

/// A fraction with the binary exponent `e`, scaled by `2^(-e - c)`, lies
/// below `2^(1 - c)`.
pub proof fn lemma_scaled_below(num: nat, den: nat, e: int, c: nat)
    requires
        den > 0,
        in_binade(num, den, e),
    ensures
        pow2(c) * scaled_num(num, -e - c) < 2 * scaled_den(den, -e - c),
{
    lemma_scaled_shift(num, den, -e, c);
    lemma_pow2_pos(c);
    let pc = pow2(c);
    let a = scaled_num(num, -e - c);
    let t = scaled_den(den, -e - c);
    let s = scaled_num(num, -e);
    let b = scaled_den(den, -e);
    assert(s * t == pc * (a * b));
    assert(pc * a < 2 * t) by (nonlinear_arith)
        requires
            s * t == pc * (a * b),
            s < 2 * b,
            b > 0,
            t > 0,
    ;
}

/// The powers of two stand in the order of their exponents.
pub proof fn lemma_boundary_monotone<F: RawFloat>(a: int, b: int)
    requires
        a <= b,
    ensures
        0 <= boundary::<F>(a) <= boundary::<F>(b),
{
    lemma_format::<F>();
    let bits = F::MANTISSA_EXPLICIT_BITS as nat;
    let p = pow2(bits);
    let inf = F::INFINITE_POWER as int;
    let ba = a - F::MINIMUM_EXPONENT;
    let bb = b - F::MINIMUM_EXPONENT;
    lemma_pow2_pos(bits);
    assert(forall|x: int, y: int| 0 <= x <= y ==> #[trigger] (x * p) <= #[trigger] (y * p))
        by (nonlinear_arith)
        requires
            p > 0,
    ;
    assert(1 * p == p);
    assert(0 * p == 0);
    assert(0 <= 1 <= inf);
    assert(1 * p <= inf * p);
    if ba < 1 && ba + bits - 1 >= 0 {
        lemma_pow2_le((ba + bits - 1) as nat, bits);
        if bb < 1 {
            lemma_pow2_le((ba + bits - 1) as nat, (bb + bits - 1) as nat);
        } else if bb < inf {
            assert(1 * p <= bb * p);
        }
    } else if ba >= 1 && ba < inf {
        assert(0 * p <= ba * p);
        if bb < inf {
            assert(ba * p <= bb * p);
        } else {
            assert(ba * p <= inf * p);
        }
    } else if ba < 1 {
        if bb < 1 {
        } else if bb < inf {
            assert(0 * p <= bb * p);
        }
    }
}

/// The value that a fraction with the binary exponent `e` is rounded to:
/// its fields fit their places, and its place is that of `2^e` or above,
/// and that of `2^(e + 1)` or below.
pub proof fn lemma_rounded_place<F: RawFloat>(num: nat, den: nat, e: int)
    requires
        den > 0,
        in_binade(num, den, e),
    ensures
        fields_fit::<F>(rounded_in_binade::<F>(num, den, e)),
        ordinal::<F>(rounded_in_binade::<F>(num, den, e)) == ordinal_in_binade::<F>(num, den, e),
        boundary::<F>(e) <= ordinal_in_binade::<F>(num, den, e) <= boundary::<F>(e + 1),
{
    lemma_format::<F>();
    lemma2_to64();
    lemma2_to64_rest();
    let bits = F::MANTISSA_EXPLICIT_BITS as nat;
    let p = pow2(bits);
    let inf = F::INFINITE_POWER as int;
    let biased = e - F::MINIMUM_EXPONENT;
    let fp = rounded_in_binade::<F>(num, den, e);
    lemma_pow2_pos(bits);
    if biased >= 1 {
        let sn = scaled_num(num, bits - e);
        let sd = scaled_den(den, bits - e);
        let m = round_half_even(sn, sd);
        lemma_scaled_range(num, den, e, bits);
        lemma_round_half_even_bounds(sn, sd, p);
        lemma_round_half_even_bounds(sn, sd, 2 * p);
        assert(p <= m <= 2 * p);
        let base = (biased - 1) * p;
        assert(biased * p == base + p && (biased + 1) * p == base + 2 * p) by (nonlinear_arith)
            requires
                base == (biased - 1) * p,
        ;
        assert(forall|x: int, y: int| 0 <= x <= y ==> #[trigger] (x * p) <= #[trigger] (y * p))
            by (nonlinear_arith)
            requires
                p > 0,
        ;
        let carried = m >= 2 * p;
        let exponent = if carried {
            biased + 1
        } else {
            biased
        };
        if exponent >= inf {
            assert(inf * p <= exponent * p);
            assert(fp == (Fp { mantissa: 0, power2: F::INFINITE_POWER }));
            if biased >= inf {
                assert(inf * p <= biased * p);
            }
            if biased + 1 >= inf {
                assert(inf * p <= (biased + 1) * p);
            }
        } else {
            assert(exponent * p <= inf * p);
            assert(0 * p <= exponent * p);
            assert((exponent + 1) * p <= inf * p);
            assert((exponent + 1) * p == exponent * p + p) by (nonlinear_arith);
            if carried {
                assert(fp == (Fp { mantissa: 0, power2: exponent as i32 }));
            } else {
                assert(fp == (Fp { mantissa: (m - p) as u64, power2: exponent as i32 }));
            }
            if biased + 1 >= inf {
                assert(inf * p <= (biased + 1) * p);
            }
        }
    } else {
        let k = subnormal_scale::<F>() as int;
        assert(k == bits - 1 - F::MINIMUM_EXPONENT);
        let sn = scaled_num(num, k);
        let sd = scaled_den(den, k);
        let m = round_half_even(sn, sd);
        let c = biased + bits - 1;
        assert(k == c - e);
        assert(1 * p == p);
        assert(0 * p == 0);
        if c >= 0 {
            lemma_scaled_range(num, den, e, c as nat);
            lemma_round_half_even_bounds(sn, sd, pow2(c as nat));
            lemma_round_half_even_bounds(sn, sd, 2 * pow2(c as nat));
            lemma_pow2_unfold((c + 1) as nat);
            lemma_pow2_le((c + 1) as nat, bits);
            lemma_pow2_pos(c as nat);
            assert(pow2(c as nat) <= m <= pow2((c + 1) as nat));
            assert(m <= p);
        } else {
            lemma_scaled_below(num, den, e, (-c) as nat);
            lemma_pow2_le(1, (-c) as nat);
            assert(-e - (-c) == k);
            let pc = pow2((-c) as nat);
            assert(pc * sn < 2 * sd);
            assert(scaled_den(den, k) > 0) by {
                lemma_scaled_shift(num, den, k, 0);
            }
            if c == -1 {
                assert(pc == 2);
                assert(pc * sn == 2 * sn) by (nonlinear_arith)
                    requires
                        pc == 2,
                ;
                assert(sn <= 1 * sd);
                lemma_round_half_even_bounds(sn, sd, 1);
                assert(m <= 1);
            } else {
                lemma_pow2_le(2, (-c) as nat);
                assert(4 * sn <= pc * sn) by (nonlinear_arith)
                    requires
                        pc >= 4,
                        sn >= 0,
                ;
                crate::dec2flt::rounding::lemma_round_half_even(sn, sd, 0, sn);
                assert(m == 0);
            }
        }
        if m >= p {
            assert(fp == (Fp { mantissa: (m - p) as u64, power2: 1 }));
        } else {
            assert(fp == (Fp { mantissa: m as u64, power2: 0 }));
        }
    }
}

/// The nearest value of a fraction has fields that fit their places.
pub proof fn lemma_nearest_fits<F: RawFloat>(num: nat, den: nat)
    requires
        den > 0,
    ensures
        fields_fit::<F>(nearest::<F>(num, den)),
        ordinal::<F>(nearest::<F>(num, den)) >= 0,
{
    lemma_format::<F>();
    let bits = F::MANTISSA_EXPLICIT_BITS as nat;
    lemma_pow2_pos(bits);
    if num == 0 {
        lemma_nearest::<F>(num, den, Fp { mantissa: 0, power2: 0 });
        assert(0 * pow2(bits) == 0);
    } else {
        lemma_binade_exists(num, den);
        let e = choose|e: int| in_binade(num, den, e);
        lemma_rounded_place::<F>(num, den, e);
        lemma_boundary_monotone::<F>(e, e);
        lemma_nearest::<F>(num, den, rounded_in_binade::<F>(num, den, e));
    }
}

/// Of two fractions with one denominator, the one with the larger
/// numerator is rounded to the larger value, or to the same.
pub proof fn lemma_nearest_monotone_numerator<F: RawFloat>(n1: nat, n2: nat, den: nat)
    requires
        den > 0,
        n1 <= n2,
    ensures
        ordinal::<F>(nearest::<F>(n1, den)) <= ordinal::<F>(nearest::<F>(n2, den)),
{
    lemma_format::<F>();
    let bits = F::MANTISSA_EXPLICIT_BITS as nat;
    lemma_nearest_fits::<F>(n2, den);
    if n1 == 0 {
        lemma_nearest::<F>(n1, den, Fp { mantissa: 0, power2: 0 });
        assert(0 * pow2(bits) == 0);
    } else {
        lemma_binade_exists(n1, den);
        lemma_binade_exists(n2, den);
        let e1 = choose|e: int| in_binade(n1, den, e);
        let e2 = choose|e: int| in_binade(n2, den, e);
        lemma_rounded_place::<F>(n1, den, e1);
        lemma_rounded_place::<F>(n2, den, e2);
        lemma_nearest::<F>(n1, den, rounded_in_binade::<F>(n1, den, e1));
        lemma_nearest::<F>(n2, den, rounded_in_binade::<F>(n2, den, e2));
        lemma_binade_monotone(n1, n2, den, e1, e2);
        if e1 < e2 {
            lemma_boundary_monotone::<F>(e1 + 1, e2);
        } else {
            let biased = e1 - F::MINIMUM_EXPONENT;
            if biased >= 1 {
                lemma_scaled_num_monotone(n1, n2, bits - e1);
                lemma_scaled_range(n1, den, e1, bits);
                lemma_round_half_even_monotone(
                    scaled_num(n1, bits - e1),
                    scaled_num(n2, bits - e1),
                    scaled_den(den, bits - e1),
                );
            } else {
                let k = subnormal_scale::<F>() as int;
                lemma_scaled_num_monotone(n1, n2, k);
                assert(scaled_den(den, k) > 0) by {
                    lemma_scaled_shift(n1, den, k, 0);
                }
                lemma_round_half_even_monotone(
                    scaled_num(n1, k),
                    scaled_num(n2, k),
                    scaled_den(den, k),
                );
            }
        }
    }
}

/// Rounding to nearest keeps the order: of two fractions, the larger one is
/// rounded to the larger value, or to the same.
pub proof fn lemma_nearest_monotone<F: RawFloat>(n1: nat, d1: nat, n2: nat, d2: nat)
    requires
        d1 > 0,
        d2 > 0,
        n1 * d2 <= n2 * d1,
    ensures
        ordinal::<F>(nearest::<F>(n1, d1)) <= ordinal::<F>(nearest::<F>(n2, d2)),
{
    let den = d1 * d2;
    assert(den > 0) by (nonlinear_arith)
        requires
            den == d1 * d2,
            d1 > 0,
            d2 > 0,
    ;
    assert(n1 * den == (n1 * d2) * d1 && n2 * den == (n2 * d1) * d2) by (nonlinear_arith)
        requires
            den == d1 * d2,
    ;
    lemma_nearest_ratio::<F>(n1, d1, n1 * d2, den);
    lemma_nearest_ratio::<F>(n2, d2, n2 * d1, den);
    lemma_nearest_monotone_numerator::<F>(n1 * d2, n2 * d1, den);
}

/// Fields that fit their places are known by their place.
pub proof fn lemma_ordinal_unique<F: RawFloat>(a: Fp, b: Fp)
    requires
        fields_fit::<F>(a),
        fields_fit::<F>(b),
        ordinal::<F>(a) == ordinal::<F>(b),
    ensures
        a == b,
{
    let p = pow2(F::MANTISSA_EXPLICIT_BITS as nat);
    let x = a.power2 as int;
    let y = b.power2 as int;
    let s = a.mantissa as int;
    let t = b.mantissa as int;
    assert(x == y) by (nonlinear_arith)
        requires
            x * p + s == y * p + t,
            0 <= s < p,
            0 <= t < p,
    ;
}

/// A value between two fractions that are rounded to the same value is
/// rounded to that value too: where `fp` makes the encoding of the nearest
/// value of both a lower and an upper bound of a fraction, it makes that of
/// the nearest value of the fraction.
pub proof fn lemma_rounded_between<F: RawFloat>(
    fp: Fp,
    lower_num: nat,
    lower_den: nat,
    num: nat,
    den: nat,
    upper_num: nat,
    upper_den: nat,
)
    requires
        lower_den > 0,
        den > 0,
        upper_den > 0,
        lower_num * den <= num * lower_den,
        num * upper_den <= upper_num * den,
        same_encoding::<F>(fp, nearest::<F>(lower_num, lower_den)),
        same_encoding::<F>(fp, nearest::<F>(upper_num, upper_den)),
    ensures
        same_encoding::<F>(fp, nearest::<F>(num, den)),
        nearest::<F>(num, den) == nearest::<F>(lower_num, lower_den),
{
    let lower = nearest::<F>(lower_num, lower_den);
    let upper = nearest::<F>(upper_num, upper_den);
    let middle = nearest::<F>(num, den);
    lemma_nearest_fits::<F>(lower_num, lower_den);
    lemma_nearest_fits::<F>(num, den);
    lemma_nearest_fits::<F>(upper_num, upper_den);
    lemma_encoding::<F>(lower, false);
    lemma_encoding::<F>(upper, false);
    assert(encoding::<F>(lower, false) == encoding::<F>(upper, false));
    assert(ordinal::<F>(lower) == ordinal::<F>(upper));
    lemma_nearest_monotone::<F>(lower_num, lower_den, num, den);
    lemma_nearest_monotone::<F>(num, den, upper_num, upper_den);
    lemma_ordinal_unique::<F>(middle, lower);
}

} // verus!
