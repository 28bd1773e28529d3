//! What it means to round a rational number to a binary format, and a
//! function that does it with integers alone.

use crate::dec2flt::arith::lemma_pow2_wide;
use crate::dec2flt::common::Fp;
use crate::dec2flt::float::{lemma_format, RawFloat};
use vstd::arithmetic::power2::{lemma2_to64, lemma2_to64_rest, lemma_pow2_adds, lemma_pow2_pos, lemma_pow2_strictly_increases, lemma_pow2_unfold, pow2};
use vstd::prelude::*;

verus! {

/// The numerator of `num / den * 2^k`, where a negative `k` goes to the
/// denominator.
pub open spec fn scaled_num(num: nat, k: int) -> nat {
    if k >= 0 {
        num * pow2(k as nat)
    } else {
        num
    }
}

/// The denominator of `num / den * 2^k`, where a negative `k` goes to the
/// denominator.
pub open spec fn scaled_den(den: nat, k: int) -> nat {
    if k >= 0 {
        den
    } else {
        den * pow2((-k) as nat)
    }
}

/// `n / d`, rounded to the nearest integer, a tie going to the even one.
pub open spec fn round_half_even(n: nat, d: nat) -> nat {
    let q = n / d;
    let r = n % d;
    if 2 * r > d || (2 * r == d && q % 2 == 1) {
        q + 1
    } else {
        q
    }
}

/// `2^e <= num / den < 2^(e + 1)`: `e` is the binary exponent of the
/// quotient.
pub open spec fn in_binade(num: nat, den: nat, e: int) -> bool {
    scaled_den(den, -e) <= scaled_num(num, -e) < 2 * scaled_den(den, -e)
}

/// The value of the format `F` that is nearest to `num / den`, a number with
/// the binary exponent `e`, as a significand field and an exponent field.
///
/// A quotient in the range of the normal numbers is scaled so that it lies
/// between `2^bits` and `2^(bits + 1)`, and rounded there; the hidden bit is
/// then taken off. A quotient below that range is scaled by the weight of
/// the last bit of a subnormal number. Ties go to the even significand. A
/// significand that the rounding carries to the next power of two moves to
/// the next exponent, and past the largest exponent lies infinity.
pub open spec fn rounded_in_binade<F: RawFloat>(num: nat, den: nat, e: int) -> Fp {
    let bits = F::MANTISSA_EXPLICIT_BITS as nat;
    let biased = e - F::MINIMUM_EXPONENT;
    if biased >= 1 {
        let m = round_half_even(scaled_num(num, bits - e), scaled_den(den, bits - e));
        let carried = m >= 2 * pow2(bits);
        let exponent = if carried {
            biased + 1
        } else {
            biased
        };
        if exponent >= F::INFINITE_POWER {
            Fp { mantissa: 0, power2: F::INFINITE_POWER }
        } else if carried {
            Fp { mantissa: 0, power2: exponent as i32 }
        } else {
            Fp { mantissa: (m - pow2(bits)) as u64, power2: exponent as i32 }
        }
    } else {
        let k = bits - 1 - F::MINIMUM_EXPONENT;
        let m = round_half_even(scaled_num(num, k), scaled_den(den, k));
        if m >= pow2(bits) {
            Fp { mantissa: (m - pow2(bits)) as u64, power2: 1 }
        } else {
            Fp { mantissa: m as u64, power2: 0 }
        }
    }
}

/// `fp` holds the value of the format `F` that is nearest to `num / den`,
/// with ties going to the even significand: the result of the IEEE 754
/// rounding to nearest. `den` is not zero.
pub open spec fn correctly_rounded<F: RawFloat>(num: nat, den: nat, fp: Fp) -> bool {
    if num == 0 {
        fp == (Fp { mantissa: 0, power2: 0 })
    } else {
        exists|e: int| in_binade(num, den, e) && fp == rounded_in_binade::<F>(num, den, e)
    }
}

/// The value of the format `F` that is nearest to `num / den`.
pub open spec fn nearest<F: RawFloat>(num: nat, den: nat) -> Fp {
    choose|fp: Fp| correctly_rounded::<F>(num, den, fp)
}

/// The powers of two are ordered as their exponents are.
pub proof fn lemma_pow2_le(a: nat, b: nat)
    requires
        a <= b,
    ensures
        pow2(a) <= pow2(b),
        0 < pow2(a),
        a < b ==> 2 * pow2(a) <= pow2(b),
{
    lemma_pow2_pos(a);
    if a < b {
        lemma_pow2_strictly_increases(a, b);
        lemma_pow2_unfold(a + 1);
        if a + 1 < b {
            lemma_pow2_strictly_increases(a + 1, b);
        }
    }
}

/// A quotient has one binary exponent only.
pub proof fn lemma_binade_unique(num: nat, den: nat, e1: int, e2: int)
    requires
        den > 0,
        in_binade(num, den, e1),
        in_binade(num, den, e2),
    ensures
        e1 == e2,
{
    if e1 < e2 {
        lemma_binade_ordered(num, den, e1, e2);
    } else if e2 < e1 {
        lemma_binade_ordered(num, den, e2, e1);
    }
}

/// A quotient below `2^(lo + 1)` is not `2^hi` or more, for `lo < hi`.
proof fn lemma_binade_ordered(num: nat, den: nat, lo: int, hi: int)
    requires
        den > 0,
        lo < hi,
        in_binade(num, den, lo),
    ensures
        !in_binade(num, den, hi),
{
    // num / den < 2^(lo + 1) <= 2^hi
    if !in_binade(num, den, hi) {
    } else if lo > 0 {
        // num < 2 * den * 2^lo <= den * 2^hi <= num
        let a = pow2(lo as nat);
        let b = pow2(hi as nat);
        lemma_pow2_le(lo as nat, hi as nat);
        assert(num < 2 * (den * a));
        assert(den * b <= num);
        assert(2 * (den * a) <= den * b) by (nonlinear_arith)
            requires
                2 * a <= b,
        ;
    } else if hi <= 0 {
        // 2 * den <= 2 * num * 2^-hi <= num * 2^-lo < 2 * den
        let a = pow2((-lo) as nat);
        let b = pow2((-hi) as nat);
        lemma_pow2_le((-hi) as nat, (-lo) as nat);
        assert(num * a < 2 * den);
        assert(den <= num * b);
        assert(2 * (num * b) <= num * a) by (nonlinear_arith)
            requires
                2 * b <= a,
        ;
    } else {
        // 2 * den <= den * 2^hi <= num <= num * 2^-lo < 2 * den
        let a = pow2((-lo) as nat);
        let b = pow2(hi as nat);
        lemma_pow2_le(0, (-lo) as nat);
        lemma_pow2_le(0, hi as nat);
        lemma2_to64();
        assert(num * a < 2 * den);
        assert(den * b <= num);
        assert(num * a >= num) by (nonlinear_arith)
            requires
                a >= 1,
        ;
        assert(den * b >= 2 * den) by (nonlinear_arith)
            requires
                b >= 2,
        ;
    }
}

/// What is correctly rounded is the nearest value.
pub proof fn lemma_nearest<F: RawFloat>(num: nat, den: nat, fp: Fp)
    requires
        den > 0,
        correctly_rounded::<F>(num, den, fp),
    ensures
        fp == nearest::<F>(num, den),
{
    let other = nearest::<F>(num, den);
    assert(correctly_rounded::<F>(num, den, other));
    if num != 0 {
        let e1 = choose|e: int| in_binade(num, den, e) && fp == rounded_in_binade::<F>(num, den, e);
        let e2 = choose|e: int|
            in_binade(num, den, e) && other == rounded_in_binade::<F>(num, den, e);
        lemma_binade_unique(num, den, e1, e2);
    }
}

/// A number that is `q * d + t` with `t < d` rounds to `q`, or to `q + 1`
/// where `t` is more than half of `d`, or half of it with `q` odd.
pub proof fn lemma_round_half_even(n: nat, d: nat, q: nat, t: nat)
    requires
        d > 0,
        n == q * d + t,
        t < d,
    ensures
        round_half_even(n, d) == if 2 * t > d || (2 * t == d && q % 2 == 1) {
            q + 1
        } else {
            q
        },
{
    assert(n == d * q + t) by (nonlinear_arith)
        requires
            n == q * d + t,
    ;
    vstd::arithmetic::div_mod::lemma_fundamental_div_mod_converse(
        n as int,
        d as int,
        q as int,
        t as int,
    );
}

/// The rounding of `num / den` from a quotient with one bit more than the
/// significand has.
///
/// `a` is `num` scaled by a power of two, up (`down` doublings) or down
/// (`up` halvings that leave `rest`), so that `a / den`, which is `q` with
/// the remainder `r`, lies between `2^(bits + 1)` and `2^(bits + 2)`. Then
/// the binary exponent of `num / den` is `up - down + bits + 1`, and the
/// significand is the upper part of `q`, plus one where the last bit of `q`
/// is set and either something is left below it or the upper part is odd.
pub proof fn lemma_round_ratio(
    num: nat,
    den: nat,
    a: nat,
    up: nat,
    down: nat,
    rest: nat,
    q: nat,
    r: nat,
    bits: nat,
)
    requires
        den > 0,
        up == 0 || down == 0,
        num * pow2(down) == a * pow2(up) + rest,
        rest < pow2(up),
        a == q * den + r,
        r < den,
        pow2(bits + 1) <= q < 2 * pow2(bits + 1),
    ensures
        in_binade(num, den, up - down + bits + 1),
        round_half_even(
            scaled_num(num, down - up - 1),
            scaled_den(den, down - up - 1),
        ) == q / 2 + (if q % 2 == 1 && (r != 0 || rest != 0 || (q / 2) % 2 == 1) {
            1nat
        } else {
            0nat
        }),
{
    let e = up - down + bits + 1;
    let k = down - up - 1;
    let top = pow2(bits + 1);
    let mant = q / 2;
    let round = q % 2;
    lemma_pow2_pos(bits + 1);
    lemma_pow2_pos(up);
    lemma_pow2_pos(down);
    lemma2_to64();
    // den * top <= a < 2 * den * top
    assert(den * top <= a) by (nonlinear_arith)
        requires
            a == q * den + r,
            top <= q,
    ;
    assert(a < 2 * (den * top)) by (nonlinear_arith)
        requires
            a == q * den + r,
            r < den,
            q + 1 <= 2 * top,
    ;
    if up > 0 {
        // num == a * 2^up + rest: the quotient was halved `up` times
        let u = pow2(up);
        assert(down == 0);
        assert(pow2(0) == 1);
        assert(num * 1 == num);
        assert(num == a * u + rest);
        lemma_pow2_unfold(up + 1);
        lemma_pow2_adds(bits + 1, up);
        lemma_pow2_pos((bits + 1 + up) as nat);
        let w = pow2((bits + 1 + up) as nat);
        assert(den * w <= num) by (nonlinear_arith)
            requires
                den * top <= a,
                num == a * u + rest,
                w == top * u,
                u > 0,
        ;
        assert(num < 2 * (den * w)) by (nonlinear_arith)
            requires
                a + 1 <= 2 * (den * top),
                num == a * u + rest,
                rest < u,
                w == top * u,
                u > 0,
        ;
        let d2 = den * pow2(up + 1);
        let t = round * den * u + r * u + rest;
        assert(num == mant * d2 + t) by (nonlinear_arith)
            requires
                num == a * u + rest,
                a == q * den + r,
                q == 2 * mant + round,
                d2 == den * pow2(up + 1),
                pow2(up + 1) == 2 * u,
                t == round * den * u + r * u + rest,
        ;
        assert(r * u + rest < den * u) by (nonlinear_arith)
            requires
                r + 1 <= den,
                rest < u,
                u > 0,
        ;
        assert(t < d2 && (2 * t > d2 <==> round == 1 && (r != 0 || rest != 0)) && (2 * t == d2
            <==> round == 1 && r == 0 && rest == 0)) by (nonlinear_arith)
            requires
                t == round * den * u + r * u + rest,
                d2 == den * pow2(up + 1),
                pow2(up + 1) == 2 * u,
                r * u + rest < den * u,
                round == 0 || round == 1,
                u > 0,
                den > 0,
        ;
        assert(d2 > 0) by (nonlinear_arith)
            requires
                d2 == den * pow2(up + 1),
                pow2(up + 1) == 2 * u,
                u > 0,
                den > 0,
        ;
        lemma_round_half_even(num, d2, mant, t);
    } else if down == 0 {
        // num == a
        lemma_pow2_unfold(1);
        assert(pow2(0) == 1);
        assert(num == a) by (nonlinear_arith)
            requires
                num * pow2(down) == a * pow2(up) + rest,
                pow2(down) == 1,
                pow2(up) == 1,
                rest < 1,
        ;
        assert(rest == 0);
        let t = round * den + r;
        assert(num == mant * (2 * den) + t) by (nonlinear_arith)
            requires
                num == q * den + r,
                q == 2 * mant + round,
                t == round * den + r,
        ;
        assert(den * pow2(1) == 2 * den);
        lemma_round_half_even(num, 2 * den, mant, t);
    } else {
        // a == num * 2^down: the quotient was doubled `down` times
        let v = pow2(down);
        assert(pow2(0) == 1);
        assert(rest == 0);
        assert(a == num * v) by (nonlinear_arith)
            requires
                num * v == a * pow2(up) + rest,
                pow2(up) == 1,
                rest == 0,
        ;
        lemma_pow2_unfold(down);
        let half = pow2((down - 1) as nat);
        let n = num * half;
        assert(a == 2 * n) by (nonlinear_arith)
            requires
                a == num * v,
                v == 2 * half,
                n == num * half,
        ;
        let t2 = round * den + r;
        // 2 * n == (2 * mant + round) * den + r, so `round * den + r` is even
        assert(2 * n == 2 * (mant * den) + t2) by (nonlinear_arith)
            requires
                2 * n == q * den + r,
                q == 2 * mant + round,
                t2 == round * den + r,
        ;
        let t = t2 / 2;
        assert(t2 == 2 * t);
        assert(n == mant * den + t);
        lemma_round_half_even(n, den, mant, t);
        // the binary exponent
        if e > 0 {
            let c = pow2(e as nat);
            lemma_pow2_adds(e as nat, down);
            assert(den * c <= num) by (nonlinear_arith)
                requires
                    den * top <= num * v,
                    top == c * v,
                    v > 0,
            ;
            assert(num < 2 * (den * c)) by (nonlinear_arith)
                requires
                    num * v < 2 * (den * top),
                    top == c * v,
                    v > 0,
            ;
        } else {
            let c = pow2((-e) as nat);
            lemma_pow2_adds((-e) as nat, bits + 1);
            lemma_pow2_pos((-e) as nat);
            assert(den <= num * c) by (nonlinear_arith)
                requires
                    den * top <= num * v,
                    v == c * top,
                    top > 0,
            ;
            assert(num * c < 2 * den) by (nonlinear_arith)
                requires
                    num * v < 2 * (den * top),
                    v == c * top,
                    top > 0,
            ;
        }
    }
}

/// Rounds `num / den` to the format `F`, for a quotient that lies within
/// the range of the normal numbers of both formats.
///
/// The numerator is doubled or halved until the integer quotient has one
/// bit more than a significand with its hidden bit. That last bit, and
/// whether anything is left below it, decide the rounding.
pub fn round_ratio<F: RawFloat>(num: u128, den: u128) -> (r: Fp)
    requires
        0 < den < 0x400_0000_0000_0000_0000,
        num < 0x8000_0000_0000_0000_0000_0000_0000_0000,
    ensures
        correctly_rounded::<F>(num as nat, den as nat, r),
        r == nearest::<F>(num as nat, den as nat),
        0 <= r.power2 < F::INFINITE_POWER,
        r.mantissa < pow2(F::MANTISSA_EXPLICIT_BITS as nat),
{
    proof {
        lemma_format::<F>();
        lemma2_to64();
        lemma2_to64_rest();
    }
    if num == 0 {
        let r = Fp::zero_pow2(0);
        proof {
            lemma_nearest::<F>(0, den as nat, r);
        }
        return r;
    }
    let bits = F::MANTISSA_EXPLICIT_BITS;
    let top = F::MAX_MANTISSA_FAST_PATH as u128;
    assert(top == pow2((bits + 1) as nat));
    assert(den * top < 0x8000_0000_0000_0000_0000_0000_0000_0000) by (nonlinear_arith)
        requires
            den < 0x400_0000_0000_0000_0000,
            top <= 0x20_0000_0000_0000,
    ;
    let lo = den * top;
    let hi = 2 * lo;
    assert(lo >= 2) by (nonlinear_arith)
        requires
            lo == den * top,
            den >= 1,
            top >= 2,
    ;
    let mut a = num;
    let mut exp: i32 = 0;
    let mut sticky = false;
    let ghost up: nat = 0;
    let ghost down: nat = 0;
    let ghost rest: nat = 0;
    assert(num as nat * pow2(0) == a as nat * pow2(0) + 0) by (nonlinear_arith)
        requires
            a == num,
    ;
    while a >= hi
        invariant
            0 < den,
            lo == den * top,
            hi == 2 * lo,
            top >= 2,
            down == 0,
            exp == up,
            num as nat * pow2(down) == a as nat * pow2(up) + rest,
            rest < pow2(up),
            sticky <==> rest != 0,
            up > 0 ==> a >= lo,
            a > 0,
            lo >= 2,
            up <= 127,
            num < 0x8000_0000_0000_0000_0000_0000_0000_0000,
            pow2(0) == 1,
        decreases a,
    {
        proof {
            let u = pow2(up);
            lemma_pow2_unfold(up + 1);
            lemma_pow2_pos(up);
            let bit = (a % 2) as nat;
            let half = (a / 2) as nat;
            assert(a as nat * u + rest == half * (2 * u) + (bit * u + rest)) by (nonlinear_arith)
                requires
                    a == 2 * half + bit,
            ;
            assert(bit * u + rest < 2 * u) by (nonlinear_arith)
                requires
                    bit <= 1,
                    rest < u,
            ;
            assert(bit * u + rest != 0 <==> bit != 0 || rest != 0) by (nonlinear_arith)
                requires
                    bit <= 1,
                    u > 0,
            ;
            rest = bit * u + rest;
            if up + 1 > 127 {
                lemma_pow2_le(127, up + 1);
                assert(half >= 1);
                assert(half * pow2(up + 1) >= pow2(up + 1)) by (nonlinear_arith)
                    requires
                        half >= 1,
                ;
                lemma_pow2_wide();
                assert(false);
            }
            up = up + 1;
        }
        if a % 2 == 1 {
            sticky = true;
        }
        a = a / 2;
        exp += 1;
    }
    while a < lo
        invariant
            0 < den,
            lo == den * top,
            hi == 2 * lo,
            lo < 0x8000_0000_0000_0000_0000_0000_0000_0000,
            up == 0 || down == 0,
            exp == up - down,
            up <= 127,
            down <= 127,
            num as nat * pow2(down) == a as nat * pow2(up) + rest,
            rest < pow2(up),
            sticky <==> rest != 0,
            up > 0 ==> a >= lo,
            a > 0,
            a < hi,
            num > 0,
            pow2(0) == 1,
        decreases
                (if a < lo {
                    lo - a
                } else {
                    0
                }),
    {
        proof {
            assert(up == 0);
            assert(rest == 0);
            lemma_pow2_unfold(down + 1);
            assert(num as nat * pow2(down + 1) == (2 * a) as nat * pow2(0) + 0) by (nonlinear_arith)
                requires
                    num as nat * pow2(down) == a as nat * pow2(0) + 0,
                    pow2(down + 1) == 2 * pow2(down),
                    pow2(0) == 1,
            ;
            if down + 1 > 127 {
                lemma_pow2_le(127, down);
                lemma_pow2_wide();
                assert(num as nat * pow2(down) >= pow2(down)) by (nonlinear_arith)
                    requires
                        num >= 1,
                ;
                assert(a as nat * 1 == a);
                assert(false);
            }
            down = down + 1;
        }
        a = a * 2;
        exp -= 1;
    }
    let q = a / den;
    let rem = a % den;
    proof {
        vstd::arithmetic::div_mod::lemma_fundamental_div_mod(a as int, den as int);
        vstd::arithmetic::div_mod::lemma_mod_bound(a as int, den as int);
        assert(a == q * den + rem) by (nonlinear_arith)
            requires
                a == den * q + rem,
        ;
        assert(top <= q) by (nonlinear_arith)
            requires
                den * top <= a,
                a == q * den + rem,
                rem < den,
        ;
        assert(q < 2 * top) by (nonlinear_arith)
            requires
                a < 2 * (den * top),
                a == q * den + rem,
                0 <= rem,
                den > 0,
        ;
        lemma_round_ratio(
            num as nat,
            den as nat,
            a as nat,
            up,
            down,
            rest,
            q as nat,
            rem as nat,
            bits as nat,
        );
        lemma_pow2_unfold((bits + 1) as nat);
    }
    if rem != 0 {
        sticky = true;
    }
    let mut mantissa = (q / 2) as u64;
    if q % 2 == 1 && (sticky || mantissa % 2 == 1) {
        mantissa += 1;
    }
    let mut power2 = exp + bits as i32 + 1 - F::MINIMUM_EXPONENT;
    let hidden = F::MAX_MANTISSA_FAST_PATH / 2;
    proof {
        // the bounds of the binary exponent
        let e = up - down + bits + 1;
        if up > 0 {
            let w = pow2((bits + 1 + up) as nat);
            lemma_pow2_adds((bits + 1) as nat, up);
            assert(w <= num) by (nonlinear_arith)
                requires
                    lo <= a,
                    lo == den * top,
                    den >= 1,
                    num as nat == a as nat * pow2(up) + rest,
                    w == top * pow2(up),
            ;
            lemma_pow2_adds(63, 64);
            if bits + 1 + up >= 127 {
                lemma_pow2_le(127, (bits + 1 + up) as nat);
                assert(false);
            }
        } else {
            let v = pow2(down);
            lemma_pow2_adds(74, (bits + 2) as nat);
            lemma_pow2_adds(10, 64);
            lemma_pow2_unfold((bits + 2) as nat);
            assert(v <= a) by (nonlinear_arith)
                requires
                    num as nat * v == a as nat * 1 + 0,
                    num >= 1,
            ;
            assert(a < pow2(74) * pow2((bits + 2) as nat)) by (nonlinear_arith)
                requires
                    a < 2 * (den * top),
                    den < pow2(74),
                    pow2((bits + 2) as nat) == 2 * top,
            ;
            if down >= 76 + bits {
                lemma_pow2_le((76 + bits) as nat, down);
                assert(false);
            }
        }
        assert(-75 <= e <= 126);
    }
    if mantissa == F::MAX_MANTISSA_FAST_PATH {
        mantissa = hidden;
        power2 += 1;
    }
    let r = Fp { mantissa: mantissa - hidden, power2 };
    proof {
        let e = up - down + bits + 1;
        assert(bits - e == down - up - 1);
        assert(r == rounded_in_binade::<F>(num as nat, den as nat, e));
        lemma_nearest::<F>(num as nat, den as nat, r);
    }
    r
}

/// Two fractions of the same value round to the same integer.
pub proof fn lemma_round_half_even_ratio(n1: nat, d1: nat, n2: nat, d2: nat)
    requires
        d1 > 0,
        d2 > 0,
        n1 * d2 == n2 * d1,
    ensures
        round_half_even(n1, d1) == round_half_even(n2, d2),
{
    let q = n1 / d1;
    let r1 = n1 % d1;
    vstd::arithmetic::div_mod::lemma_fundamental_div_mod(n1 as int, d1 as int);
    vstd::arithmetic::div_mod::lemma_mod_bound(n1 as int, d1 as int);
    // n2 == q * d2 + r2 with r2 * d1 == r1 * d2
    assert(q * d2 * d1 <= n2 * d1) by (nonlinear_arith)
        requires
            n1 == d1 * q + r1,
            n1 * d2 == n2 * d1,
            r1 >= 0,
            d2 >= 0,
    ;
    assert(q * d2 <= n2) by (nonlinear_arith)
        requires
            q * d2 * d1 <= n2 * d1,
            d1 > 0,
    ;
    let r2 = (n2 - q * d2) as nat;
    assert(r2 * d1 == r1 * d2) by (nonlinear_arith)
        requires
            n1 == d1 * q + r1,
            n1 * d2 == n2 * d1,
            n2 == q * d2 + r2,
    ;
    assert(r2 < d2) by (nonlinear_arith)
        requires
            r2 * d1 == r1 * d2,
            r1 < d1,
            d1 > 0,
            d2 > 0,
    ;
    lemma_round_half_even(n2, d2, q, r2);
    assert(n1 == q * d1 + r1) by (nonlinear_arith)
        requires
            n1 == d1 * q + r1,
    ;
    lemma_round_half_even(n1, d1, q, r1);
    assert((2 * r1 > d1 <==> 2 * r2 > d2) && (2 * r1 == d1 <==> 2 * r2 == d2))
        by (nonlinear_arith)
        requires
            r2 * d1 == r1 * d2,
            d1 > 0,
            d2 > 0,
    ;
}

/// The scaled forms of two fractions of the same value are fractions of
/// the same value.
proof fn lemma_scaled_ratio(n1: nat, d1: nat, n2: nat, d2: nat, k: int)
    requires
        n1 * d2 == n2 * d1,
    ensures
        scaled_num(n1, k) * scaled_den(d2, k) == scaled_num(n2, k) * scaled_den(d1, k),
        d1 > 0 ==> scaled_den(d1, k) > 0,
        d2 > 0 ==> scaled_den(d2, k) > 0,
{
    if k >= 0 {
        let p = pow2(k as nat);
        assert((n1 * p) * d2 == (n2 * p) * d1) by (nonlinear_arith)
            requires
                n1 * d2 == n2 * d1,
        ;
    } else {
        let p = pow2((-k) as nat);
        lemma_pow2_pos((-k) as nat);
        assert(n1 * (d2 * p) == n2 * (d1 * p)) by (nonlinear_arith)
            requires
                n1 * d2 == n2 * d1,
        ;
        assert(d1 > 0 ==> d1 * p > 0) by (nonlinear_arith)
            requires
                p > 0,
        ;
        assert(d2 > 0 ==> d2 * p > 0) by (nonlinear_arith)
            requires
                p > 0,
        ;
    }
}

/// Two fractions of the same value have the same binary exponent.
proof fn lemma_binade_ratio(n1: nat, d1: nat, n2: nat, d2: nat, e: int)
    requires
        d1 > 0,
        d2 > 0,
        n1 * d2 == n2 * d1,
        in_binade(n1, d1, e),
    ensures
        in_binade(n2, d2, e),
{
    lemma_scaled_ratio(n1, d1, n2, d2, -e);
    let a1 = scaled_num(n1, -e);
    let b1 = scaled_den(d1, -e);
    let a2 = scaled_num(n2, -e);
    let b2 = scaled_den(d2, -e);
    assert(b2 <= a2 && a2 < 2 * b2) by (nonlinear_arith)
        requires
            a1 * b2 == a2 * b1,
            b1 <= a1,
            a1 < 2 * b1,
            b1 > 0,
            b2 > 0,
    ;
}

/// What is correctly rounded for a fraction is so for every fraction of the
/// same value.
pub proof fn lemma_correctly_rounded_ratio<F: RawFloat>(
    n1: nat,
    d1: nat,
    n2: nat,
    d2: nat,
    fp: Fp,
)
    requires
        d1 > 0,
        d2 > 0,
        n1 * d2 == n2 * d1,
        correctly_rounded::<F>(n1, d1, fp),
    ensures
        correctly_rounded::<F>(n2, d2, fp),
{
    if n1 == 0 {
        assert(n2 == 0) by (nonlinear_arith)
            requires
                0 == n2 * d1,
                d1 > 0,
        ;
    } else {
        assert(n2 != 0) by (nonlinear_arith)
            requires
                n1 * d2 == n2 * d1,
                n1 > 0,
                d2 > 0,
        ;
        let e = choose|e: int| in_binade(n1, d1, e) && fp == rounded_in_binade::<F>(n1, d1, e);
        lemma_binade_ratio(n1, d1, n2, d2, e);
        let bits = F::MANTISSA_EXPLICIT_BITS as nat;
        let k1 = bits - e;
        let k2 = bits - 1 - F::MINIMUM_EXPONENT;
        lemma_scaled_ratio(n1, d1, n2, d2, k1);
        lemma_scaled_ratio(n1, d1, n2, d2, k2);
        lemma_round_half_even_ratio(
            scaled_num(n1, k1),
            scaled_den(d1, k1),
            scaled_num(n2, k1),
            scaled_den(d2, k1),
        );
        lemma_round_half_even_ratio(
            scaled_num(n1, k2),
            scaled_den(d1, k2),
            scaled_num(n2, k2),
            scaled_den(d2, k2),
        );
        assert(fp == rounded_in_binade::<F>(n2, d2, e));
    }
}

/// Every positive fraction has a binary exponent.
pub proof fn lemma_binade_exists(num: nat, den: nat)
    requires
        num > 0,
        den > 0,
    ensures
        exists|e: int| in_binade(num, den, e),
    decreases
            (if num < den {
                1nat
            } else {
                0nat
            }),
            (if num < den {
                (den - num) as nat
            } else {
                (num - den) as nat
            }),
{
    lemma2_to64();
    if den <= num && num < 2 * den {
        assert(num * pow2(0) == num);
        assert(in_binade(num, den, 0));
    } else if num >= 2 * den {
        let twice = 2 * den;
        lemma_binade_exists(num, twice);
        let e = choose|e: int| in_binade(num, twice, e);
        // 2^e <= num / (2 * den) < 2^(e + 1)
        if e + 1 > 0 {
            lemma_pow2_unfold((e + 1) as nat);
            if e > 0 {
                assert((2 * den) * pow2(e as nat) == den * pow2((e + 1) as nat))
                    by (nonlinear_arith)
                    requires
                        pow2((e + 1) as nat) == 2 * pow2(e as nat),
                ;
            } else {
                assert(den * pow2(1) == 2 * den);
                assert(num * pow2(0) == num);
            }
        } else {
            lemma_pow2_unfold((-e) as nat);
            assert(num * pow2((-e) as nat) == 2 * (num * pow2((-e - 1) as nat)))
                by (nonlinear_arith)
                requires
                    pow2((-e) as nat) == 2 * pow2((-e - 1) as nat),
            ;
        }
        assert(in_binade(num, den, e + 1));
    } else {
        let twice = 2 * num;
        lemma_binade_exists(twice, den);
        let e = choose|e: int| in_binade(twice, den, e);
        // 2^e <= 2 * num / den < 2^(e + 1)
        if e - 1 >= 0 {
            lemma_pow2_unfold(e as nat);
            assert(den * pow2(e as nat) == 2 * (den * pow2((e - 1) as nat))) by (nonlinear_arith)
                requires
                    pow2(e as nat) == 2 * pow2((e - 1) as nat),
            ;
            if e - 1 == 0 {
                assert(num * pow2(0) == num);
                assert(den * pow2(0) == den);
            }
        } else {
            lemma_pow2_unfold((1 - e) as nat);
            assert((2 * num) * pow2((-e) as nat) == num * pow2((1 - e) as nat))
                by (nonlinear_arith)
                requires
                    pow2((1 - e) as nat) == 2 * pow2((-e) as nat),
            ;
        }
        assert(in_binade(num, den, e - 1));
    }
}

/// The nearest value is correctly rounded: there is one for every fraction.
pub proof fn lemma_nearest_exists<F: RawFloat>(num: nat, den: nat)
    requires
        den > 0,
    ensures
        correctly_rounded::<F>(num, den, nearest::<F>(num, den)),
{
    if num == 0 {
        assert(correctly_rounded::<F>(num, den, Fp { mantissa: 0, power2: 0 }));
    } else {
        lemma_binade_exists(num, den);
        let e = choose|e: int| in_binade(num, den, e);
        assert(correctly_rounded::<F>(num, den, rounded_in_binade::<F>(num, den, e)));
    }
}

/// The nearest value depends on the value of the fraction alone.
pub proof fn lemma_nearest_ratio<F: RawFloat>(n1: nat, d1: nat, n2: nat, d2: nat)
    requires
        d1 > 0,
        d2 > 0,
        n1 * d2 == n2 * d1,
    ensures
        nearest::<F>(n1, d1) == nearest::<F>(n2, d2),
{
    lemma_nearest_exists::<F>(n1, d1);
    lemma_correctly_rounded_ratio::<F>(n1, d1, n2, d2, nearest::<F>(n1, d1));
    lemma_nearest::<F>(n2, d2, nearest::<F>(n1, d1));
}

} // verus!
