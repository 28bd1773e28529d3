//! Where the Eisel-Lemire algorithm is exact: the cases in which its result
//! is shown to be the value of the format that is nearest to `w * 10^q`.

use crate::dec2flt::arith::{clear_bit, two64};
use crate::dec2flt::common::Fp;
use crate::dec2flt::decimal::lemma_pow2_pow5;
use crate::dec2flt::digits::{lemma_pow10, lemma_pow5, pow10, pow5};
use crate::dec2flt::float::{lemma_format, lemma_hidden_bit, same_encoding, RawFloat};
use crate::dec2flt::lemire::{compute_float_model, power_model, product_approx_model, product_words, rounded_product, significand_shift, tie_detected, upper_bit, wide_significand};
use crate::dec2flt::rounding::{correctly_rounded, in_binade, lemma_nearest, lemma_pow2_le, lemma_round_half_even, lemma_round_half_even_ratio, lemma_round_ratio, nearest, round_half_even, rounded_in_binade, scaled_den, scaled_num};
use crate::dec2flt::table::{entry_value, lemma_no_false_tie, lemma_power_table, lemma_reciprocal_entry, power_of_five_128, table_exponent};
use vstd::arithmetic::power2::{lemma2_to64, lemma2_to64_rest, lemma_pow2_adds, lemma_pow2_pos, lemma_pow2_unfold, pow2};
use vstd::prelude::*;
use vstd::std_specs::bits::u64_leading_zeros;

verus! {

/// The upper word of a product of two words with their top bits set: its
/// upper bit, its shift and its wide significand.
pub proof fn lemma_wide_significand<F: RawFloat>(hi: nat)
    requires
        pow2(62) <= hi < pow2(64),
    ensures
        upper_bit(hi) <= 1,
        upper_bit(hi) == 1 <==> hi >= pow2(63),
        9 <= significand_shift::<F>(hi) <= 39,
        pow2((F::MANTISSA_EXPLICIT_BITS + 1) as nat) <= wide_significand::<F>(hi) < 2 * pow2(
            (F::MANTISSA_EXPLICIT_BITS + 1) as nat,
        ),
        hi == wide_significand::<F>(hi) * pow2(significand_shift::<F>(hi)) + hi % pow2(
            significand_shift::<F>(hi),
        ),
        hi % pow2(significand_shift::<F>(hi)) < pow2(significand_shift::<F>(hi)),
{
    lemma_format::<F>();
    lemma2_to64();
    lemma2_to64_rest();
    let bits = F::MANTISSA_EXPLICIT_BITS as nat;
    let ub = upper_bit(hi);
    let shift = significand_shift::<F>(hi);
    let s = pow2(shift);
    lemma_pow2_pos(shift);
    lemma_pow2_adds(shift, bits + 1);
    lemma_pow2_unfold(bits + 2);
    vstd::arithmetic::div_mod::lemma_fundamental_div_mod(hi as int, s as int);
    vstd::arithmetic::div_mod::lemma_mod_bound(hi as int, s as int);
    let m = hi / s;
    assert(hi == m * s + hi % s) by (nonlinear_arith)
        requires
            hi == s * m + hi % s,
    ;
    if ub == 1 {
        // shift + bits + 1 == 63
        assert(pow2(bits + 1) <= m && m < 2 * pow2(bits + 1)) by (nonlinear_arith)
            requires
                hi == m * s + hi % s,
                0 <= hi % s < s,
                s * pow2(bits + 1) <= hi,
                hi < 2 * (s * pow2(bits + 1)),
        ;
    } else {
        // shift + bits + 1 == 62
        assert(pow2(bits + 1) <= m && m < 2 * pow2(bits + 1)) by (nonlinear_arith)
            requires
                hi == m * s + hi % s,
                0 <= hi % s < s,
                s * pow2(bits + 1) <= hi,
                hi < 2 * (s * pow2(bits + 1)),
        ;
    }
}

/// Where the upper word of a product holds the true top bits of `num / den`
/// scaled by a power of two, and a tie is detected exactly where there is
/// one with an even lower neighbour, the rounded product is the value of the
/// format that is nearest to `num / den`: for a quotient in the range of the
/// normal numbers.
///
/// As in [`lemma_round_ratio`], `a` is `num` scaled up by `2^down` or down
/// by `2^up`, which leaves `rest`, so that `a / den` is the wide significand
/// with the remainder `r`.
pub proof fn lemma_product_rounds<F: RawFloat>(
    q: int,
    lz: int,
    lo: nat,
    hi: nat,
    num: nat,
    den: nat,
    a: nat,
    up: nat,
    down: nat,
    rest: nat,
    r: nat,
)
    requires
        pow2(62) <= hi < pow2(64),
        den > 0,
        up == 0 || down == 0,
        num * pow2(down) == a * pow2(up) + rest,
        rest < pow2(up),
        a == wide_significand::<F>(hi) * den + r,
        r < den,
        up - down + F::MANTISSA_EXPLICIT_BITS + 1 == power_model(q) + upper_bit(hi) - lz,
        power_model(q) + upper_bit(hi) - lz - F::MINIMUM_EXPONENT >= 1,
        tie_detected::<F>(q, lo, hi) <==> (wide_significand::<F>(hi) % 4 == 1 && r == 0 && rest
            == 0),
    ensures
        correctly_rounded::<F>(num, den, rounded_product::<F>(q, lz, lo, hi)),
        rounded_product::<F>(q, lz, lo, hi) == nearest::<F>(num, den),
{
    lemma_format::<F>();
    lemma_wide_significand::<F>(hi);
    let bits = F::MANTISSA_EXPLICIT_BITS as nat;
    let m2 = wide_significand::<F>(hi);
    let e = power_model(q) + upper_bit(hi) - lz;
    let result = rounded_product::<F>(q, lz, lo, hi);
    lemma_round_ratio(num, den, a, up, down, rest, m2, r, bits);
    lemma_pow2_unfold(bits + 1);
    lemma_pow2_pos(bits);
    let h = m2 / 2;
    let m = round_half_even(scaled_num(num, bits - e), scaled_den(den, bits - e));
    assert(m == h + (if m2 % 2 == 1 && (r != 0 || rest != 0 || h % 2 == 1) {
        1nat
    } else {
        0nat
    }));
    // what the algorithm rounds to
    let even = if tie_detected::<F>(q, lo, hi) {
        (m2 - 1) as nat
    } else {
        m2
    };
    let rounded = (even + even % 2) / 2;
    assert(rounded == m);
    assert(pow2(bits) <= m <= 2 * pow2(bits));
    if m < 2 * pow2(bits) {
        // the hidden bit goes
        vstd::arithmetic::div_mod::lemma_fundamental_div_mod_converse(
            m as int,
            pow2(bits) as int,
            1,
            (m - pow2(bits)) as int,
        );
        assert(clear_bit(m, bits) == m - pow2(bits));
    } else {
        vstd::arithmetic::div_mod::lemma_fundamental_div_mod_converse(
            pow2(bits) as int,
            pow2(bits) as int,
            1,
            0,
        );
        assert(clear_bit(pow2(bits), bits) == 0);
    }
    assert(result == rounded_in_binade::<F>(num, den, e));
    assert(num > 0) by {
        if num == 0 {
            lemma_pow2_pos(up);
            assert(a * pow2(up) + rest == 0);
            assert(a == 0) by (nonlinear_arith)
                requires
                    a * pow2(up) + rest == 0,
                    pow2(up) > 0,
            ;
            assert(m2 * den == 0);
            assert(m2 == 0) by (nonlinear_arith)
                requires
                    m2 * den + r == 0,
                    den > 0,
            ;
        }
    }
    lemma_nearest::<F>(num, den, result);
}

/// The powers of five are odd.
pub proof fn lemma_pow5_odd(n: nat)
    ensures
        pow5(n) % 2 == 1,
    decreases n,
{
    lemma_pow5(n);
    if n > 0 {
        lemma_pow5_odd((n - 1) as nat);
        lemma_pow5((n - 1) as nat);
        let x = pow5((n - 1) as nat);
        assert((5 * x) % 2 == 1) by (nonlinear_arith)
            requires
                x % 2 == 1,
        ;
    }
}

/// The powers of five grow with the exponent.
pub proof fn lemma_pow5_increases(a: nat, b: nat)
    requires
        a <= b,
    ensures
        pow5(a) <= pow5(b),
{
    vstd::arithmetic::power::lemma_pow_positive(5, a);
    vstd::arithmetic::power::lemma_pow_positive(5, b);
    vstd::arithmetic::power::lemma_pow_increases(5, a, b);
}

/// An odd number that divides the double of a number divides the number.
proof fn lemma_odd_divides_half(d: nat, x: nat)
    requires
        d % 2 == 1,
        (2 * x) % d == 0,
    ensures
        x % d == 0,
{
    vstd::arithmetic::div_mod::lemma_fundamental_div_mod((2 * x) as int, d as int);
    let k = (2 * x) / d;
    assert(2 * x == d * k);
    let a = k / 2;
    let b = d / 2;
    let bit = k % 2;
    let y = 2 * a * b + a + b * bit;
    assert(d * k == 2 * y + bit) by (nonlinear_arith)
        requires
            d == 2 * b + 1,
            k == 2 * a + bit,
            y == 2 * a * b + a + b * bit,
    ;
    assert(bit == 2 * (x - y));
    assert(k % 2 == 0);
    assert(x == d * a) by (nonlinear_arith)
        requires
            2 * x == d * k,
            k == 2 * a,
    ;
    vstd::arithmetic::div_mod::lemma_fundamental_div_mod_converse(x as int, d as int, a as int, 0);
}

/// An odd number that divides a number times a power of two divides the
/// number.
pub proof fn lemma_odd_divides(d: nat, x: nat, j: nat)
    requires
        d % 2 == 1,
        (x * pow2(j)) % d == 0,
    ensures
        x % d == 0,
    decreases j,
{
    lemma2_to64();
    if j == 0 {
        assert(x * 1 == x);
    } else {
        lemma_pow2_unfold(j);
        let y = x * pow2((j - 1) as nat);
        assert(x * pow2(j) == 2 * y) by (nonlinear_arith)
            requires
                pow2(j) == 2 * pow2((j - 1) as nat),
                y == x * pow2((j - 1) as nat),
        ;
        lemma_odd_divides_half(d, y);
        lemma_odd_divides(d, x, (j - 1) as nat);
    }
}

/// The entries for `5^0` to `5^27`: the power of five, times a power of
/// two from two on, in the upper word, and nothing in the lower word.
pub proof fn lemma_short_entry(q: int)
    requires
        0 <= q <= 27,
    ensures
        65 <= table_exponent(q) <= 127,
        table_exponent(q) == 190 + q - power_model(q),
        power_model(q) >= 63,
        power_of_five_128(q).1 == 0,
        power_of_five_128(q).0 == pow5(q as nat) * pow2((table_exponent(q) - 64) as nat),
        pow2(63) <= power_of_five_128(q).0 < pow2(64),
{
    lemma_power_table(q);
    lemma2_to64();
    lemma2_to64_rest();
    crate::dec2flt::arith::lemma_pow2_wide();
    let sigma = table_exponent(q);
    let hi = power_of_five_128(q).0 as nat;
    let lo = power_of_five_128(q).1 as nat;
    let big = pow2(64);
    let x = pow5(q as nat) * pow2((sigma - 64) as nat);
    lemma_pow2_adds((sigma - 64) as nat, 64);
    assert(hi * big + lo == x * big) by (nonlinear_arith)
        requires
            hi * big + lo == pow5(q as nat) * (pow2((sigma - 64) as nat) * big),
            x == pow5(q as nat) * pow2((sigma - 64) as nat),
    ;
    assert(lo == 0 && hi == x) by (nonlinear_arith)
        requires
            hi * big + lo == x * big,
            lo < big,
            big > 0,
    ;
}

/// A product `g * 2^a` that is `m * 2^j + rz`, against `g * 2^b`: that is
/// `m`, scaled by a power of two, with a rest that is zero where `rz` is.
/// The number that is returned is the rest.
pub proof fn lemma_rescale(g: nat, a: nat, b: nat, j: nat, m: nat, rz: nat) -> (rest: nat)
    requires
        g * pow2(a) == m * pow2(j) + rz,
        rz < pow2(j),
    ensures
        a >= b + j ==> rest == 0 && rz == 0 && (g * pow2(b)) * pow2((a - b - j) as nat) == m * pow2(
            0,
        ) + rest,
        a < b + j ==> (g * pow2(b)) * pow2(0) == m * pow2((b + j - a) as nat) + rest && rest < pow2(
            (b + j - a) as nat,
        ),
        rest == 0 <==> rz == 0,
{
    lemma2_to64();
    lemma_pow2_pos(a);
    lemma_pow2_pos(b);
    lemma_pow2_pos(j);
    let x = g * pow2(b);
    if a >= b + j {
        let down = (a - b - j) as nat;
        lemma_pow2_adds(b, down);
        lemma_pow2_adds(b + down, j);
        let y = x * pow2(down);
        assert(y * pow2(j) == g * pow2(a)) by (nonlinear_arith)
            requires
                y == (g * pow2(b)) * pow2(down),
                pow2(b + down) == pow2(b) * pow2(down),
                pow2(a) == pow2(b + down) * pow2(j),
        ;
        assert(y == m && rz == 0) by (nonlinear_arith)
            requires
                y * pow2(j) == m * pow2(j) + rz,
                rz < pow2(j),
                pow2(j) > 0,
        ;
        assert(m * 1 == m);
        0
    } else if a >= b {
        let up = (b + j - a) as nat;
        let t = (a - b) as nat;
        lemma_pow2_adds(b, t);
        lemma_pow2_adds(up, t);
        lemma_pow2_pos(t);
        lemma_pow2_pos(up);
        let low = m * pow2(up);
        assert(x * pow2(t) == low * pow2(t) + rz) by (nonlinear_arith)
            requires
                x == g * pow2(b),
                pow2(a) == pow2(b) * pow2(t),
                pow2(j) == pow2(up) * pow2(t),
                g * pow2(a) == m * pow2(j) + rz,
                low == m * pow2(up),
        ;
        assert(x >= low) by (nonlinear_arith)
            requires
                x * pow2(t) == low * pow2(t) + rz,
                pow2(t) > 0,
        ;
        let rest = (x - low) as nat;
        assert(rest * pow2(t) == rz) by (nonlinear_arith)
            requires
                x * pow2(t) == low * pow2(t) + rz,
                rest == x - low,
        ;
        assert(rest < pow2(up)) by (nonlinear_arith)
            requires
                rest * pow2(t) == rz,
                rz < pow2(up) * pow2(t),
                pow2(t) > 0,
        ;
        assert(rest == 0 <==> rz == 0) by (nonlinear_arith)
            requires
                rest * pow2(t) == rz,
                pow2(t) > 0,
        ;
        assert(x * 1 == x);
        rest
    } else {
        let t = (b - a) as nat;
        let up = (b + j - a) as nat;
        lemma_pow2_adds(a, t);
        lemma_pow2_adds(j, t);
        lemma_pow2_pos(t);
        let rest = rz * pow2(t);
        assert(x == m * pow2(up) + rest) by (nonlinear_arith)
            requires
                x == g * pow2(b),
                pow2(b) == pow2(a) * pow2(t),
                pow2(up) == pow2(j) * pow2(t),
                g * pow2(a) == m * pow2(j) + rz,
                rest == rz * pow2(t),
        ;
        assert(rest < pow2(up)) by (nonlinear_arith)
            requires
                rest == rz * pow2(t),
                rz < pow2(j),
                pow2(up) == pow2(j) * pow2(t),
                pow2(t) > 0,
        ;
        assert(rest == 0 <==> rz == 0) by (nonlinear_arith)
            requires
                rest == rz * pow2(t),
                pow2(t) > 0,
        ;
        assert(x * 1 == x);
        rest
    }
}

/// The Eisel-Lemire algorithm is exact for the decimal exponents from 0 to
/// 27, for which the table holds the power of five itself: it yields the
/// value of the format that is nearest to `w * 10^q`, with ties going to
/// the even significand.
pub proof fn lemma_exact_window<F: RawFloat>(q: int, w: u64)
    requires
        0 <= q <= 27,
        w != 0,
    ensures
        compute_float_model::<F>(q, w) == nearest::<F>(w as nat * pow10(q as nat), 1),
{
    lemma_format::<F>();
    lemma_short_entry(q);
    lemma2_to64();
    lemma2_to64_rest();
    crate::dec2flt::arith::lemma_pow2_wide();
    crate::dec2flt::arith::lemma_normalize_word(w);
    let bits = F::MANTISSA_EXPLICIT_BITS as nat;
    let lz = u64_leading_zeros(w);
    let sigma = table_exponent(q);
    let x5 = pow5(q as nat);
    let word = (w * pow2(lz as nat)) as nat;
    let thi = power_of_five_128(q).0 as nat;
    let first = word * thi;
    let lo = first % two64();
    let hi = first / two64();
    // the product is the first product alone
    assert(word * 0 == 0);
    assert(0nat / two64() == 0);
    assert(product_approx_model(q, word, bits + 3) == (lo, hi));
    vstd::arithmetic::div_mod::lemma_fundamental_div_mod(first as int, two64() as int);
    assert(first >= pow2(63) * pow2(63) && first < pow2(64) * pow2(64)) by (nonlinear_arith)
        requires
            first == word * thi,
            pow2(63) <= word < pow2(64),
            pow2(63) <= thi < pow2(64),
    ;
    lemma_pow2_adds(63, 63);
    lemma_pow2_adds(64, 62);
    assert(pow2(62) <= hi < pow2(64));
    lemma_wide_significand::<F>(hi);
    let ub = upper_bit(hi);
    let shift = significand_shift::<F>(hi);
    let m2 = wide_significand::<F>(hi);
    let j = 64 + shift;
    lemma_pow2_adds(shift, 64);
    let hr = hi % pow2(shift);
    let rz = hr * two64() + lo;
    assert(first == m2 * pow2(j) + rz && rz < pow2(j)) by (nonlinear_arith)
        requires
            first == two64() * hi + lo,
            hi == m2 * pow2(shift) + hr,
            hr < pow2(shift),
            lo < two64(),
            rz == hr * two64() + lo,
            pow2(j) == pow2(shift) * two64(),
    ;
    // the product and the number, as a number times powers of two
    let g = w as nat * x5;
    let a = (lz + sigma - 64) as nat;
    let b = q as nat;
    lemma_pow2_adds(lz as nat, (sigma - 64) as nat);
    lemma_pow2_pow5(b);
    assert(first == g * pow2(a)) by (nonlinear_arith)
        requires
            first == (w as nat * pow2(lz as nat)) * (x5 * pow2((sigma - 64) as nat)),
            pow2(a) == pow2(lz as nat) * pow2((sigma - 64) as nat),
            g == w as nat * x5,
    ;
    let num = w as nat * pow10(b);
    assert(num == g * pow2(b)) by (nonlinear_arith)
        requires
            num == w as nat * pow10(b),
            pow2(b) * x5 == pow10(b),
            g == w as nat * x5,
    ;
    let rest = lemma_rescale(g, a, b, j, m2, rz);
    let up = if a >= b + j {
        0nat
    } else {
        (b + j - a) as nat
    };
    let down = if a >= b + j {
        (a - b - j) as nat
    } else {
        0nat
    };
    // the product is even, so a low word of one is no low word of this product
    lemma_pow2_unfold((sigma - 64) as nat);
    let half = word * (x5 * pow2((sigma - 65) as nat));
    assert(first == 2 * half) by (nonlinear_arith)
        requires
            first == word * (x5 * pow2((sigma - 64) as nat)),
            pow2((sigma - 64) as nat) == 2 * pow2((sigma - 65) as nat),
            half == word * (x5 * pow2((sigma - 65) as nat)),
    ;
    assert(lo % 2 == 0);
    // a tie is detected exactly where there is one
    assert(m2 * pow2(shift) == hi <==> hr == 0);
    if m2 % 4 == 1 && rz == 0 && q > F::MAX_EXPONENT_ROUND_TO_EVEN {
        // there is no tie beyond the window: 5^q would divide the significand
        let cofactor = w as nat * pow2(a);
        assert(m2 * pow2(j) == cofactor * x5) by (nonlinear_arith)
            requires
                m2 * pow2(j) + 0 == (w as nat * x5) * pow2(a),
                cofactor == w as nat * pow2(a),
        ;
        lemma_pow5(b);
        vstd::arithmetic::div_mod::lemma_fundamental_div_mod_converse(
            (m2 * pow2(j)) as int,
            x5 as int,
            cofactor as int,
            0,
        );
        lemma_pow5_odd(b);
        lemma_odd_divides(x5, m2, j);
        vstd::arithmetic::div_mod::lemma_fundamental_div_mod(m2 as int, x5 as int);
        let k = m2 / x5;
        assert(m2 >= x5) by (nonlinear_arith)
            requires
                m2 == x5 * k,
                m2 > 0,
                x5 > 0,
                k >= 0,
        ;
        crate::dec2flt::shift_table::lemma_pow5_values();
        lemma_pow5_increases((F::MAX_EXPONENT_ROUND_TO_EVEN + 1) as nat, b);
        lemma_pow2_unfold(bits + 1);
        assert(false);
    }
    assert(tie_detected::<F>(q, lo, hi) <==> (m2 % 4 == 1 && rest == 0));
    lemma_product_rounds::<F>(q, lz, lo, hi, num, 1, m2, up, down, rest, 0);
}

/// A fraction `num / den` that, scaled by `2^k`, lies between `2^t` and
/// `2^(t + 1)`, has the binary exponent `t - k`.
pub proof fn lemma_binade_of_scaled(num: nat, den: nat, k: int, t: nat)
    requires
        den > 0,
        pow2(t) * scaled_den(den, k) <= scaled_num(num, k),
        scaled_num(num, k) < 2 * (pow2(t) * scaled_den(den, k)),
    ensures
        in_binade(num, den, t - k),
{
    let e = t - k;
    lemma2_to64();
    lemma_pow2_pos(t);
    if k >= 0 {
        let pk = pow2(k as nat);
        lemma_pow2_pos(k as nat);
        // 2^t * den <= num * 2^k < 2 * 2^t * den
        if e <= 0 {
            // -e == k - t: num * 2^(k - t) against den
            let x = pow2((k - t) as nat);
            lemma_pow2_adds((k - t) as nat, t);
            assert(den <= num * x && num * x < 2 * den) by (nonlinear_arith)
                requires
                    pow2(t) * den <= num * pk,
                    num * pk < 2 * (pow2(t) * den),
                    pk == x * pow2(t),
                    pow2(t) > 0,
            ;
        } else {
            // num against den * 2^e, e == t - k
            let y = pow2(e as nat);
            lemma_pow2_adds(e as nat, k as nat);
            lemma_pow2_pos(e as nat);
            assert(den * y <= num && num < 2 * (den * y)) by (nonlinear_arith)
                requires
                    pow2(t) * den <= num * pk,
                    num * pk < 2 * (pow2(t) * den),
                    pow2(t) == y * pk,
                    pk > 0,
            ;
        }
    } else {
        // 2^t * den * 2^-k <= num < 2 * 2^t * den * 2^-k, and e == t - k > 0
        let nk = pow2((-k) as nat);
        let y = pow2(e as nat);
        lemma_pow2_adds(t, (-k) as nat);
        assert(den * y <= num && num < 2 * (den * y)) by (nonlinear_arith)
            requires
                pow2(t) * (den * nk) <= num,
                num < 2 * (pow2(t) * (den * nk)),
                y == pow2(t) * nk,
        ;
    }
}

/// The scaled forms of a fraction for two exponents one apart.
proof fn lemma_scaled_step(num: nat, den: nat, k: int)
    ensures
        scaled_num(num, k) * scaled_den(den, k - 1) == 2 * (scaled_num(num, k - 1) * scaled_den(
            den,
            k,
        )),
        den > 0 ==> scaled_den(den, k) > 0 && scaled_den(den, k - 1) > 0,
{
    lemma2_to64();
    if k >= 1 {
        lemma_pow2_unfold(k as nat);
        assert((num * pow2(k as nat)) * den == 2 * ((num * pow2((k - 1) as nat)) * den))
            by (nonlinear_arith)
            requires
                pow2(k as nat) == 2 * pow2((k - 1) as nat),
        ;
    } else {
        lemma_pow2_unfold((1 - k) as nat);
        lemma_pow2_pos((-k) as nat);
        lemma_pow2_pos((1 - k) as nat);
        if k == 0 {
            assert((num * 1) * (den * 2) == 2 * (num * den)) by (nonlinear_arith);
            assert(den > 0 ==> den * 2 > 0);
        } else {
            assert(num * (den * pow2((1 - k) as nat)) == 2 * (num * (den * pow2((-k) as nat))))
                by (nonlinear_arith)
                requires
                    pow2((1 - k) as nat) == 2 * pow2((-k) as nat),
            ;
            assert(den > 0 ==> den * pow2((-k) as nat) > 0 && den * pow2((1 - k) as nat) > 0)
                by (nonlinear_arith)
                requires
                    pow2((-k) as nat) > 0,
                    pow2((1 - k) as nat) > 0,
            ;
        }
    }
}

/// Where the wide significand of a product is the integer part of
/// `num / den`, scaled by the power of two that belongs to the binary
/// exponent of the product, and a tie is detected exactly where there is one
/// with an even lower neighbour, the rounded product is the value of the
/// format that is nearest to `num / den`: for a quotient in the range of
/// the normal numbers.
///
/// `n / d` is `num / den` scaled by that power of two.
pub proof fn lemma_floor_rounds<F: RawFloat>(
    q: int,
    lz: int,
    lo: nat,
    hi: nat,
    num: nat,
    den: nat,
    n: nat,
    d: nat,
)
    requires
        pow2(62) <= hi < pow2(64),
        den > 0,
        d > 0,
        scaled_num(
            num,
            F::MANTISSA_EXPLICIT_BITS + 1 - (power_model(q) + upper_bit(hi) - lz),
        ) * d == n * scaled_den(
            den,
            F::MANTISSA_EXPLICIT_BITS + 1 - (power_model(q) + upper_bit(hi) - lz),
        ),
        wide_significand::<F>(hi) * d <= n < (wide_significand::<F>(hi) + 1) * d,
        power_model(q) + upper_bit(hi) - lz - F::MINIMUM_EXPONENT >= 1,
        tie_detected::<F>(q, lo, hi) <==> (wide_significand::<F>(hi) % 4 == 1 && n
            == wide_significand::<F>(hi) * d),
    ensures
        correctly_rounded::<F>(num, den, rounded_product::<F>(q, lz, lo, hi)),
        rounded_product::<F>(q, lz, lo, hi) == nearest::<F>(num, den),
{
    lemma_format::<F>();
    lemma_wide_significand::<F>(hi);
    let bits = F::MANTISSA_EXPLICIT_BITS as nat;
    let m2 = wide_significand::<F>(hi);
    let e = power_model(q) + upper_bit(hi) - lz;
    let k = bits + 1 - e;
    let result = rounded_product::<F>(q, lz, lo, hi);
    lemma_pow2_unfold(bits + 1);
    lemma_pow2_pos(bits);
    let sn = scaled_num(num, k);
    let sd = scaled_den(den, k);
    lemma_scaled_step(num, den, k);
    // the binary exponent
    assert(pow2(bits + 1) * sd <= sn && sn < 2 * (pow2(bits + 1) * sd)) by (nonlinear_arith)
        requires
            sn * d == n * sd,
            m2 * d <= n,
            n < (m2 + 1) * d,
            pow2(bits + 1) <= m2,
            m2 + 1 <= 2 * pow2(bits + 1),
            d > 0,
            sd > 0,
    ;
    lemma_binade_of_scaled(num, den, k, bits + 1);
    // the rounding of half the wide significand
    let h = m2 / 2;
    let b = m2 % 2;
    let t0 = (n - m2 * d) as nat;
    assert(t0 < d) by (nonlinear_arith)
        requires
            t0 == n - m2 * d,
            n < (m2 + 1) * d,
    ;
    assert(n == h * (2 * d) + (b * d + t0)) by (nonlinear_arith)
        requires
            m2 == 2 * h + b,
            t0 == n - m2 * d,
    ;
    assert(b * d + t0 < 2 * d) by (nonlinear_arith)
        requires
            b <= 1,
            t0 < d,
    ;
    lemma_round_half_even(n, 2 * d, h, b * d + t0);
    let sn1 = scaled_num(num, bits - e);
    let sd1 = scaled_den(den, bits - e);
    assert(sn1 * (2 * d) == n * sd1) by (nonlinear_arith)
        requires
            sn * sd1 == 2 * (sn1 * sd),
            sn * d == n * sd,
            sd > 0,
    ;
    lemma_round_half_even_ratio(sn1, sd1, n, 2 * d);
    let m = round_half_even(sn1, sd1);
    assert(b * d + t0 == 0 <==> b == 0 && t0 == 0) by (nonlinear_arith)
        requires
            d > 0,
            b <= 1,
    ;
    assert(2 * (b * d + t0) > 2 * d <==> b == 1 && t0 > 0) by (nonlinear_arith)
        requires
            b <= 1,
            t0 < d,
            d > 0,
    ;
    assert(2 * (b * d + t0) == 2 * d <==> b == 1 && t0 == 0) by (nonlinear_arith)
        requires
            b <= 1,
            t0 < d,
            d > 0,
    ;
    assert(m == h + (if b == 1 && (t0 != 0 || h % 2 == 1) {
        1nat
    } else {
        0nat
    }));
    // what the algorithm rounds to
    let even = if tie_detected::<F>(q, lo, hi) {
        (m2 - 1) as nat
    } else {
        m2
    };
    let rounded = (even + even % 2) / 2;
    assert(rounded == m);
    assert(pow2(bits) <= m <= 2 * pow2(bits));
    if m < 2 * pow2(bits) {
        vstd::arithmetic::div_mod::lemma_fundamental_div_mod_converse(
            m as int,
            pow2(bits) as int,
            1,
            (m - pow2(bits)) as int,
        );
        assert(clear_bit(m, bits) == m - pow2(bits));
    } else {
        vstd::arithmetic::div_mod::lemma_fundamental_div_mod_converse(
            pow2(bits) as int,
            pow2(bits) as int,
            1,
            0,
        );
        assert(clear_bit(pow2(bits), bits) == 0);
    }
    assert(result == rounded_in_binade::<F>(num, den, e));
    assert(num > 0) by {
        if num == 0 {
            assert(sn == 0) by {
                if k >= 0 {
                    assert(0 * pow2(k as nat) == 0);
                }
            }
        }
    }
    lemma_nearest::<F>(num, den, result);
}

/// The product of a word and a number of 128 bits, both with their top
/// bits set, as the computed words show it: where the number is, or lies at
/// most one unit below, a number `nn / dd`, the wide significand of the
/// computed product is the integer part of `word * nn / dd`, scaled.
///
/// The computed words take the lower word of the number into account only
/// where the low bits of the first product are all set. For a number that
/// lies below `nn / dd`, a lower word of the computed product with all
/// bits set is left out: the carry that the difference makes could go
/// through it.
pub proof fn lemma_true_floor_under<F: RawFloat>(
    word: nat,
    upper: nat,
    lower: nat,
    nn: nat,
    dd: nat,
)
    requires
        pow2(63) <= word < pow2(64),
        pow2(63) <= upper < pow2(64),
        lower < pow2(64),
        dd > 0,
        (word * (upper * pow2(64) + lower)) * dd <= nn,
        nn < (word * (upper * pow2(64) + lower) + word) * dd,
        nn == (word * (upper * pow2(64) + lower)) * dd || product_words(
            word,
            upper,
            lower,
            (F::MANTISSA_EXPLICIT_BITS + 3) as nat,
        ).0 != two64() - 1,
    ensures
        ({
            let hi = product_words(word, upper, lower, (F::MANTISSA_EXPLICIT_BITS + 3) as nat).1;
            &&& pow2(62) <= hi < pow2(64)
            &&& wide_significand::<F>(hi) * (dd * pow2(128 + significand_shift::<F>(hi))) <= nn
            &&& nn < (wide_significand::<F>(hi) + 1) * (dd * pow2(
                128 + significand_shift::<F>(hi),
            ))
        }),
{
    lemma_format::<F>();
    lemma2_to64();
    lemma2_to64_rest();
    crate::dec2flt::arith::lemma_pow2_wide();
    let bits = F::MANTISSA_EXPLICIT_BITS as nat;
    let big = pow2(64);
    let first = word * upper;
    let first_lo = first % big;
    let first_hi = first / big;
    let second = word * lower;
    let second_hi = second / big;
    let rest3 = second % big;
    let low = pow2((61 - bits) as nat);
    let z = word * (upper * big + lower);
    let words = product_words(word, upper, lower, bits + 3);
    let lo = words.0;
    let hi = words.1;
    vstd::arithmetic::div_mod::lemma_fundamental_div_mod(first as int, big as int);
    vstd::arithmetic::div_mod::lemma_fundamental_div_mod(second as int, big as int);
    lemma_pow2_adds(63, 63);
    lemma_pow2_adds(64, 62);
    lemma_pow2_adds(64, 64);
    assert(first >= pow2(63) * pow2(63) && first <= (big - 1) * (big - 1)) by (nonlinear_arith)
        requires
            first == word * upper,
            pow2(63) <= word <= big - 1,
            pow2(63) <= upper <= big - 1,
    ;
    assert(second <= (big - 1) * (big - 1)) by (nonlinear_arith)
        requires
            second == word * lower,
            word <= big - 1,
            lower <= big - 1,
    ;
    assert(z == first * big + second) by (nonlinear_arith)
        requires
            z == word * (upper * big + lower),
            first == word * upper,
            second == word * lower,
    ;
    assert(pow2(62) <= first_hi && first_hi <= big - 2);
    assert(hi * big + lo == first + second_hi || (hi == first_hi && lo == first_lo && first_hi
        % low != low - 1));
    assert(pow2(62) <= hi < pow2(64));
    lemma_wide_significand::<F>(hi);
    let shift = significand_shift::<F>(hi);
    let m2 = wide_significand::<F>(hi);
    let hr = hi % pow2(shift);
    let j = 128 + shift;
    lemma_pow2_adds(shift, 128);
    lemma_pow2_pos(shift);
    let unit = pow2(128);
    // (hi + 1) * 2^128 <= (m2 + 1) * 2^j, and m2 * 2^j <= hi * 2^128
    assert((hi + 1) * unit <= (m2 + 1) * pow2(j) && m2 * pow2(j) <= hi * unit) by (nonlinear_arith)
        requires
            hi == m2 * pow2(shift) + hr,
            hr < pow2(shift),
            pow2(j) == pow2(shift) * unit,
    ;
    // the true product lies between hi * 2^128 and the next wide significand
    let bound = if first_hi % low == low - 1 {
        (hi + 1) * unit
    } else {
        (hi + 2) * unit
    };
    assert(hi * unit <= z);
    if first_hi % low == low - 1 {
        // both products: the computed words are the upper words of the product
        let sum = first_lo + second_hi;
        assert(two64() == big);
        assert(lo == if sum >= big {
            (sum - big) as nat
        } else {
            sum
        });
        assert(hi == if sum >= big {
            first_hi + 1
        } else {
            first_hi
        });
        assert(first == big * first_hi + first_lo);
        assert(hi * big + lo == first + second_hi) by (nonlinear_arith)
            requires
                first == big * first_hi + first_lo,
                sum == first_lo + second_hi,
                (sum >= big && lo == sum - big && hi == first_hi + 1) || (sum < big && lo == sum
                    && hi == first_hi),
        ;
        assert(z == (hi * big + lo) * big + rest3) by (nonlinear_arith)
            requires
                z == first * big + second,
                second == big * second_hi + rest3,
                hi * big + lo == first + second_hi,
        ;
        if nn == z * dd {
            assert(z < bound);
        } else {
            assert(z + word < bound);
        }
    } else {
        // the first product alone: the low bits of its upper word are not all set
        assert(z + word < bound);
        lemma_pow2_le((61 - bits) as nat, shift);
        let ratio = pow2((shift - (61 - bits)) as nat);
        lemma_pow2_adds((61 - bits) as nat, (shift - (61 - bits)) as nat);
        lemma_pow2_pos((61 - bits) as nat);
        if hr == pow2(shift) - 1 {
            // then the low bits of the upper word would all be set
            let x = m2 * ratio + (ratio - 1);
            assert(hi == x * low + (low - 1)) by (nonlinear_arith)
                requires
                    hi == m2 * pow2(shift) + hr,
                    hr == pow2(shift) - 1,
                    pow2(shift) == low * ratio,
                    x == m2 * ratio + (ratio - 1),
            ;
            vstd::arithmetic::div_mod::lemma_fundamental_div_mod_converse(
                hi as int,
                low as int,
                x as int,
                (low - 1) as int,
            );
            assert(false);
        }
        assert((hi + 2) * unit <= (m2 + 1) * pow2(j)) by (nonlinear_arith)
            requires
                hi == m2 * pow2(shift) + hr,
                hr + 2 <= pow2(shift),
                pow2(j) == pow2(shift) * unit,
        ;
    }
    let top = (m2 + 1) * pow2(j);
    assert(bound <= top);
    assert(m2 * (dd * pow2(j)) <= nn) by (nonlinear_arith)
        requires
            m2 * pow2(j) <= z,
            z * dd <= nn,
            dd > 0,
    ;
    assert(nn < top * dd) by (nonlinear_arith)
        requires
            nn == z * dd && z < bound || nn < (z + word) * dd && z + word < bound,
            bound <= top,
            dd > 0,
    ;
    assert(top * dd == (m2 + 1) * (dd * pow2(j))) by (nonlinear_arith)
        requires
            top == (m2 + 1) * pow2(j),
    ;
}

/// An odd number does not divide a smaller number, times a power of two.
pub proof fn lemma_not_divisible(fives: nat, m: nat, j: nat, cofactor: nat)
    requires
        fives % 2 == 1,
        0 < m < fives,
    ensures
        m * pow2(j) != cofactor * fives,
{
    if m * pow2(j) == cofactor * fives {
        vstd::arithmetic::div_mod::lemma_fundamental_div_mod_converse(
            (m * pow2(j)) as int,
            fives as int,
            cofactor as int,
            0,
        );
        lemma_odd_divides(fives, m, j);
        vstd::arithmetic::div_mod::lemma_small_mod(m, fives);
    }
}

/// The powers of five from `5^28` on exceed every wide significand.
pub proof fn lemma_large_pow5<F: RawFloat>(n: nat, hi: nat)
    requires
        n >= 28,
        pow2(62) <= hi < pow2(64),
    ensures
        0 < wide_significand::<F>(hi) < pow5(n),
        pow5(n) % 2 == 1,
        pow5(n) > pow2(64),
{
    lemma_format::<F>();
    lemma_wide_significand::<F>(hi);
    crate::dec2flt::shift_table::lemma_pow5_values();
    lemma_pow5_increases(28, n);
    lemma_pow5_odd(n);
    lemma2_to64();
    lemma2_to64_rest();
    lemma_pow2_unfold((F::MANTISSA_EXPLICIT_BITS + 1) as nat);
}

/// The Eisel-Lemire algorithm is exact for the decimal exponents from 28 to
/// 55, for which the table holds the power of five itself, in two words: it
/// yields the value of the format that is nearest to `w * 10^q`.
pub proof fn lemma_exact_window_wide<F: RawFloat>(q: int, w: u64)
    requires
        28 <= q <= 55,
        q <= F::LARGEST_POWER_OF_TEN,
        w != 0,
    ensures
        compute_float_model::<F>(q, w) == nearest::<F>(w as nat * pow10(q as nat), 1),
{
    lemma_format::<F>();
    lemma_power_table(q);
    lemma2_to64();
    lemma2_to64_rest();
    crate::dec2flt::arith::lemma_pow2_wide();
    crate::dec2flt::arith::lemma_normalize_word(w);
    let bits = F::MANTISSA_EXPLICIT_BITS as nat;
    let lz = u64_leading_zeros(w);
    let sigma = table_exponent(q) as nat;
    let x5 = pow5(q as nat);
    let word = (w * pow2(lz as nat)) as nat;
    let upper = power_of_five_128(q).0 as nat;
    let lower = power_of_five_128(q).1 as nat;
    let t = upper * pow2(64) + lower;
    assert(t == entry_value(q));
    assert(upper >= pow2(63)) by {
        lemma_pow2_adds(63, 64);
        assert(upper * pow2(64) + lower >= pow2(63) * pow2(64));
        assert(upper >= pow2(63)) by (nonlinear_arith)
            requires
                upper * pow2(64) + lower >= pow2(63) * pow2(64),
                lower < pow2(64),
        ;
    }
    let z = word * t;
    assert(z * 1 == z && (z + word) * 1 == z + word);
    lemma_true_floor_under::<F>(word, upper, lower, z, 1);
    let words = product_words(word, upper, lower, bits + 3);
    let lo = words.0;
    let hi = words.1;
    lemma_wide_significand::<F>(hi);
    let shift = significand_shift::<F>(hi);
    let m2 = wide_significand::<F>(hi);
    let j = 128 + shift;
    let e = power_model(q) + upper_bit(hi) - lz;
    let k = bits + 1 - e;
    lemma_pow2_pos(j);
    // the product and the number, as a number times powers of two
    let g = w as nat * x5;
    let b = q as nat;
    lemma_pow2_adds(lz as nat, sigma);
    lemma_pow2_pow5(b);
    assert(z == g * pow2(lz as nat + sigma)) by (nonlinear_arith)
        requires
            z == (w as nat * pow2(lz as nat)) * (x5 * pow2(sigma)),
            pow2(lz as nat + sigma) == pow2(lz as nat) * pow2(sigma),
            g == w as nat * x5,
    ;
    let num = w as nat * pow10(b);
    assert(num == g * pow2(b)) by (nonlinear_arith)
        requires
            num == w as nat * pow10(b),
            pow2(b) * x5 == pow10(b),
            g == w as nat * x5,
    ;
    let d = 1 * pow2(j);
    assert(d == pow2(j));
    if k >= 0 {
        lemma_pow2_adds(b, k as nat);
        lemma_pow2_adds(b + k as nat, j);
        assert((num * pow2(k as nat)) * d == z * 1) by (nonlinear_arith)
            requires
                num == g * pow2(b),
                z == g * pow2(lz as nat + sigma),
                pow2(lz as nat + sigma) == (pow2(b) * pow2(k as nat)) * pow2(j),
                d == pow2(j),
        ;
    } else {
        lemma_pow2_adds(b, j);
        lemma_pow2_adds(lz as nat + sigma, (-k) as nat);
        assert(num * d == z * (1 * pow2((-k) as nat))) by (nonlinear_arith)
            requires
                num == g * pow2(b),
                z == g * pow2(lz as nat + sigma),
                pow2(b) * pow2(j) == pow2(lz as nat + sigma) * pow2((-k) as nat),
                d == pow2(j),
        ;
    }
    // no tie: the power of five would divide the significand
    lemma_large_pow5::<F>(b, hi);
    lemma_not_divisible(x5, m2, j, w as nat * pow2(lz as nat + sigma));
    assert(z == (w as nat * pow2(lz as nat + sigma)) * x5) by (nonlinear_arith)
        requires
            z == (w as nat * x5) * pow2(lz as nat + sigma),
    ;
    assert(m2 * d == m2 * pow2(j));
    lemma_floor_rounds::<F>(q, lz, lo, hi, num, 1, z, d);
}

/// The Eisel-Lemire algorithm is sound for the decimal exponents from 56
/// on, for which the table holds the power of five, cut off: where it does
/// not mark its result as not to be trusted, it yields the value of the
/// format that is nearest to `w * 10^q`.
pub proof fn lemma_sound_large<F: RawFloat>(q: int, w: u64)
    requires
        56 <= q <= F::LARGEST_POWER_OF_TEN,
        w != 0,
        compute_float_model::<F>(q, w).power2 >= 0,
    ensures
        compute_float_model::<F>(q, w) == nearest::<F>(w as nat * pow10(q as nat), 1),
{
    lemma_format::<F>();
    lemma_power_table(q);
    lemma2_to64();
    lemma2_to64_rest();
    crate::dec2flt::arith::lemma_pow2_wide();
    crate::dec2flt::arith::lemma_normalize_word(w);
    let bits = F::MANTISSA_EXPLICIT_BITS as nat;
    let lz = u64_leading_zeros(w);
    let s = (-table_exponent(q)) as nat;
    let x5 = pow5(q as nat);
    let word = (w * pow2(lz as nat)) as nat;
    let upper = power_of_five_128(q).0 as nat;
    let lower = power_of_five_128(q).1 as nat;
    let t = upper * pow2(64) + lower;
    assert(t == entry_value(q));
    assert(upper >= pow2(63)) by {
        lemma_pow2_adds(63, 64);
        assert(upper >= pow2(63)) by (nonlinear_arith)
            requires
                upper * pow2(64) + lower >= pow2(63) * pow2(64),
                lower < pow2(64),
        ;
    }
    let z = word * t;
    let dd = pow2(s);
    let nn = word * x5;
    lemma_pow2_pos(s);
    assert(z * dd <= nn && nn < (z + word) * dd) by (nonlinear_arith)
        requires
            z == word * t,
            nn == word * x5,
            t * dd <= x5,
            x5 < (t + 1) * dd,
            word > 0,
    ;
    let words = product_words(word, upper, lower, bits + 3);
    let lo = words.0;
    let hi = words.1;
    assert(product_approx_model(q, word, bits + 3) == words);
    assert(lo != two64() - 1);
    lemma_true_floor_under::<F>(word, upper, lower, nn, dd);
    lemma_wide_significand::<F>(hi);
    let shift = significand_shift::<F>(hi);
    let m2 = wide_significand::<F>(hi);
    let j = 128 + shift;
    let e = power_model(q) + upper_bit(hi) - lz;
    let k = bits + 1 - e;
    lemma_pow2_pos(j);
    let g = w as nat * x5;
    let b = q as nat;
    lemma_pow2_pow5(b);
    assert(nn == g * pow2(lz as nat)) by (nonlinear_arith)
        requires
            nn == (w as nat * pow2(lz as nat)) * x5,
            g == w as nat * x5,
    ;
    let num = w as nat * pow10(b);
    assert(num == g * pow2(b)) by (nonlinear_arith)
        requires
            num == w as nat * pow10(b),
            pow2(b) * x5 == pow10(b),
            g == w as nat * x5,
    ;
    let d = dd * pow2(j);
    lemma_pow2_adds(s, j);
    assert(d == pow2(s + j));
    assert(k < 0);
    lemma_pow2_adds(b, s + j);
    lemma_pow2_adds(lz as nat, (-k) as nat);
    assert(num * d == nn * (1 * pow2((-k) as nat))) by (nonlinear_arith)
        requires
            num == g * pow2(b),
            nn == g * pow2(lz as nat),
            pow2(b) * d == pow2(lz as nat) * pow2((-k) as nat),
    ;
    // no tie: the power of five would divide the significand
    lemma_large_pow5::<F>(b, hi);
    lemma_not_divisible(x5, m2, s + j, word);
    assert(m2 * d == m2 * pow2(s + j));
    assert(nn == word * x5);
    lemma_pow2_pos(s + j);
    assert(d > 0);
    lemma_floor_rounds::<F>(q, lz, lo, hi, num, 1, nn, d);
}

/// The scaled forms of a fraction for two exponents `c` apart.
pub proof fn lemma_scaled_shift(num: nat, den: nat, k: int, c: nat)
    ensures
        scaled_num(num, k) * scaled_den(den, k - c) == pow2(c) * (scaled_num(num, k - c)
            * scaled_den(den, k)),
        den > 0 ==> scaled_den(den, k) > 0 && scaled_den(den, k - c) > 0,
    decreases c,
{
    lemma2_to64();
    if c == 0 {
        assert(1 * (scaled_num(num, k) * scaled_den(den, k)) == scaled_num(num, k) * scaled_den(
            den,
            k,
        ));
        lemma_scaled_step(num, den, k);
    } else {
        lemma_scaled_shift(num, den, k, (c - 1) as nat);
        lemma_scaled_step(num, den, k - (c - 1));
        lemma_pow2_unfold(c);
        let a = scaled_num(num, k);
        let b = scaled_den(den, k);
        let a1 = scaled_num(num, k - (c - 1));
        let b1 = scaled_den(den, k - (c - 1));
        let a2 = scaled_num(num, k - c);
        let b2 = scaled_den(den, k - c);
        let p = pow2((c - 1) as nat);
        // a * b1 == p * (a1 * b), a1 * b2 == 2 * (a2 * b1)
        if den > 0 {
            assert((a * b2) * b1 == ((2 * p) * (a2 * b)) * b1) by (nonlinear_arith)
                requires
                    a * b1 == p * (a1 * b),
                    a1 * b2 == 2 * (a2 * b1),
            ;
            assert(a * b2 == (2 * p) * (a2 * b)) by (nonlinear_arith)
                requires
                    (a * b2) * b1 == ((2 * p) * (a2 * b)) * b1,
                    b1 > 0,
            ;
        } else {
            assert(b == 0 && b2 == 0) by {
                assert(0 * pow2((-k) as nat) == 0);
                assert(0 * pow2((c - k) as nat) == 0);
            }
            assert(a * 0 == 0 && (2 * p) * (a2 * 0) == 0) by (nonlinear_arith);
        }
    }
}

/// Where the wide significand of a product is the integer part of
/// `num / den`, scaled by the power of two that belongs to the binary
/// exponent of the product, and `num / den` is no number that so few bits
/// hold, the rounded product encodes the value of the format that is nearest
/// to `num / den`: for a quotient below the range of the normal numbers.
pub proof fn lemma_floor_rounds_subnormal<F: RawFloat>(
    q: int,
    lz: int,
    lo: nat,
    hi: nat,
    num: nat,
    den: nat,
    n: nat,
    d: nat,
)
    requires
        pow2(62) <= hi < pow2(64),
        den > 0,
        d > 0,
        scaled_num(
            num,
            F::MANTISSA_EXPLICIT_BITS + 1 - (power_model(q) + upper_bit(hi) - lz),
        ) * d == n * scaled_den(
            den,
            F::MANTISSA_EXPLICIT_BITS + 1 - (power_model(q) + upper_bit(hi) - lz),
        ),
        wide_significand::<F>(hi) * d < n < (wide_significand::<F>(hi) + 1) * d,
        power_model(q) + upper_bit(hi) - lz - F::MINIMUM_EXPONENT <= 0,
    ensures
        same_encoding::<F>(rounded_product::<F>(q, lz, lo, hi), nearest::<F>(num, den)),
{
    lemma_format::<F>();
    lemma_wide_significand::<F>(hi);
    let bits = F::MANTISSA_EXPLICIT_BITS as nat;
    let m2 = wide_significand::<F>(hi);
    let e = power_model(q) + upper_bit(hi) - lz;
    let k = bits + 1 - e;
    let power2 = e - F::MINIMUM_EXPONENT;
    let cut_shift = (1 - power2) as nat;
    let result = rounded_product::<F>(q, lz, lo, hi);
    lemma_pow2_unfold(bits + 1);
    lemma_pow2_pos(bits);
    let sn = scaled_num(num, k);
    let sd = scaled_den(den, k);
    lemma_scaled_step(num, den, k);
    // the binary exponent
    assert(pow2(bits + 1) * sd <= sn && sn < 2 * (pow2(bits + 1) * sd)) by (nonlinear_arith)
        requires
            sn * d == n * sd,
            m2 * d <= n,
            n < (m2 + 1) * d,
            pow2(bits + 1) <= m2,
            m2 + 1 <= 2 * pow2(bits + 1),
            d > 0,
            sd > 0,
    ;
    lemma_binade_of_scaled(num, den, k, bits + 1);
    // the rounding at the last place of a subnormal number
    let ks = bits - 1 - F::MINIMUM_EXPONENT;
    assert(ks == k - (cut_shift + 1));
    lemma_scaled_shift(num, den, k, cut_shift + 1);
    let sns = scaled_num(num, ks);
    let sds = scaled_den(den, ks);
    let wide = d * pow2(cut_shift + 1);
    lemma_pow2_pos(cut_shift + 1);
    assert(wide > 0) by (nonlinear_arith)
        requires
            wide == d * pow2(cut_shift + 1),
            d > 0,
            pow2(cut_shift + 1) > 0,
    ;
    assert((sns * wide) * sd == (n * sds) * sd) by (nonlinear_arith)
        requires
            sn * sds == pow2(cut_shift + 1) * (sns * sd),
            sn * d == n * sd,
            wide == d * pow2(cut_shift + 1),
    ;
    assert(sns * wide == n * sds) by (nonlinear_arith)
        requires
            (sns * wide) * sd == (n * sds) * sd,
            sd > 0,
    ;
    lemma_round_half_even_ratio(sns, sds, n, wide);
    let m = round_half_even(sns, sds);
    let t0 = (n - m2 * d) as nat;
    assert(0 < t0 < d) by (nonlinear_arith)
        requires
            t0 == n - m2 * d,
            m2 * d < n,
            n < (m2 + 1) * d,
    ;
    lemma_pow2_unfold(cut_shift + 1);
    lemma_pow2_pos(cut_shift);
    if cut_shift >= 64 {
        // nothing is left of the significand
        lemma_pow2_le(64, cut_shift);
        lemma2_to64();
        lemma2_to64_rest();
        assert(pow2(bits + 1) <= 0x20_0000_0000_0000);
        assert(2 * n < wide) by (nonlinear_arith)
            requires
                n < (m2 + 1) * d,
                m2 + 1 <= 2 * pow2(bits + 1),
                pow2(bits + 1) <= 0x20_0000_0000_0000,
                wide == d * (2 * pow2(cut_shift)),
                pow2(cut_shift) >= 0x1_0000_0000_0000_0000,
                d > 0,
        ;
        lemma_round_half_even(n, wide, 0, n);
        assert(m == 0);
        assert(result == rounded_in_binade::<F>(num, den, e));
    } else {
        let cut = m2 / pow2(cut_shift);
        let rem2 = m2 % pow2(cut_shift);
        vstd::arithmetic::div_mod::lemma_fundamental_div_mod(m2 as int, pow2(cut_shift) as int);
        vstd::arithmetic::div_mod::lemma_mod_bound(m2 as int, pow2(cut_shift) as int);
        let h = cut / 2;
        let b = cut % 2;
        let half = d * pow2(cut_shift);
        let t1 = rem2 * d + t0;
        assert(t1 < half && t1 > 0) by (nonlinear_arith)
            requires
                t1 == rem2 * d + t0,
                rem2 + 1 <= pow2(cut_shift),
                0 < t0 < d,
                half == d * pow2(cut_shift),
        ;
        assert(n == h * wide + (b * half + t1)) by (nonlinear_arith)
            requires
                n == m2 * d + t0,
                m2 == pow2(cut_shift) * cut + rem2,
                cut == 2 * h + b,
                half == d * pow2(cut_shift),
                wide == d * (2 * pow2(cut_shift)),
                t1 == rem2 * d + t0,
        ;
        assert(wide == 2 * half) by (nonlinear_arith)
            requires
                half == d * pow2(cut_shift),
                wide == d * (2 * pow2(cut_shift)),
        ;
        assert(b * half + t1 < wide && (2 * (b * half + t1) > wide <==> b == 1) && 2 * (b * half
            + t1) != wide) by (nonlinear_arith)
            requires
                b <= 1,
                0 < t1 < half,
                wide == 2 * half,
        ;
        lemma_round_half_even(n, wide, h, b * half + t1);
        let rounded = (cut + cut % 2) / 2;
        assert(m == rounded);
        // the significand with its hidden bit, at most
        lemma_pow2_adds(cut_shift, bits + 1);
        lemma_pow2_le(1, cut_shift);
        lemma2_to64();
        assert(cut < 2 * pow2(bits)) by (nonlinear_arith)
            requires
                m2 == pow2(cut_shift) * cut + rem2,
                m2 < 2 * pow2(bits + 1),
                pow2(bits + 1) == 2 * pow2(bits),
                pow2(cut_shift) >= 2,
        ;
        assert(rounded <= pow2(bits));
        if rounded >= pow2(bits) {
            lemma_hidden_bit::<F>();
            assert(rounded_in_binade::<F>(num, den, e) == (Fp { mantissa: 0, power2: 1 }));
        } else {
            assert(result == rounded_in_binade::<F>(num, den, e));
        }
    }
    assert(num > 0) by {
        if num == 0 {
            assert(sn == 0) by {
                if k >= 0 {
                    assert(0 * pow2(k as nat) == 0);
                }
            }
        }
    }
    lemma_nearest::<F>(num, den, rounded_in_binade::<F>(num, den, e));
}

/// The Eisel-Lemire algorithm is sound for the decimal exponents up to
/// -28, for which the table holds the reciprocal of the power of five, cut
/// off: where it does not mark its result as not to be trusted, it encodes
/// the value of the format that is nearest to `w / 10^-q`.
pub proof fn lemma_sound_small<F: RawFloat>(q: int, w: u64)
    requires
        F::SMALLEST_POWER_OF_TEN <= q <= -28,
        w != 0,
        compute_float_model::<F>(q, w).power2 >= 0,
    ensures
        same_encoding::<F>(
            compute_float_model::<F>(q, w),
            nearest::<F>(w as nat, pow10((-q) as nat)),
        ),
{
    lemma_format::<F>();
    lemma_power_table(q);
    lemma2_to64();
    lemma2_to64_rest();
    crate::dec2flt::arith::lemma_pow2_wide();
    crate::dec2flt::arith::lemma_normalize_word(w);
    let bits = F::MANTISSA_EXPLICIT_BITS as nat;
    let lz = u64_leading_zeros(w);
    let n5 = (-q) as nat;
    let sigma = table_exponent(q) as nat;
    let x5 = pow5(n5);
    let word = (w * pow2(lz as nat)) as nat;
    let upper = power_of_five_128(q).0 as nat;
    let lower = power_of_five_128(q).1 as nat;
    let t = upper * pow2(64) + lower;
    assert(t == entry_value(q));
    assert(upper >= pow2(63)) by {
        lemma_pow2_adds(63, 64);
        assert(upper >= pow2(63)) by (nonlinear_arith)
            requires
                upper * pow2(64) + lower >= pow2(63) * pow2(64),
                lower < pow2(64),
        ;
    }
    let z = word * t;
    let dd = x5;
    let nn = word * pow2(sigma);
    lemma_pow5(n5);
    assert(z * dd < nn && nn < (z + word) * dd) by (nonlinear_arith)
        requires
            z == word * t,
            nn == word * pow2(sigma),
            t * dd < pow2(sigma),
            pow2(sigma) < (t + 1) * dd,
            word > 0,
    ;
    let words = product_words(word, upper, lower, bits + 3);
    let lo = words.0;
    let hi = words.1;
    assert(product_approx_model(q, word, bits + 3) == words);
    assert(lo != two64() - 1);
    lemma_true_floor_under::<F>(word, upper, lower, nn, dd);
    lemma_wide_significand::<F>(hi);
    let shift = significand_shift::<F>(hi);
    let m2 = wide_significand::<F>(hi);
    let j = 128 + shift;
    let e = power_model(q) + upper_bit(hi) - lz;
    let k = bits + 1 - e;
    let d = dd * pow2(j);
    lemma_pow2_pos(j);
    assert(d > 0) by (nonlinear_arith)
        requires
            d == dd * pow2(j),
            dd > 0,
            pow2(j) > 0,
    ;
    let num = w as nat;
    let den = pow10(n5);
    lemma_pow10(n5);
    lemma_pow2_pow5(n5);
    lemma_pow2_adds(lz as nat, sigma);
    assert(nn == num * pow2(lz as nat + sigma)) by (nonlinear_arith)
        requires
            nn == (num * pow2(lz as nat)) * pow2(sigma),
            pow2(lz as nat + sigma) == pow2(lz as nat) * pow2(sigma),
    ;
    if k >= 0 {
        lemma_pow2_adds(k as nat, j);
        lemma_pow2_adds(lz as nat + sigma, n5);
        assert((num * pow2(k as nat)) * d == nn * den) by (nonlinear_arith)
            requires
                nn == num * pow2(lz as nat + sigma),
                d == x5 * pow2(j),
                den == pow2(n5) * x5,
                pow2(k as nat) * pow2(j) == pow2(lz as nat + sigma) * pow2(n5),
        ;
    } else {
        lemma_pow2_adds(lz as nat + sigma, n5);
        lemma_pow2_adds(lz as nat + sigma + n5, (-k) as nat);
        assert(num * d == nn * (den * pow2((-k) as nat))) by (nonlinear_arith)
            requires
                nn == num * pow2(lz as nat + sigma),
                d == x5 * pow2(j),
                den == pow2(n5) * x5,
                pow2(j) == (pow2(lz as nat + sigma) * pow2(n5)) * pow2((-k) as nat),
        ;
    }
    // the number is no multiple of the power of five: nothing is exact
    lemma_large_pow5::<F>(n5, hi);
    lemma_not_divisible(x5, num, lz as nat + sigma, m2 * pow2(j));
    assert(m2 * d == (m2 * pow2(j)) * x5) by (nonlinear_arith)
        requires
            d == x5 * pow2(j),
    ;
    assert(nn != m2 * d);
    if e - F::MINIMUM_EXPONENT >= 1 {
        lemma_floor_rounds::<F>(q, lz, lo, hi, num, den, nn, d);
    } else {
        lemma_floor_rounds_subnormal::<F>(q, lz, lo, hi, num, den, nn, d);
    }
}

/// Two multiples of a number that lie less than the number apart are one
/// number.
proof fn lemma_close_multiples(a: nat, b: nat, u: nat)
    requires
        u > 0,
        a % u == 0,
        b % u == 0,
        a < b + u,
        b < a + u,
    ensures
        a == b,
{
    vstd::arithmetic::div_mod::lemma_fundamental_div_mod(a as int, u as int);
    vstd::arithmetic::div_mod::lemma_fundamental_div_mod(b as int, u as int);
    let x = a / u;
    let y = b / u;
    assert(x == y) by (nonlinear_arith)
        requires
            a == u * x,
            b == u * y,
            a < b + u,
            b < a + u,
            u > 0,
    ;
}

/// A number times a power of two is a multiple of every smaller power of
/// two.
proof fn lemma_multiple_of_pow2(x: nat, a: nat, b: nat)
    requires
        b <= a,
    ensures
        (x * pow2(a)) % pow2(b) == 0,
{
    lemma_pow2_adds(b, (a - b) as nat);
    lemma_pow2_pos(b);
    let k = x * pow2((a - b) as nat);
    assert(x * pow2(a) == k * pow2(b)) by (nonlinear_arith)
        requires
            pow2(a) == pow2(b) * pow2((a - b) as nat),
            k == x * pow2((a - b) as nat),
    ;
    vstd::arithmetic::div_mod::lemma_fundamental_div_mod_converse(
        (x * pow2(a)) as int,
        pow2(b) as int,
        k as int,
        0,
    );
}

/// The product of a word and the entry for the reciprocal of a power of
/// five from `5^1` to `5^27`, as the computed words show it: the wide
/// significand of the computed product is the integer part of
/// `word * 2^sigma / 5^n`, scaled; and a lower word of at most one under an
/// upper word that is the wide significand, shifted, is found exactly where
/// that quotient is the wide significand, scaled.
pub proof fn lemma_true_floor_over<F: RawFloat>(q: int, word: nat)
    requires
        -27 <= q <= -1,
        pow2(63) <= word < pow2(64),
    ensures
        ({
            let upper = power_of_five_128(q).0 as nat;
            let lower = power_of_five_128(q).1 as nat;
            let words = product_words(word, upper, lower, (F::MANTISSA_EXPLICIT_BITS + 3) as nat);
            let lo = words.0;
            let hi = words.1;
            let m2 = wide_significand::<F>(hi);
            let d = pow5((-q) as nat) * pow2(128 + significand_shift::<F>(hi));
            let nn = word * pow2(table_exponent(q) as nat);
            &&& table_exponent(q) >= 128
            &&& pow2(62) <= hi < pow2(64)
            &&& m2 * d <= nn < (m2 + 1) * d
            &&& (lo <= 1 && m2 * pow2(significand_shift::<F>(hi)) == hi) <==> nn == m2 * d
        }),
{
    lemma_format::<F>();
    lemma_power_table(q);
    lemma_reciprocal_entry(q);
    lemma2_to64();
    lemma2_to64_rest();
    crate::dec2flt::arith::lemma_pow2_wide();
    crate::dec2flt::shift_table::lemma_pow5_values();
    let bits = F::MANTISSA_EXPLICIT_BITS as nat;
    let n5 = (-q) as nat;
    let fives = pow5(n5);
    lemma_pow5_increases(n5, 27);
    lemma_pow5(n5);
    assert(0 < fives < pow2(63));
    let sigma = table_exponent(q) as nat;
    let upper = power_of_five_128(q).0 as nat;
    let lower = power_of_five_128(q).1 as nat;
    let big = pow2(64);
    let t = upper * big + lower;
    assert(t == entry_value(q));
    lemma_pow2_adds(63, 64);
    assert(upper >= pow2(63)) by (nonlinear_arith)
        requires
            upper * big + lower >= pow2(63) * big,
            lower < big,
    ;
    let first = word * upper;
    let first_lo = first % big;
    let first_hi = first / big;
    let second = word * lower;
    let second_hi = second / big;
    let rest3 = second % big;
    let low = pow2((61 - bits) as nat);
    let z = word * t;
    let words = product_words(word, upper, lower, bits + 3);
    let lo = words.0;
    let hi = words.1;
    vstd::arithmetic::div_mod::lemma_fundamental_div_mod(first as int, big as int);
    vstd::arithmetic::div_mod::lemma_fundamental_div_mod(second as int, big as int);
    lemma_pow2_adds(63, 63);
    lemma_pow2_adds(64, 62);
    lemma_pow2_adds(64, 64);
    assert(first >= pow2(63) * pow2(63) && first <= (big - 1) * (big - 1)) by (nonlinear_arith)
        requires
            first == word * upper,
            pow2(63) <= word <= big - 1,
            pow2(63) <= upper <= big - 1,
    ;
    assert(second <= (big - 1) * (big - 1) && second >= word) by (nonlinear_arith)
        requires
            second == word * lower,
            word <= big - 1,
            1 <= lower <= big - 1,
    ;
    assert(z == first * big + second) by (nonlinear_arith)
        requires
            z == word * (upper * big + lower),
            first == word * upper,
            second == word * lower,
    ;
    assert(pow2(62) <= first_hi && first_hi <= big - 2);
    assert(pow2(62) <= hi < pow2(64));
    lemma_wide_significand::<F>(hi);
    let shift = significand_shift::<F>(hi);
    let m2 = wide_significand::<F>(hi);
    let hr = hi % pow2(shift);
    let j = 128 + shift;
    lemma_pow2_adds(shift, 128);
    lemma_pow2_pos(shift);
    lemma_pow2_pos(j);
    let unit = pow2(128);
    let d = fives * pow2(j);
    let nn = word * pow2(sigma);
    let base = m2 * pow2(j);
    assert(m2 * d == base * fives) by (nonlinear_arith)
        requires
            d == fives * pow2(j),
            base == m2 * pow2(j),
    ;
    assert((m2 + 1) * d == (base + pow2(j)) * fives) by (nonlinear_arith)
        requires
            d == fives * pow2(j),
            base == m2 * pow2(j),
    ;
    assert(m2 * pow2(shift) == hi <==> hr == 0);
    assert(base == (hi - hr) * unit) by (nonlinear_arith)
        requires
            hi == m2 * pow2(shift) + hr,
            pow2(j) == pow2(shift) * unit,
            base == m2 * pow2(j),
    ;
    assert(pow2(j) >= (hr + 1) * unit) by (nonlinear_arith)
        requires
            hr + 1 <= pow2(shift),
            pow2(j) == pow2(shift) * unit,
    ;
    // the true product lies less than `word` below the product with the entry
    assert((z - word) * fives < nn && nn < z * fives) by (nonlinear_arith)
        requires
            z == word * t,
            nn == word * pow2(sigma),
            (t - 1) * fives < pow2(sigma),
            pow2(sigma) < t * fives,
            word > 0,
    ;
    // both are multiples of 2^128
    lemma_multiple_of_pow2(word, sigma, 128);
    lemma_multiple_of_pow2(m2 * fives, j, 128);
    assert(base * fives == (m2 * fives) * pow2(j)) by (nonlinear_arith)
        requires
            base == m2 * pow2(j),
    ;
    if first_hi % low == low - 1 {
        // both products: the computed words are the upper words of the product
        let sum = first_lo + second_hi;
        assert(two64() == big);
        assert(lo == if sum >= big {
            (sum - big) as nat
        } else {
            sum
        });
        assert(hi == if sum >= big {
            first_hi + 1
        } else {
            first_hi
        });
        assert(first == big * first_hi + first_lo);
        assert(hi * big + lo == first + second_hi) by (nonlinear_arith)
            requires
                first == big * first_hi + first_lo,
                sum == first_lo + second_hi,
                (sum >= big && lo == sum - big && hi == first_hi + 1) || (sum < big && lo == sum
                    && hi == first_hi),
        ;
        assert(z == (hi * big + lo) * big + rest3) by (nonlinear_arith)
            requires
                z == first * big + second,
                second == big * second_hi + rest3,
                hi * big + lo == first + second_hi,
        ;
        assert(unit == big * big);
        assert(z == base + hr * unit + lo * big + rest3) by (nonlinear_arith)
            requires
                z == (hi * big + lo) * big + rest3,
                base == (hi - hr) * unit,
                unit == big * big,
                hr <= hi,
        ;
        // above: z < base + 2^j
        assert(z < base + pow2(j));
        assert(nn < (base + pow2(j)) * fives) by (nonlinear_arith)
            requires
                nn < z * fives,
                z < base + pow2(j),
                fives > 0,
        ;
        if hr >= 1 || lo >= 1 {
            assert(z - word >= base);
            assert(nn > base * fives) by (nonlinear_arith)
                requires
                    (z - word) * fives < nn,
                    z - word >= base,
                    fives > 0,
            ;
            if lo <= 1 && hr == 0 {
                // a lower word of one: the true product would lie strictly between two
                // multiples of 2^128 that follow each other
                assert(nn < base * fives + unit) by (nonlinear_arith)
                    requires
                        nn < z * fives,
                        z == base + big + rest3,
                        rest3 < big,
                        fives < pow2(63),
                        unit == big * big,
                        big == 2 * pow2(63),
                ;
                lemma_close_multiples(nn, base * fives, unit);
            }
        } else {
            // nothing below the wide significand but the third word
            assert(nn < base * fives + unit) by (nonlinear_arith)
                requires
                    nn < z * fives,
                    z == base + rest3,
                    rest3 < big,
                    fives < pow2(63),
                    unit == big * big,
                    big == 2 * pow2(63),
            ;
            assert(base * fives < nn + unit) by (nonlinear_arith)
                requires
                    (z - word) * fives < nn,
                    z == base + rest3,
                    word < big,
                    fives < pow2(63),
                    unit == big * big,
                    big == 2 * pow2(63),
            ;
            lemma_close_multiples(nn, base * fives, unit);
        }
    } else {
        // the first product alone: the low bits of its upper word are not all set
        lemma_pow2_le((61 - bits) as nat, shift);
        let ratio = pow2((shift - (61 - bits)) as nat);
        lemma_pow2_adds((61 - bits) as nat, (shift - (61 - bits)) as nat);
        lemma_pow2_pos((61 - bits) as nat);
        if hr == pow2(shift) - 1 {
            let x = m2 * ratio + (ratio - 1);
            assert(hi == x * low + (low - 1)) by (nonlinear_arith)
                requires
                    hi == m2 * pow2(shift) + hr,
                    hr == pow2(shift) - 1,
                    pow2(shift) == low * ratio,
                    x == m2 * ratio + (ratio - 1),
            ;
            vstd::arithmetic::div_mod::lemma_fundamental_div_mod_converse(
                hi as int,
                low as int,
                x as int,
                (low - 1) as int,
            );
            assert(false);
        }
        assert(two64() == big);
        assert(hi == first_hi && lo == first_lo);
        assert(first == big * first_hi + first_lo);
        assert(z == (hi * big + lo) * big + second) by (nonlinear_arith)
            requires
                z == first * big + second,
                first == big * hi + lo,
        ;
        assert(unit == big * big);
        assert(pow2(j) >= (hr + 2) * unit) by (nonlinear_arith)
            requires
                hr + 2 <= pow2(shift),
                pow2(j) == pow2(shift) * unit,
        ;
        assert(z < base + pow2(j));
        assert(nn < (base + pow2(j)) * fives) by (nonlinear_arith)
            requires
                nn < z * fives,
                z < base + pow2(j),
                fives > 0,
        ;
        assert(z - word >= base);
        assert(nn > base * fives) by (nonlinear_arith)
            requires
                (z - word) * fives < nn,
                z - word >= base,
                fives > 0,
        ;
        if lo <= 1 && hr == 0 {
            // no such product: the upper word of the entry has too few zeros at its end,
            // and its inverse is no such word
            assert(first == hi * big + lo);
            if lo == 0 {
                lemma_pow2_adds(64, shift);
                assert(first == m2 * pow2(64 + shift)) by (nonlinear_arith)
                    requires
                        first == hi * big,
                        hi == m2 * pow2(shift),
                        pow2(64 + shift) == big * pow2(shift),
                ;
                lemma_pow2_pos(64 + shift);
                vstd::arithmetic::div_mod::lemma_fundamental_div_mod_converse(
                    first as int,
                    pow2(64 + shift) as int,
                    m2 as int,
                    0,
                );
                crate::dec2flt::arith::lemma_product_low_bits(word, upper, 64, shift);
                lemma_pow2_adds(4, (shift - 3) as nat);
                let high = upper / pow2(shift + 1);
                vstd::arithmetic::div_mod::lemma_fundamental_div_mod(
                    upper as int,
                    pow2(shift + 1) as int,
                );
                lemma_pow2_pos(shift + 1);
                assert(upper == (high * pow2((shift - 3) as nat)) * 16) by (nonlinear_arith)
                    requires
                        upper == pow2(shift + 1) * high,
                        pow2(shift + 1) == 16 * pow2((shift - 3) as nat),
                ;
                vstd::arithmetic::div_mod::lemma_fundamental_div_mod_converse(
                    upper as int,
                    16,
                    (high * pow2((shift - 3) as nat)) as int,
                    0,
                );
                assert(false);
            } else {
                lemma_no_false_tie(q, word);
                lemma_pow2_adds(9, (shift - 9) as nat);
                let high = hi / pow2(shift);
                assert(hi == (high * pow2((shift - 9) as nat)) * 512) by (nonlinear_arith)
                    requires
                        hi == high * pow2(shift),
                        pow2(shift) == 512 * pow2((shift - 9) as nat),
                ;
                vstd::arithmetic::div_mod::lemma_fundamental_div_mod_converse(
                    hi as int,
                    512,
                    (high * pow2((shift - 9) as nat)) as int,
                    0,
                );
                assert(false);
            }
        }
    }
}

/// The Eisel-Lemire algorithm is exact for the decimal exponents from -27
/// to -1, for which the table holds the reciprocal of the power of five,
/// rounded up: it yields the value of the format that is nearest to
/// `w / 10^-q`, with ties going to the even significand.
pub proof fn lemma_exact_reciprocal<F: RawFloat>(q: int, w: u64)
    requires
        -27 <= q <= -1,
        w != 0,
    ensures
        compute_float_model::<F>(q, w) == nearest::<F>(w as nat, pow10((-q) as nat)),
{
    lemma_format::<F>();
    lemma2_to64();
    lemma2_to64_rest();
    crate::dec2flt::arith::lemma_pow2_wide();
    crate::dec2flt::arith::lemma_normalize_word(w);
    crate::dec2flt::shift_table::lemma_pow5_values();
    let bits = F::MANTISSA_EXPLICIT_BITS as nat;
    let lz = u64_leading_zeros(w);
    let n5 = (-q) as nat;
    let sigma = table_exponent(q) as nat;
    let x5 = pow5(n5);
    let word = (w * pow2(lz as nat)) as nat;
    let upper = power_of_five_128(q).0 as nat;
    let lower = power_of_five_128(q).1 as nat;
    lemma_true_floor_over::<F>(q, word);
    let words = product_words(word, upper, lower, bits + 3);
    let lo = words.0;
    let hi = words.1;
    assert(product_approx_model(q, word, bits + 3) == words);
    lemma_wide_significand::<F>(hi);
    let shift = significand_shift::<F>(hi);
    let m2 = wide_significand::<F>(hi);
    let j = 128 + shift;
    let e = power_model(q) + upper_bit(hi) - lz;
    let k = bits + 1 - e;
    let d = x5 * pow2(j);
    let nn = word * pow2(sigma);
    lemma_pow2_pos(j);
    lemma_pow5(n5);
    assert(d > 0) by (nonlinear_arith)
        requires
            d == x5 * pow2(j),
            x5 > 0,
            pow2(j) > 0,
    ;
    let num = w as nat;
    let den = pow10(n5);
    lemma_pow10(n5);
    lemma_pow2_pow5(n5);
    lemma_pow2_adds(lz as nat, sigma);
    assert(nn == num * pow2(lz as nat + sigma)) by (nonlinear_arith)
        requires
            nn == (num * pow2(lz as nat)) * pow2(sigma),
            pow2(lz as nat + sigma) == pow2(lz as nat) * pow2(sigma),
    ;
    if k >= 0 {
        lemma_pow2_adds(k as nat, j);
        lemma_pow2_adds(lz as nat + sigma, n5);
        assert((num * pow2(k as nat)) * d == nn * den) by (nonlinear_arith)
            requires
                nn == num * pow2(lz as nat + sigma),
                d == x5 * pow2(j),
                den == pow2(n5) * x5,
                pow2(k as nat) * pow2(j) == pow2(lz as nat + sigma) * pow2(n5),
        ;
    } else {
        lemma_pow2_adds(lz as nat + sigma, n5);
        lemma_pow2_adds(lz as nat + sigma + n5, (-k) as nat);
        assert(num * d == nn * (den * pow2((-k) as nat))) by (nonlinear_arith)
            requires
                nn == num * pow2(lz as nat + sigma),
                d == x5 * pow2(j),
                den == pow2(n5) * x5,
                pow2(j) == (pow2(lz as nat + sigma) * pow2(n5)) * pow2((-k) as nat),
        ;
    }
    // a tie within the window only: beyond it, the number would have too many bits
    if m2 % 4 == 1 && nn == m2 * d && q < F::MIN_EXPONENT_ROUND_TO_EVEN {
        let odd = m2 * x5;
        lemma_pow5_odd(n5);
        let a = m2 / 2;
        let b = x5 / 2;
        assert(odd == 2 * (2 * a * b + a + b) + 1) by (nonlinear_arith)
            requires
                odd == m2 * x5,
                m2 == 2 * a + 1,
                x5 == 2 * b + 1,
        ;
        lemma_pow5_increases((1 - F::MIN_EXPONENT_ROUND_TO_EVEN) as nat, n5);
        lemma_pow2_unfold(bits + 1);
        assert(odd > num) by (nonlinear_arith)
            requires
                odd == m2 * x5,
                m2 >= pow2(bits + 1),
                (pow2(bits + 1) == 0x20_0000_0000_0000 && x5 >= 3125) || (pow2(bits + 1)
                    == 0x100_0000 && x5 >= 3814697265625),
                num < 0x1_0000_0000_0000_0000,
        ;
        lemma_not_divisible(odd, num, lz as nat + sigma, pow2(j));
        assert(m2 * d == pow2(j) * odd) by (nonlinear_arith)
            requires
                d == x5 * pow2(j),
                odd == m2 * x5,
        ;
        assert(false);
    }
    assert(tie_detected::<F>(q, lo, hi) <==> (m2 % 4 == 1 && nn == m2 * d));
    lemma_floor_rounds::<F>(q, lz, lo, hi, num, den, nn, d);
}

} // verus!
