//! Arbitrary-precision decimal with a bounded number of digits, which can be
//! multiplied and divided by powers of two.

use crate::dec2flt::arith::lemma_shr;
use crate::dec2flt::digits::{all_digits, digit_count, digits_nat, lemma_digit_count_bounds, lemma_digit_count_unique, lemma_digits_nat_bound, lemma_digits_nat_count, lemma_digits_nat_last, lemma_digits_nat_lower, lemma_digits_nat_split, lemma_digits_nat_zero, lemma_pow10, lemma_pow10_adds, lemma_pow10_increases, lemma_pow10_values, lemma_strip_zeros, pow10, pow5, strip_zeros};
use crate::dec2flt::parse::{is_digit, lemma_literal_digit, scan, scan_literal, ZERO};
use crate::dec2flt::shift_table::{left_shift_entry, lemma_left_shift_table, lemma_left_shift_table_zero, new_digits_entry, pow5_digit, pow5_digits, pow5_offset};
use vstd::arithmetic::power2::pow2;
use vstd::prelude::*;

verus! {

/// The number that a [`Decimal`] stands for:
/// `0.d1 d2 ... dn * 10^decimal_point`, where `d1 ... dn` are the decimal
/// digits of `significand`. `truncated` tells that the number it was made
/// from had further non-zero digits, which were dropped.
pub struct DecimalModel {
    pub significand: nat,
    pub decimal_point: int,
    pub truncated: bool,
}

/// The largest number of digits that a [`Decimal`] holds.
pub const MAX_DIGITS: usize = 768;

/// The largest number of digits that fit into a `u64` in every case.
pub const MAX_DIGITS_WITHOUT_OVERFLOW: usize = 19;

/// A decimal point beyond this range, in either direction, belongs to a
/// number that underflows or overflows every supported format.
pub const DECIMAL_POINT_RANGE: i32 = 2047;

/// The bound that the decimal point of a well-formed [`Decimal`] keeps.
pub const DECIMAL_POINT_LIMIT: i32 = 0x3FFF_FFFF;

/// The largest shift that [`Decimal::left_shift`] and
/// [`Decimal::right_shift`] take.
pub const MAX_SHIFT: usize = 60;

/// The decimal that stands for `e * 10^e10`, cut to [`MAX_DIGITS`] digits
/// and freed of trailing zeros. The result is marked as truncated if `t`
/// holds or if a non-zero digit was cut off.
pub open spec fn normalized(e: nat, e10: int, t: bool) -> DecimalModel {
    let len = digit_count(e);
    let extra = if len > MAX_DIGITS {
        (len - MAX_DIGITS) as nat
    } else {
        0
    };
    DecimalModel {
        significand: strip_zeros(e / pow10(extra)),
        decimal_point: e10 + len,
        truncated: t || e % pow10(extra) != 0,
    }
}

/// The decimal zero.
pub open spec fn zero_model() -> DecimalModel {
    DecimalModel { significand: 0, decimal_point: 0, truncated: false }
}

/// `m` times `2^shift`.
pub open spec fn left_shift_model(m: DecimalModel, shift: nat) -> DecimalModel {
    if m.significand == 0 {
        m
    } else {
        normalized(
            m.significand * pow2(shift),
            m.decimal_point - digit_count(m.significand),
            m.truncated,
        )
    }
}

/// `m` divided by `2^shift`, which is `m` times `5^shift / 10^shift`; zero
/// where the decimal point of the quotient leaves the
/// [`DECIMAL_POINT_RANGE`].
pub open spec fn right_shift_model(m: DecimalModel, shift: nat) -> DecimalModel {
    if m.significand == 0 {
        m
    } else {
        let r = normalized(
            m.significand * pow5(shift),
            m.decimal_point - digit_count(m.significand) - shift,
            m.truncated,
        );
        if r.decimal_point < -DECIMAL_POINT_RANGE {
            zero_model()
        } else {
            r
        }
    }
}

/// `m` rounded to the nearest integer, a tie going to the even neighbour
/// unless digits were dropped from `m`, in which case it goes up. Numbers
/// from `10^18` on yield the largest `u64`.
pub open spec fn round_model(m: DecimalModel) -> nat {
    let n = digit_count(m.significand);
    if m.significand == 0 || m.decimal_point < 0 {
        0
    } else if m.decimal_point > 18 {
        0xFFFF_FFFF_FFFF_FFFF
    } else if m.decimal_point >= n {
        m.significand * pow10((m.decimal_point - n) as nat)
    } else {
        let unit = pow10((n - m.decimal_point) as nat);
        let whole = m.significand / unit;
        let rest = m.significand % unit;
        if 2 * rest > unit || (2 * rest == unit && (m.truncated || whole % 2 == 1)) {
            whole + 1
        } else {
            whole
        }
    }
}

/// Trailing zeros of the number can be moved into the exponent.
pub proof fn lemma_normalized_shift(x: nat, k: nat, e10: int, t: bool)
    requires
        x > 0,
    ensures
        normalized(x * pow10(k), e10, t) == normalized(x, e10 + k, t),
{
    let y = x * pow10(k);
    lemma_pow10(k);
    crate::dec2flt::digits::lemma_digit_count_shift(x, k);
    let len = digit_count(x);
    let extra_x = if len > MAX_DIGITS {
        (len - MAX_DIGITS) as nat
    } else {
        0
    };
    let extra_y = if len + k > MAX_DIGITS {
        (len + k - MAX_DIGITS) as nat
    } else {
        0
    };
    let px = pow10(extra_x);
    let py = pow10(extra_y);
    lemma_pow10(extra_x);
    lemma_pow10(extra_y);
    if extra_y <= k {
        // the cut falls into the zeros that were appended
        let rest = (k - extra_y) as nat;
        lemma_pow10_adds(rest, extra_y);
        assert(extra_x == 0);
        lemma_pow10(0);
        assert(y == (x * pow10(rest)) * py) by (nonlinear_arith)
            requires
                y == x * pow10(k),
                pow10(k) == pow10(rest) * py,
        ;
        vstd::arithmetic::div_mod::lemma_fundamental_div_mod_converse(
            y as int,
            py as int,
            (x * pow10(rest)) as int,
            0,
        );
        crate::dec2flt::digits::lemma_strip_zeros_shift(x, rest);
        assert(x / 1 == x);
        assert(x % 1 == 0);
    } else {
        assert(extra_y == extra_x + k);
        lemma_pow10_adds(extra_x, k);
        let q = x / px;
        let r = x % px;
        vstd::arithmetic::div_mod::lemma_fundamental_div_mod(x as int, px as int);
        vstd::arithmetic::div_mod::lemma_mod_bound(x as int, px as int);
        assert(x == q * px + r) by (nonlinear_arith)
            requires
                x == px * q + r,
        ;
        assert(y == q * py + r * pow10(k)) by (nonlinear_arith)
            requires
                y == x * pow10(k),
                x == q * px + r,
                py == px * pow10(k),
        ;
        assert(r * pow10(k) < py) by (nonlinear_arith)
            requires
                r < px,
                py == px * pow10(k),
                pow10(k) > 0,
        ;
        vstd::arithmetic::div_mod::lemma_fundamental_div_mod_converse(
            y as int,
            py as int,
            q as int,
            (r * pow10(k)) as int,
        );
        assert(r * pow10(k) != 0 <==> r != 0) by (nonlinear_arith)
            requires
                pow10(k) > 0,
        ;
    }
}

/// Where the quotient of a division by `2^shift` starts: if the first
/// `read` digits of `d` (zeros appended where `d` has fewer) are the
/// shortest prefix that reaches `2^shift`, then `d * 5^shift` has
/// `digit_count(d) + shift - read + 1` digits.
pub proof fn lemma_right_shift_position(d: nat, shift: nat, read: nat, n: nat)
    requires
        d > 0,
        pow2(shift) <= n < 10 * pow2(shift),
        read <= digit_count(d) ==> n == d / pow10((digit_count(d) - read) as nat),
        read > digit_count(d) ==> n == d * pow10((read - digit_count(d)) as nat),
    ensures
        digit_count(d) + shift + 1 > read,
        digit_count(d * pow5(shift)) == digit_count(d) + shift + 1 - read,
{
    let len = digit_count(d);
    let p = pow2(shift);
    let f = pow5(shift);
    let e = d * f;
    crate::dec2flt::digits::lemma_pow5(shift);
    lemma_pow2_pow5(shift);
    lemma_pow10(shift);
    if read <= len {
        let u = pow10((len - read) as nat);
        lemma_pow10((len - read) as nat);
        vstd::arithmetic::div_mod::lemma_fundamental_div_mod(d as int, u as int);
        vstd::arithmetic::div_mod::lemma_mod_bound(d as int, u as int);
        lemma_pow10_adds(shift, (len - read) as nat);
        lemma_pow10((shift + len - read) as nat);
        assert(p * u <= d) by (nonlinear_arith)
            requires
                p <= n,
                d == u * n + d % u,
                u > 0,
        ;
        assert(d < 10 * p * u) by (nonlinear_arith)
            requires
                n + 1 <= 10 * p,
                d == u * n + d % u,
                d % u < u,
                u > 0,
        ;
        assert(pow10(shift) * u <= e) by (nonlinear_arith)
            requires
                p * u <= d,
                e == d * f,
                p * f == pow10(shift),
        ;
        assert(e < 10 * (pow10(shift) * u)) by (nonlinear_arith)
            requires
                d < 10 * p * u,
                e == d * f,
                p * f == pow10(shift),
                f > 0,
        ;
        lemma_digit_count_unique(e, (shift + len - read + 1) as nat);
    } else {
        let c = (read - len) as nat;
        let v = pow10(c);
        lemma_pow10(c);
        assert(pow10(shift) <= e * v) by (nonlinear_arith)
            requires
                p <= d * v,
                e == d * f,
                p * f == pow10(shift),
        ;
        assert(e * v < 10 * pow10(shift)) by (nonlinear_arith)
            requires
                d * v < 10 * p,
                e == d * f,
                p * f == pow10(shift),
                f > 0,
        ;
        assert(e > 0) by (nonlinear_arith)
            requires
                e == d * f,
                d > 0,
                f > 0,
        ;
        if c > shift {
            lemma_pow10_increases((shift + 1) as nat, c);
            assert(e * v >= v) by (nonlinear_arith)
                requires
                    e > 0,
            ;
            assert(false);
        }
        let k = (shift - c) as nat;
        lemma_pow10_adds(k, c);
        lemma_pow10(k);
        assert(pow10(k) <= e) by (nonlinear_arith)
            requires
                pow10(k) * v <= e * v,
                v > 0,
        ;
        assert(e < 10 * pow10(k)) by (nonlinear_arith)
            requires
                e * v < 10 * (pow10(k) * v),
                v > 0,
        ;
        lemma_digit_count_unique(e, k + 1);
    }
}

/// `2^n * 5^n == 10^n`.
pub proof fn lemma_pow2_pow5(n: nat)
    ensures
        pow2(n) * pow5(n) == pow10(n),
        pow2(n) > 0,
    decreases n,
{
    vstd::arithmetic::power2::lemma_pow2_pos(n);
    crate::dec2flt::digits::lemma_pow5(n);
    lemma_pow10(n);
    if n == 0 {
        vstd::arithmetic::power2::lemma2_to64();
    } else {
        lemma_pow2_pow5((n - 1) as nat);
        vstd::arithmetic::power2::lemma_pow2_unfold(n);
        crate::dec2flt::digits::lemma_pow5((n - 1) as nat);
        lemma_pow10((n - 1) as nat);
        assert(pow2(n) * pow5(n) == 10 * (pow2((n - 1) as nat) * pow5((n - 1) as nat)))
            by (nonlinear_arith)
            requires
                pow2(n) == 2 * pow2((n - 1) as nat),
                pow5(n) == 5 * pow5((n - 1) as nat),
        ;
    }
}

/// The number that the first `k` digits of `s` denote, where `s` goes on
/// with zeros after its last digit.
pub open spec fn prefix_nat(s: Seq<u8>, k: nat) -> nat {
    if k <= s.len() {
        digits_nat(s.take(k as int))
    } else {
        digits_nat(s) * pow10((k - s.len()) as nat)
    }
}

/// One more digit of the prefix.
pub proof fn lemma_prefix_nat_step(s: Seq<u8>, k: nat)
    ensures
        prefix_nat(s, k + 1) == 10 * prefix_nat(s, k) + (if k < s.len() {
            s[k as int] as nat
        } else {
            0
        }),
{
    if k < s.len() {
        let t = s.take(k as int + 1);
        assert(t.drop_last() =~= s.take(k as int));
        assert(t.last() == s[k as int]);
    } else {
        let c = (k - s.len()) as nat;
        lemma_pow10(c);
        if k == s.len() {
            assert(s.take(k as int) =~= s);
            assert(digits_nat(s) * 1 == digits_nat(s));
        }
        assert(digits_nat(s) * (10 * pow10(c)) == 10 * (digits_nat(s) * pow10(c)))
            by (nonlinear_arith);
    }
}

/// One step of the long division by `p`: the quotient gains the digit
/// `n / p`, and the remainder takes the next digit `d` of the dividend.
pub proof fn lemma_division_step(x: nat, w: nat, n: nat, p: nat, d: nat)
    requires
        p > 0,
        x == w * (10 * p) + n,
    ensures
        10 * x + d == (10 * w + n / p) * (10 * p) + (10 * (n % p) + d),
{
    vstd::arithmetic::div_mod::lemma_fundamental_div_mod(n as int, p as int);
    let q = n / p;
    let r = n % p;
    assert(10 * (w * (10 * p) + (p * q + r)) + d == (10 * w + q) * (10 * p) + (10 * r + d))
        by (nonlinear_arith);
}

/// One step of the division's tail: a remainder that `2^i` divides yields,
/// times ten and reduced modulo `2^s`, one that `2^(i + 1)` divides; and one
/// that `2^s` divides leaves nothing.
pub proof fn lemma_remainder_step(n: nat, s: nat, i: nat)
    requires
        i <= s,
        n % pow2(i) == 0,
    ensures
        i < s ==> (10 * (n % pow2(s))) % pow2(i + 1) == 0,
        i == s ==> n % pow2(s) == 0,
{
    if i < s {
        let a = pow2(i);
        let b = pow2((s - i) as nat);
        vstd::arithmetic::power2::lemma_pow2_pos(i);
        vstd::arithmetic::power2::lemma_pow2_pos((s - i) as nat);
        vstd::arithmetic::power2::lemma_pow2_adds(i, (s - i) as nat);
        vstd::arithmetic::power2::lemma_pow2_unfold(i + 1);
        vstd::arithmetic::div_mod::lemma_fundamental_div_mod(n as int, a as int);
        let k = n / a;
        assert(n == a * k);
        vstd::arithmetic::div_mod::lemma_truncate_middle(k as int, a as int, b as int);
        assert((a * k) % (a * b) == a * (k % b));
        let m = k % b;
        assert(10 * (a * m) == (2 * a) * (5 * m)) by (nonlinear_arith);
        vstd::arithmetic::div_mod::lemma_mod_multiples_basic((5 * m) as int, (2 * a) as int);
        assert(((5 * m) * (2 * a)) % (2 * a) == 0);
        assert((5 * m) * (2 * a) == (2 * a) * (5 * m)) by (nonlinear_arith);
    }
}

/// Two digit strings that first differ at `i`, where `a` has the smaller
/// digit: `a` is the smaller, once both are padded to the same length.
pub proof fn lemma_lex_less(a: Seq<u8>, b: Seq<u8>, i: int)
    requires
        all_digits(a),
        0 <= i < a.len(),
        i < b.len(),
        a.take(i) =~= b.take(i),
        a[i] < b[i],
    ensures
        digits_nat(a) * pow10(b.len()) < digits_nat(b) * pow10(a.len()),
{
    let ra = a.skip(i + 1);
    let rb = b.skip(i + 1);
    let ha = a.take(i + 1);
    let hb = b.take(i + 1);
    lemma_digits_nat_split(a, i + 1);
    lemma_digits_nat_split(b, i + 1);
    assert(ha.drop_last() =~= a.take(i));
    assert(hb.drop_last() =~= b.take(i));
    assert(ha.last() == a[i]);
    assert(hb.last() == b[i]);
    assert(all_digits(ra)) by {
        assert forall|j: int| 0 <= j < ra.len() implies #[trigger] ra[j] <= 9 by {
            assert(ra[j] == a[i + 1 + j]);
        }
    }
    lemma_digits_nat_bound(ra);
    let x = digits_nat(ha);
    let y = digits_nat(hb);
    assert(x + 1 <= y);
    let pa = pow10(ra.len());
    let pb = pow10(rb.len());
    lemma_pow10(ra.len());
    lemma_pow10(rb.len());
    lemma_pow10_adds(ra.len(), b.len());
    lemma_pow10_adds(rb.len(), a.len());
    assert(ra.len() + b.len() == rb.len() + a.len());
    let w = pow10(ra.len() + b.len());
    // a * 10^|b| < (x + 1) * w <= y * w <= b * 10^|a|
    lemma_pow10(b.len());
    assert(digits_nat(a) * pow10(b.len()) < (x + 1) * w) by (nonlinear_arith)
        requires
            digits_nat(a) == x * pa + digits_nat(ra),
            digits_nat(ra) < pa,
            w == pa * pow10(b.len()),
            pow10(b.len()) > 0,
    ;
    assert((x + 1) * w <= y * w) by (nonlinear_arith)
        requires
            x + 1 <= y,
    ;
    assert(y * w <= digits_nat(b) * pow10(a.len())) by (nonlinear_arith)
        requires
            digits_nat(b) == y * pb + digits_nat(rb),
            w == pb * pow10(a.len()),
    ;
}

/// A digit string against a longer one that starts with it and does not go
/// on with zeros only: the shorter is the smaller, once padded.
pub proof fn lemma_prefix_less(a: Seq<u8>, b: Seq<u8>)
    requires
        a.len() < b.len(),
        b.take(a.len() as int) =~= a,
        digits_nat(b.skip(a.len() as int)) > 0,
    ensures
        digits_nat(a) * pow10(b.len()) < digits_nat(b) * pow10(a.len()),
{
    let rb = b.skip(a.len() as int);
    lemma_digits_nat_split(b, a.len() as int);
    lemma_pow10_adds(a.len(), rb.len());
    lemma_pow10(a.len());
    assert(digits_nat(a) * pow10(b.len()) < digits_nat(b) * pow10(a.len())) by (nonlinear_arith)
        requires
            digits_nat(b) == digits_nat(a) * pow10(rb.len()) + digits_nat(rb),
            digits_nat(rb) > 0,
            pow10(b.len()) == pow10(a.len()) * pow10(rb.len()),
            pow10(a.len()) > 0,
    ;
}

/// A digit string against a start of it: the longer is not the smaller,
/// once the shorter is padded.
pub proof fn lemma_prefix_ge(a: Seq<u8>, b: Seq<u8>)
    requires
        b.len() <= a.len(),
        a.take(b.len() as int) =~= b,
    ensures
        digits_nat(a) * pow10(b.len()) >= digits_nat(b) * pow10(a.len()),
{
    let ra = a.skip(b.len() as int);
    lemma_digits_nat_split(a, b.len() as int);
    lemma_pow10_adds(b.len(), ra.len());
    assert(digits_nat(a) * pow10(b.len()) >= digits_nat(b) * pow10(a.len())) by (nonlinear_arith)
        requires
            digits_nat(a) == digits_nat(b) * pow10(ra.len()) + digits_nat(ra),
            pow10(a.len()) == pow10(b.len()) * pow10(ra.len()),
    ;
}

/// How many digits a multiplication by `2^s` adds to `d`: as many as `2^s`
/// has, or one fewer where `d`, read as a fraction, is below the fraction
/// that the digits of `5^s` make.
pub proof fn lemma_new_digits(d: nat, s: nat, g: nat, p: nat, less: bool)
    requires
        d > 0,
        g >= 1,
        g + p == s + 1,
        digit_count(pow5(s)) == p,
        pow10((g - 1) as nat) <= pow2(s) < pow10(g),
        less ==> d * pow10(p) < pow5(s) * pow10(digit_count(d)),
        !less ==> d * pow10(p) >= pow5(s) * pow10(digit_count(d)),
    ensures
        digit_count(d * pow2(s)) + (if less {
            1nat
        } else {
            0nat
        }) == digit_count(d) + g,
{
    let n = digit_count(d);
    let e = d * pow2(s);
    let f = pow5(s);
    lemma_pow2_pow5(s);
    crate::dec2flt::digits::lemma_pow5(s);
    lemma_digit_count_bounds(d);
    let k = (s - p) as nat;
    lemma_pow10_adds(p, k);
    lemma_pow10_adds(n, k);
    lemma_pow10(k);
    lemma_pow10(n + k);
    assert(n + k == n + g - 1);
    assert(e * f == d * pow10(s)) by (nonlinear_arith)
        requires
            e == d * pow2(s),
            pow2(s) * f == pow10(s),
    ;
    if less {
        assert(d * pow10(s) < f * pow10(n + k)) by (nonlinear_arith)
            requires
                d * pow10(p) < f * pow10(n),
                pow10(s) == pow10(p) * pow10(k),
                pow10(n + k) == pow10(n) * pow10(k),
                pow10(k) > 0,
        ;
        assert(e < pow10(n + k)) by (nonlinear_arith)
            requires
                e * f < f * pow10(n + k),
                f > 0,
        ;
        lemma_pow10_adds((n - 1) as nat, (g - 1) as nat);
        assert(pow10((n - 1) as nat) * pow10((g - 1) as nat) <= e) by (nonlinear_arith)
            requires
                pow10((n - 1) as nat) <= d,
                pow10((g - 1) as nat) <= pow2(s),
                e == d * pow2(s),
        ;
        if n + g - 1 == 0 {
            lemma_pow10(0);
            assert(false);
        }
        lemma_digit_count_unique(e, (n + g - 1) as nat);
    } else {
        assert(d * pow10(s) >= f * pow10(n + k)) by (nonlinear_arith)
            requires
                d * pow10(p) >= f * pow10(n),
                pow10(s) == pow10(p) * pow10(k),
                pow10(n + k) == pow10(n) * pow10(k),
                pow10(k) > 0,
        ;
        assert(e >= pow10(n + k)) by (nonlinear_arith)
            requires
                e * f >= f * pow10(n + k),
                f > 0,
        ;
        lemma_pow10_adds(n, g);
        assert(e < pow10(n) * pow10(g)) by (nonlinear_arith)
            requires
                d < pow10(n),
                pow2(s) < pow10(g),
                e == d * pow2(s),
                pow2(s) > 0,
        ;
        lemma_digit_count_unique(e, n + g);
    }
}

/// The number of digits that a multiplication by `2^shift` adds to `d`.
///
/// The tables name the number of digits of `2^shift`; the product has that
/// many more digits than `d`, or one fewer, and a comparison of the digits of
/// `d` with those of `5^shift` tells which.
pub fn number_of_digits_decimal_left_shift(d: &Decimal, shift: usize) -> (r: usize)
    requires
        d.wf(),
        d.num_digits > 0,
        shift <= MAX_SHIFT,
    ensures
        r + d.num_digits == digit_count(d.int_value() * pow2(shift as nat)),
        r <= 19,
{
    let ghost all = d.digits@.take(d.num_digits as int);
    let ghost value = d.int_value();
    proof {
        d.lemma_wf();
        assert(all_digits(all)) by {
            assert forall|i: int| 0 <= i < all.len() implies #[trigger] all[i] <= 9 by {
                assert(all[i] == d.digits[i]);
            }
        }
    }
    let (num_new_digits, pow5_a) = left_shift_entry(shift);
    let (_, pow5_b) = left_shift_entry(shift + 1);
    proof {
        if shift == 0 {
            lemma_left_shift_table_zero();
            vstd::arithmetic::power2::lemma2_to64();
            assert(value * 1 == value);
        } else {
            lemma_left_shift_table(shift as nat);
            vstd::arithmetic::power2::lemma2_to64_rest();
            lemma_pow10_values();
            let g = new_digits_entry(shift as int);
            if g > 19 {
                lemma_pow10_increases(19, (g - 1) as nat);
                vstd::arithmetic::power2::lemma_pow2_strictly_increases(shift as nat, 61);
                assert(false);
            }
        }
    }
    let ghost five = pow5_digits(shift as int);
    let mut i: usize = 0;
    while i < pow5_b - pow5_a
        invariant
            d.wf(),
            1 <= shift <= MAX_SHIFT || pow5_a == pow5_b,
            pow5_a <= pow5_b <= 1308,
            five == pow5_digits(shift as int),
            pow5_a == pow5_offset(shift as int),
            pow5_b == pow5_offset(shift as int + 1),
            num_new_digits == new_digits_entry(shift as int),
            value == digits_nat(all),
            value == d.int_value(),
            value > 0,
            digit_count(value) == d.num_digits,
            all_digits(all),
            num_new_digits <= 19,
            all == d.digits@.take(d.num_digits as int),
            i <= pow5_b - pow5_a,
            i <= d.num_digits,
            all.take(i as int) =~= five.take(i as int),
        decreases pow5_b - pow5_a - i,
    {
        let digit5 = pow5_digit(pow5_a + i);
        proof {
            lemma_left_shift_table(shift as nat);
            assert(five[i as int] == digit5);
            lemma_digits_nat_count(five);
        }
        if i >= d.num_digits {
            proof {
                let rest = five.skip(i as int);
                assert(rest.last() == five.last());
                assert(rest.last() <= 9);
                lemma_digits_nat_last(rest);
                assert(all.take(i as int) =~= all);
                lemma_prefix_less(all, five);
                lemma_new_digits(
                    value,
                    shift as nat,
                    num_new_digits as nat,
                    five.len(),
                    true,
                );
            }
            return num_new_digits - 1;
        } else if d.digits[i] == digit5 {
            proof {
                assert(all[i as int] == d.digits[i as int]);
                assert(all.take(i + 1) =~= all.take(i as int).push(all[i as int]));
                assert(five.take(i + 1) =~= five.take(i as int).push(five[i as int]));
            }
            i += 1;
        } else if d.digits[i] < digit5 {
            proof {
                assert(all[i as int] == d.digits[i as int]);
                lemma_lex_less(all, five, i as int);
                lemma_new_digits(
                    value,
                    shift as nat,
                    num_new_digits as nat,
                    five.len(),
                    true,
                );
            }
            return num_new_digits - 1;
        } else {
            proof {
                assert(all[i as int] == d.digits[i as int]);
                lemma_lex_less(five, all, i as int);
                lemma_new_digits(
                    value,
                    shift as nat,
                    num_new_digits as nat,
                    five.len(),
                    false,
                );
            }
            return num_new_digits;
        }
    }
    proof {
        if shift >= 1 {
            lemma_left_shift_table(shift as nat);
            lemma_digits_nat_count(five);
            assert(five.take(five.len() as int) =~= five);
            lemma_prefix_ge(all, five);
            lemma_new_digits(value, shift as nat, num_new_digits as nat, five.len(), false);
        }
    }
    num_new_digits
}

/// One step of the multiplication by `p`, from the right: the digit `d`
/// joins the part of the number that was read, the digit `(n + d * p) % 10`
/// the part of the product that was written.
pub proof fn lemma_multiply_step(read: nat, p: nat, n: nat, t: nat, written: nat, d: nat)
    requires
        read * p == n * t + written,
    ensures
        (d * t + read) * p == ((n + d * p) / 10) * (10 * t) + (((n + d * p) % 10) * t + written),
{
    let m = n + d * p;
    let q = m / 10;
    let r = m % 10;
    assert(m == 10 * q + r);
    assert((d * t + read) * p == (10 * q + r) * t + written) by (nonlinear_arith)
        requires
            read * p == n * t + written,
            n + d * p == 10 * q + r,
    ;
    assert((10 * q + r) * t + written == q * (10 * t) + (r * t + written)) by (nonlinear_arith);
}

/// The number of a digit string with one digit put in front.
pub proof fn lemma_digits_nat_prepend(x: u8, rest: Seq<u8>)
    ensures
        digits_nat(seq![x] + rest) == x as nat * pow10(rest.len()) + digits_nat(rest),
{
    let one = seq![x];
    assert(one.drop_last().len() == 0);
    assert(one.last() == x);
    assert(digits_nat(one.drop_last()) == 0);
    assert(digits_nat(one) == x);
    crate::dec2flt::digits::lemma_digits_nat_concat(one, rest);
}

/// The most significant decimal digit of `x`; zero for zero.
pub open spec fn leading_digit(x: nat) -> nat {
    if x == 0 {
        0
    } else {
        x / pow10((digit_count(x) - 1) as nat)
    }
}

/// What holds of the number that a well-formed [`Decimal`] stands for: the
/// significand has at most [`MAX_DIGITS`] digits and does not end in zero,
/// and the decimal point is within [`DECIMAL_POINT_LIMIT`].
pub open spec fn model_wf(m: DecimalModel) -> bool {
    &&& digit_count(m.significand) <= MAX_DIGITS
    &&& m.significand > 0 ==> m.significand % 10 != 0
    &&& -DECIMAL_POINT_LIMIT <= m.decimal_point <= DECIMAL_POINT_LIMIT
}

/// The leading digit of a positive number is a digit from one to nine, and
/// the number lies between it and the next, scaled.
pub proof fn lemma_leading_digit(x: nat)
    requires
        x > 0,
    ensures
        1 <= leading_digit(x) <= 9,
        leading_digit(x) * pow10((digit_count(x) - 1) as nat) <= x,
        x < (leading_digit(x) + 1) * pow10((digit_count(x) - 1) as nat),
{
    lemma_digit_count_bounds(x);
    let k = (digit_count(x) - 1) as nat;
    let u = pow10(k);
    lemma_pow10(k);
    vstd::arithmetic::div_mod::lemma_fundamental_div_mod(x as int, u as int);
    vstd::arithmetic::div_mod::lemma_mod_bound(x as int, u as int);
    let a = x / u;
    assert(a * u <= x && x < (a + 1) * u) by (nonlinear_arith)
        requires
            x == u * a + x % u,
            0 <= x % u < u,
    ;
    assert(a >= 1) by (nonlinear_arith)
        requires
            x < (a + 1) * u,
            u <= x,
            a >= 0,
    ;
    assert(a <= 9) by (nonlinear_arith)
        requires
            a * u <= x,
            x < 10 * u,
            u > 0,
    ;
}

/// A number between `a * 10^k` and `(a + 1) * 10^k` has `k + 1` digits, the
/// first of which is `a`.
pub proof fn lemma_leading_digit_unique(x: nat, a: nat, k: nat)
    requires
        1 <= a <= 9,
        a * pow10(k) <= x < (a + 1) * pow10(k),
    ensures
        digit_count(x) == k + 1,
        leading_digit(x) == a,
{
    let u = pow10(k);
    lemma_pow10(k);
    assert(u <= x) by (nonlinear_arith)
        requires
            a * u <= x,
            a >= 1,
            u > 0,
    ;
    assert(x < 10 * u) by (nonlinear_arith)
        requires
            x < (a + 1) * u,
            a <= 9,
            u > 0,
    ;
    lemma_digit_count_unique(x, k + 1);
    vstd::arithmetic::div_mod::lemma_fundamental_div_mod(x as int, u as int);
    vstd::arithmetic::div_mod::lemma_mod_bound(x as int, u as int);
    let q = x / u;
    assert(q == a) by (nonlinear_arith)
        requires
            x == u * q + x % u,
            0 <= x % u < u,
            a * u <= x < (a + 1) * u,
    ;
}

/// Cutting low digits off a number between `a * 10^k` and `(a + 1) * 10^k`
/// leaves a number between `a * 10^(k - j)` and `(a + 1) * 10^(k - j)`.
pub proof fn lemma_cut_keeps_leading(x: nat, a: nat, k: nat, j: nat)
    requires
        j <= k,
        a * pow10(k) <= x < (a + 1) * pow10(k),
    ensures
        a * pow10((k - j) as nat) <= x / pow10(j) < (a + 1) * pow10((k - j) as nat),
{
    let u = pow10(j);
    let v = pow10((k - j) as nat);
    lemma_pow10(j);
    lemma_pow10_adds((k - j) as nat, j);
    vstd::arithmetic::div_mod::lemma_fundamental_div_mod(x as int, u as int);
    vstd::arithmetic::div_mod::lemma_mod_bound(x as int, u as int);
    let q = x / u;
    assert(a * pow10(k) == (a * v) * u) by (nonlinear_arith)
        requires
            pow10(k) == v * u,
    ;
    assert((a + 1) * pow10(k) == ((a + 1) * v) * u) by (nonlinear_arith)
        requires
            pow10(k) == v * u,
    ;
    assert(a * v <= q) by (nonlinear_arith)
        requires
            (a * v) * u <= x,
            x == u * q + x % u,
            x % u < u,
            u > 0,
    ;
    assert(q < (a + 1) * v) by (nonlinear_arith)
        requires
            x < ((a + 1) * v) * u,
            x == u * q + x % u,
            0 <= x % u,
            u > 0,
    ;
}

/// The decimal that [`normalized`] makes of a positive number has the
/// leading digit of that number, and meets [`model_wf`] where its decimal
/// point is within the limit.
pub proof fn lemma_normalized(e: nat, e10: int, t: bool)
    requires
        e > 0,
    ensures
        normalized(e, e10, t).significand > 0,
        normalized(e, e10, t).significand % 10 != 0,
        digit_count(normalized(e, e10, t).significand) <= MAX_DIGITS,
        digit_count(normalized(e, e10, t).significand) <= digit_count(e),
        leading_digit(normalized(e, e10, t).significand) == leading_digit(e),
        normalized(e, e10, t).decimal_point == e10 + digit_count(e),
{
    let len = digit_count(e);
    let extra = if len > MAX_DIGITS {
        (len - MAX_DIGITS) as nat
    } else {
        0
    };
    let a = leading_digit(e);
    lemma_leading_digit(e);
    lemma_digit_count_bounds(e);
    let k = (len - 1) as nat;
    lemma_cut_keeps_leading(e, a, k, extra);
    let kept = e / pow10(extra);
    let kk = (k - extra) as nat;
    lemma_leading_digit_unique(kept, a, kk);
    lemma_strip_zeros(kept);
    let sig = strip_zeros(kept);
    let z = choose|z: nat| kept == strip_zeros(kept) * #[trigger] pow10(z);
    lemma_pow10(z);
    lemma_pow10(kk);
    if z > kk {
        lemma_pow10_increases(kk + 1, z);
        assert(sig * pow10(z) >= pow10(z)) by (nonlinear_arith)
            requires
                sig >= 1,
        ;
        assert((a + 1) * pow10(kk) <= 10 * pow10(kk)) by (nonlinear_arith)
            requires
                a <= 9,
        ;
        assert(false);
    }
    vstd::arithmetic::div_mod::lemma_fundamental_div_mod_converse(
        kept as int,
        pow10(z) as int,
        sig as int,
        0,
    );
    lemma_cut_keeps_leading(kept, a, kk, z);
    lemma_leading_digit_unique(sig, a, (kk - z) as nat);
}

/// A division by a power of two, from two on, moves the decimal point to the
/// left or leaves it in place; where it leaves it, the leading digit gets
/// smaller.
pub proof fn lemma_right_shift_progress(m: DecimalModel, shift: nat)
    requires
        m.significand > 0,
        shift >= 1,
    ensures
        right_shift_model(m, shift).decimal_point <= m.decimal_point || right_shift_model(
            m,
            shift,
        ) == zero_model(),
        right_shift_model(m, shift).decimal_point == m.decimal_point && right_shift_model(
            m,
            shift,
        ) != zero_model() ==> leading_digit(right_shift_model(m, shift).significand)
            < leading_digit(m.significand),
        right_shift_model(m, shift).significand > 0 || right_shift_model(m, shift)
            == zero_model(),
        right_shift_model(m, shift).decimal_point >= -DECIMAL_POINT_RANGE,
        model_wf(m) ==> model_wf(right_shift_model(m, shift)),
{
    let d = m.significand;
    let n = digit_count(d);
    let f = pow5(shift);
    let e = d * f;
    let a = leading_digit(d);
    lemma_leading_digit(d);
    lemma_digit_count_bounds(d);
    crate::dec2flt::digits::lemma_pow5(shift);
    lemma_pow2_pow5(shift);
    vstd::arithmetic::power2::lemma_pow2_unfold(shift);
    vstd::arithmetic::power2::lemma_pow2_pos((shift - 1) as nat);
    assert(e > 0) by (nonlinear_arith)
        requires
            e == d * f,
            d > 0,
            f > 0,
    ;
    lemma_normalized(e, m.decimal_point - n - shift, m.truncated);
    lemma_digit_count_bounds(e);
    let len = digit_count(e);
    let u = pow10((n - 1) as nat);
    lemma_pow10((n - 1) as nat);
    lemma_pow10_adds((n - 1) as nat, shift);
    lemma_pow10(shift);
    let w = pow10((n - 1 + shift) as nat);
    // 2 * e <= 2^shift * e == d * 10^shift < (a + 1) * 10^(n - 1 + shift)
    assert(pow2(shift) * e == d * pow10(shift)) by (nonlinear_arith)
        requires
            e == d * f,
            pow2(shift) * f == pow10(shift),
    ;
    assert(d * pow10(shift) < (a + 1) * w) by (nonlinear_arith)
        requires
            d < (a + 1) * u,
            w == u * pow10(shift),
            pow10(shift) > 0,
    ;
    assert(2 * e <= pow2(shift) * e) by (nonlinear_arith)
        requires
            pow2(shift) >= 2,
            e >= 0,
    ;
    assert(2 * e < (a + 1) * w);
    lemma_pow10((n - 1 + shift) as nat);
    assert((a + 1) * w <= 10 * w) by (nonlinear_arith)
        requires
            a <= 9,
            w > 0,
    ;
    if len > n + shift {
        lemma_pow10_increases((n + shift) as nat, (len - 1) as nat);
        assert(false);
    }
    if len == n + shift {
        let b = leading_digit(e);
        lemma_leading_digit(e);
        assert(2 * b < a + 1) by (nonlinear_arith)
            requires
                b * w <= e,
                2 * e < (a + 1) * w,
                w > 0,
        ;
    }
}

/// A division by a power of two does not yield zero where the decimal
/// point stays within the [`DECIMAL_POINT_RANGE`] when it moves by as many
/// places as the shift has bits.
pub proof fn lemma_right_shift_nonzero(m: DecimalModel, shift: nat)
    requires
        m.significand > 0,
        m.decimal_point - shift >= -DECIMAL_POINT_RANGE,
    ensures
        right_shift_model(m, shift).significand > 0,
        right_shift_model(m, shift).decimal_point >= m.decimal_point - shift,
{
    let e = m.significand * pow5(shift);
    crate::dec2flt::digits::lemma_pow5(shift);
    assert(e >= m.significand) by (nonlinear_arith)
        requires
            e == m.significand * pow5(shift),
            pow5(shift) >= 1,
    ;
    lemma_normalized(e, m.decimal_point - digit_count(m.significand) - shift, m.truncated);
    crate::dec2flt::digits::lemma_digit_count_increases(m.significand, e);
}

/// A multiplication by a power of two, from two on, moves the decimal point
/// to the right or leaves it in place; where it leaves it, the leading digit
/// gets larger.
pub proof fn lemma_left_shift_progress(m: DecimalModel, shift: nat)
    requires
        m.significand > 0,
        shift >= 1,
    ensures
        left_shift_model(m, shift).decimal_point >= m.decimal_point,
        left_shift_model(m, shift).decimal_point <= m.decimal_point + shift,
        left_shift_model(m, shift).decimal_point == m.decimal_point ==> leading_digit(
            left_shift_model(m, shift).significand,
        ) > leading_digit(m.significand),
        left_shift_model(m, shift).significand > 0,
        model_wf(m) && m.decimal_point + shift <= DECIMAL_POINT_LIMIT ==> model_wf(
            left_shift_model(m, shift),
        ),
{
    let d = m.significand;
    let n = digit_count(d);
    let p = pow2(shift);
    let e = d * p;
    let a = leading_digit(d);
    lemma_leading_digit(d);
    lemma_digit_count_bounds(d);
    vstd::arithmetic::power2::lemma_pow2_unfold(shift);
    vstd::arithmetic::power2::lemma_pow2_pos((shift - 1) as nat);
    lemma_pow2_pow5(shift);
    crate::dec2flt::digits::lemma_pow5(shift);
    assert(e >= 2 * d) by (nonlinear_arith)
        requires
            e == d * p,
            p >= 2,
            d >= 0,
    ;
    lemma_normalized(e, m.decimal_point - n, m.truncated);
    lemma_digit_count_bounds(e);
    crate::dec2flt::digits::lemma_digit_count_increases(d, e);
    let len = digit_count(e);
    let u = pow10((n - 1) as nat);
    lemma_pow10((n - 1) as nat);
    // e < 10^n * 2^shift <= 10^(n + shift)
    lemma_pow10_adds(n, shift);
    lemma_pow10(shift);
    assert(e < pow10(n + shift)) by (nonlinear_arith)
        requires
            e == d * p,
            d < pow10(n),
            p * pow5(shift) == pow10(shift),
            pow5(shift) >= 1,
            pow10(n + shift) == pow10(n) * pow10(shift),
            p > 0,
    ;
    if len > n + shift {
        lemma_pow10_increases(n + shift, (len - 1) as nat);
        assert(false);
    }
    if len == n {
        let b = leading_digit(e);
        lemma_leading_digit(e);
        assert(b + 1 > 2 * a) by (nonlinear_arith)
            requires
                e < (b + 1) * u,
                a * u <= d,
                e >= 2 * d,
                u > 0,
        ;
    }
}

/// A decimal number of up to [`MAX_DIGITS`] significant digits.
///
/// The digits `digits[0..num_digits]` are read as a fraction, and
/// `decimal_point` is the power of ten that scales it:
/// the value is `0.d0 d1 ... * 10^decimal_point`.
pub struct Decimal {
    /// The number of significant digits.
    pub num_digits: usize,
    /// The position of the decimal point, relative to the first digit.
    pub decimal_point: i32,
    /// Whether non-zero digits were dropped.
    pub truncated: bool,
    /// The digits, the most significant first.
    pub digits: [u8; 768],
}

impl Decimal {
    /// The live entries of `digits` are decimal digits.
    pub open spec fn digits_ok(&self) -> bool {
        &&& self.num_digits <= MAX_DIGITS
        &&& forall|i: int| 0 <= i < self.num_digits ==> #[trigger] self.digits[i] <= 9
    }

    /// The invariant of the type: the digits are decimal digits, without
    /// a zero at either end, and the decimal point is within
    /// [`DECIMAL_POINT_LIMIT`].
    pub open spec fn wf(&self) -> bool {
        &&& self.digits_ok()
        &&& self.num_digits > 0 ==> self.digits[0] != 0 && self.digits[self.num_digits - 1] != 0
        &&& -DECIMAL_POINT_LIMIT <= self.decimal_point <= DECIMAL_POINT_LIMIT
    }

    /// The number that the live digits denote.
    pub open spec fn int_value(&self) -> nat {
        digits_nat(self.digits@.take(self.num_digits as int))
    }

    /// The number that this decimal stands for.
    pub open spec fn view(&self) -> DecimalModel {
        DecimalModel {
            significand: self.int_value(),
            decimal_point: self.decimal_point as int,
            truncated: self.truncated,
        }
    }

    /// In a well-formed decimal, the digits are those of `int_value`.
    pub proof fn lemma_wf(&self)
        requires
            self.wf(),
        ensures
            digit_count(self.int_value()) == self.num_digits,
            self.num_digits > 0 ==> self.int_value() % 10 != 0,
            self.num_digits == 0 <==> self.int_value() == 0,
            self.num_digits > 0 ==> leading_digit(self.int_value()) == self.digits[0],
            model_wf(self@),
    {
        let s = self.digits@.take(self.num_digits as int);
        assert(all_digits(s)) by {
            assert forall|i: int| 0 <= i < s.len() implies #[trigger] s[i] <= 9 by {
                assert(s[i] == self.digits[i]);
            }
        }
        if self.num_digits > 0 {
            assert(s[0] == self.digits[0]);
            assert(s.last() == self.digits[self.num_digits - 1]);
            lemma_digits_nat_last(s);
            lemma_digits_nat_lower(s);
            lemma_pow10((s.len() - 1) as nat);
        }
        lemma_digits_nat_count(s);
        if self.num_digits > 0 {
            lemma_digits_nat_split(s, 1);
            let rest = s.skip(1);
            assert(all_digits(rest)) by {
                assert forall|j: int| 0 <= j < rest.len() implies #[trigger] rest[j] <= 9 by {
                    assert(rest[j] == s[j + 1]);
                }
            }
            lemma_digits_nat_bound(rest);
            assert(s.take(1).drop_last().len() == 0);
            assert(digits_nat(s.take(1).drop_last()) == 0);
            assert(s.take(1).last() == s[0]);
            assert(digits_nat(s.take(1)) == s[0]);
            let u = pow10((s.len() - 1) as nat);
            assert((s[0] as nat + 1) * u == s[0] as nat * u + u) by (nonlinear_arith);
            lemma_leading_digit_unique(digits_nat(s), s[0] as nat, (s.len() - 1) as nat);
        }
    }

    /// The decimal zero: no digits, the decimal point at zero, nothing
    /// dropped, and a buffer that holds zeros throughout.
    pub fn new() -> (r: Self)
        ensures
            r.wf(),
            r@ == zero_model(),
            r.num_digits == 0,
            r.decimal_point == 0,
            !r.truncated,
            forall|i: int| 0 <= i < MAX_DIGITS ==> r.digits[i] == 0,
    {
        let r = Decimal { num_digits: 0, decimal_point: 0, truncated: false, digits: [0u8; 768] };
        assert(r.digits@.take(0).len() == 0);
        r
    }

    /// Removes the trailing zeros.
    pub fn trim(&mut self)
        requires
            old(self).digits_ok(),
        ensures
            final(self).digits_ok(),
            final(self).digits == old(self).digits,
            final(self).decimal_point == old(self).decimal_point,
            final(self).truncated == old(self).truncated,
            final(self).num_digits <= old(self).num_digits,
            final(self).int_value() == strip_zeros(old(self).int_value()),
            final(self).num_digits > 0 ==> final(self).digits[final(self).num_digits - 1] != 0,
            old(self).num_digits > 0 && old(self).digits[0] != 0 ==> final(self).num_digits > 0,
    {
        while self.num_digits != 0 && self.digits[self.num_digits - 1] == 0
            invariant
                self.digits_ok(),
                self.digits == old(self).digits,
                self.decimal_point == old(self).decimal_point,
                self.truncated == old(self).truncated,
                self.num_digits <= old(self).num_digits,
                strip_zeros(self.int_value()) == strip_zeros(old(self).int_value()),
                old(self).num_digits > 0 && old(self).digits[0] != 0 ==> self.num_digits > 0,
            decreases self.num_digits,
        {
            proof {
                let s = self.digits@.take(self.num_digits as int);
                assert(s.drop_last() =~= self.digits@.take(self.num_digits - 1));
                assert(s.last() == 0);
            }
            self.num_digits -= 1;
        }
        proof {
            let s = self.digits@.take(self.num_digits as int);
            if self.num_digits > 0 {
                assert(s.last() == self.digits[self.num_digits - 1]);
                lemma_digits_nat_last(s);
            }
        }
    }

    /// Multiplies by `2^shift`.
    ///
    /// The product is computed digit by digit, from the right, with the
    /// number of its digits known beforehand. Digits beyond the capacity are
    /// dropped, and mark the result as truncated where one of them is not
    /// zero.
    pub fn left_shift(&mut self, shift: usize)
        requires
            old(self).wf(),
            shift <= MAX_SHIFT,
            old(self).decimal_point <= DECIMAL_POINT_RANGE,
        ensures
            final(self).wf(),
            final(self)@ == left_shift_model(old(self)@, shift as nat),
    {
        proof {
            self.lemma_wf();
        }
        if self.num_digits == 0 {
            return ;
        }
        let num_new_digits = number_of_digits_decimal_left_shift(self, shift);
        let mut read_index = self.num_digits;
        let mut write_index = self.num_digits + num_new_digits;
        let mut n = 0_u64;
        let ghost len = self.num_digits as nat;
        let ghost all = self.digits@.take(len as int);
        let ghost d = self.int_value();
        let ghost p = pow2(shift as nat);
        let ghost total: nat = (len + num_new_digits) as nat;
        let ghost e = d * p;
        let ghost low: Seq<u8> = Seq::empty();
        let ghost lost = false;
        proof {
            vstd::arithmetic::power2::lemma_pow2_pos(shift as nat);
            vstd::arithmetic::power2::lemma2_to64_rest();
            if shift < 60 {
                vstd::arithmetic::power2::lemma_pow2_strictly_increases(shift as nat, 60);
            }
            assert(all.skip(len as int).len() == 0);
            assert(digits_nat(all.skip(len as int)) == 0);
            assert(digits_nat(low) == 0);
            lemma_pow10(0);
            assert(0 * p == 0 * pow10(0) + 0) by (nonlinear_arith);
        }
        while read_index != 0
            invariant
                self.num_digits == len,
                self.decimal_point == old(self).decimal_point,
                self.truncated == (old(self).truncated || lost),
                old(self).wf(),
                shift <= MAX_SHIFT,
                p == pow2(shift as nat),
                0 < p <= 0x1000_0000_0000_0000,
                len == old(self).num_digits,
                num_new_digits <= 19,
                total == len + num_new_digits,
                all == old(self).digits@.take(len as int),
                read_index <= len,
                write_index == read_index + num_new_digits,
                low.len() == len - read_index,
                all_digits(low),
                digits_nat(all.skip(read_index as int)) * p == n * pow10(low.len()) + digits_nat(low),
                n < p,
                forall|j: int| 0 <= j < read_index ==> #[trigger] self.digits[j] == old(self).digits[j],
                forall|j: int|
                    0 <= j < low.len() && write_index + j < MAX_DIGITS ==> self.digits[write_index
                        + j] == #[trigger] low[j],
                lost <==> exists|j: int|
                    0 <= j < low.len() && write_index + j >= MAX_DIGITS && #[trigger] low[j] != 0,
            decreases read_index,
        {
            read_index -= 1;
            write_index -= 1;
            let ghost digit = self.digits[read_index as int];
            proof {
                assert(digit <= 9);
                assert(digit as nat * p <= 9 * p) by (nonlinear_arith)
                    requires
                        digit <= 9,
                ;
                vstd::bits::lemma_u64_shl_is_mul(digit as u64, shift as u64);
                let rest = all.skip(read_index + 1);
                assert(all.skip(read_index as int) =~= seq![all[read_index as int]] + rest);
                assert(all[read_index as int] == digit);
                lemma_digits_nat_prepend(digit, rest);
                lemma_multiply_step(
                    digits_nat(rest),
                    p,
                    n as nat,
                    pow10(low.len()),
                    digits_nat(low),
                    digit as nat,
                );
                lemma_pow10(low.len());
            }
            n += (self.digits[read_index] as u64) << shift;
            let quotient = n / 10;
            let remainder = n - (10 * quotient);
            if write_index < MAX_DIGITS {
                self.digits[write_index] = remainder as u8;
            } else if remainder > 0 {
                self.truncated = true;
            }
            n = quotient;
            proof {
                let prev = low;
                low = seq![remainder as u8] + prev;
                lemma_digits_nat_prepend(remainder as u8, prev);
                assert(all_digits(low)) by {
                    assert forall|j: int| 0 <= j < low.len() implies #[trigger] low[j] <= 9 by {
                        if j > 0 {
                            assert(low[j] == prev[j - 1]);
                        }
                    }
                }
                assert forall|j: int|
                    0 <= j < low.len() && write_index + j < MAX_DIGITS implies self.digits[write_index
                    + j] == #[trigger] low[j] by {
                    if j > 0 {
                        assert(low[j] == prev[j - 1]);
                    }
                }
                let was_lost = lost;
                lost = lost || (write_index >= MAX_DIGITS && remainder > 0);
                if was_lost {
                    let j = choose|j: int|
                        0 <= j < prev.len() && write_index + 1 + j >= MAX_DIGITS && #[trigger] prev[j]
                            != 0;
                    assert(low[j + 1] == prev[j]);
                } else if lost {
                    assert(low[0] != 0);
                } else {
                    assert forall|j: int|
                        0 <= j < low.len() && write_index + j >= MAX_DIGITS implies #[trigger] low[j]
                        == 0 by {
                        if j > 0 {
                            assert(low[j] == prev[j - 1]);
                        }
                    }
                }
            }
        }
        proof {
            assert(all.skip(0) =~= all);
            lemma_digit_count_bounds(e);
        }
        while n > 0
            invariant
                self.num_digits == len,
                self.decimal_point == old(self).decimal_point,
                self.truncated == (old(self).truncated || lost),
                old(self).wf(),
                len == old(self).num_digits,
                len > 0,
                num_new_digits <= 19,
                total == len + num_new_digits,
                write_index <= num_new_digits,
                low.len() == total - write_index,
                all_digits(low),
                e == n * pow10(low.len()) + digits_nat(low),
                e < pow10(total),
                forall|j: int|
                    0 <= j < low.len() && write_index + j < MAX_DIGITS ==> self.digits[write_index
                        + j] == #[trigger] low[j],
                lost <==> exists|j: int|
                    0 <= j < low.len() && write_index + j >= MAX_DIGITS && #[trigger] low[j] != 0,
            decreases n,
        {
            proof {
                if write_index == 0 {
                    assert(n * pow10(total) >= pow10(total)) by (nonlinear_arith)
                        requires
                            n >= 1,
                    ;
                    assert(false);
                }
                lemma_multiply_step(e, 1, n as nat, pow10(low.len()), digits_nat(low), 0);
                assert((0 * pow10(low.len()) + e) * 1 == e) by (nonlinear_arith);
                assert(n as nat + 0 * 1 == n);
                lemma_pow10(low.len());
            }
            write_index -= 1;
            let quotient = n / 10;
            let remainder = n - (10 * quotient);
            if write_index < MAX_DIGITS {
                self.digits[write_index] = remainder as u8;
            } else if remainder > 0 {
                self.truncated = true;
            }
            n = quotient;
            proof {
                let prev = low;
                low = seq![remainder as u8] + prev;
                lemma_digits_nat_prepend(remainder as u8, prev);
                assert(all_digits(low)) by {
                    assert forall|j: int| 0 <= j < low.len() implies #[trigger] low[j] <= 9 by {
                        if j > 0 {
                            assert(low[j] == prev[j - 1]);
                        }
                    }
                }
                assert forall|j: int|
                    0 <= j < low.len() && write_index + j < MAX_DIGITS implies self.digits[write_index
                    + j] == #[trigger] low[j] by {
                    if j > 0 {
                        assert(low[j] == prev[j - 1]);
                    }
                }
                let was_lost = lost;
                lost = lost || (write_index >= MAX_DIGITS && remainder > 0);
                if was_lost {
                    let j = choose|j: int|
                        0 <= j < prev.len() && write_index + 1 + j >= MAX_DIGITS && #[trigger] prev[j]
                            != 0;
                    assert(low[j + 1] == prev[j]);
                } else if lost {
                    assert(low[0] != 0);
                } else {
                    assert forall|j: int|
                        0 <= j < low.len() && write_index + j >= MAX_DIGITS implies #[trigger] low[j]
                        == 0 by {
                        if j > 0 {
                            assert(low[j] == prev[j - 1]);
                        }
                    }
                }
            }
        }
        self.num_digits += num_new_digits;
        if self.num_digits > MAX_DIGITS {
            self.num_digits = MAX_DIGITS;
        }
        self.decimal_point += num_new_digits as i32;
        proof {
            lemma_digit_count_bounds(e);
            lemma_digits_nat_bound(low);
            assert(0 * pow10(low.len()) == 0) by (nonlinear_arith);
            if low.len() < total {
                lemma_pow10_increases(low.len(), (total - 1) as nat);
                assert(false);
            }
            assert(write_index == 0);
            if low[0] == 0 {
                lemma_digits_nat_split(low, 1);
                assert(low.take(1).drop_last().len() == 0);
                assert(digits_nat(low.take(1).drop_last()) == 0);
                assert(low.take(1).last() == 0);
                assert(digits_nat(low.take(1)) == 0);
                let rest = low.skip(1);
                assert(all_digits(rest)) by {
                    assert forall|j: int| 0 <= j < rest.len() implies #[trigger] rest[j] <= 9 by {
                        assert(rest[j] == low[j + 1]);
                    }
                }
                lemma_digits_nat_bound(rest);
                assert(0 * pow10((low.len() - 1) as nat) == 0) by (nonlinear_arith);
                assert(false);
            }
            let kept = self.digits@.take(self.num_digits as int);
            assert(kept =~= low.take(self.num_digits as int)) by {
                assert forall|j: int| 0 <= j < self.num_digits implies kept[j] == low[j] by {
                    assert(self.digits[0 + j] == low[j]);
                }
            }
            lemma_digits_nat_split(low, self.num_digits as int);
            let dropped = low.skip(self.num_digits as int);
            assert(all_digits(dropped)) by {
                assert forall|j: int| 0 <= j < dropped.len() implies #[trigger] dropped[j] <= 9 by {
                    assert(dropped[j] == low[self.num_digits + j]);
                }
            }
            lemma_digits_nat_bound(dropped);
            lemma_pow10(dropped.len());
            vstd::arithmetic::div_mod::lemma_fundamental_div_mod_converse(
                e as int,
                pow10(dropped.len()) as int,
                digits_nat(kept) as int,
                digits_nat(dropped) as int,
            );
            lemma_digits_nat_zero(dropped);
            if lost {
                let j = choose|j: int|
                    0 <= j < low.len() && write_index + j >= MAX_DIGITS && #[trigger] low[j] != 0;
                assert(dropped[j - self.num_digits] == low[j]);
            } else {
                assert forall|j: int| 0 <= j < dropped.len() implies #[trigger] dropped[j] == 0 by {
                    assert(dropped[j] == low[self.num_digits + j]);
                }
            }
            assert(self.digits[0] == low[0]);
            assert forall|i: int| 0 <= i < self.num_digits implies #[trigger] self.digits[i]
                <= 9 by {
                assert(self.digits[0 + i] == low[i]);
            }
        }
        self.trim();
    }

    /// Divides by `2^shift`.
    ///
    /// The quotient is computed digit by digit, from the top. Digits beyond
    /// the capacity are dropped, and mark the result as truncated where one
    /// of them is not zero. A quotient whose decimal point falls below
    /// `-DECIMAL_POINT_RANGE` becomes zero.
    pub fn right_shift(&mut self, shift: usize)
        requires
            old(self).wf(),
            shift <= MAX_SHIFT,
        ensures
            final(self).wf(),
            final(self)@ == right_shift_model(old(self)@, shift as nat),
    {
        let ghost all = self.digits@.take(self.num_digits as int);
        let ghost d = self.int_value();
        let ghost p = pow2(shift as nat);
        let ghost len = self.num_digits as nat;
        proof {
            self.lemma_wf();
            lemma_pow2_pow5(shift as nat);
            vstd::arithmetic::power2::lemma2_to64_rest();
            if shift < 60 {
                vstd::arithmetic::power2::lemma_pow2_strictly_increases(shift as nat, 60);
            }
            lemma_pow10_values();
            assert(all.take(0).len() == 0);
            assert(all_digits(all)) by {
                assert forall|i: int| 0 <= i < all.len() implies #[trigger] all[i] <= 9 by {
                    assert(all[i] == self.digits[i]);
                }
            }
        }
        let mut read_index: usize = 0;
        let mut write_index: usize = 0;
        let mut n = 0_u64;
        proof {
            lemma_shr(n, shift as u64);
        }
        while (n >> shift) == 0
            invariant
                *self == *old(self),
                self.wf(),
                shift <= MAX_SHIFT,
                all == self.digits@.take(self.num_digits as int),
                all_digits(all),
                d == digits_nat(all),
                len == self.num_digits,
                p == pow2(shift as nat),
                0 < p <= 0x1000_0000_0000_0000,
                n == prefix_nat(all, read_index as nat),
                n < 10 * p,
                (n >> shift) == n as nat / p,
                read_index > len ==> pow10((read_index - len) as nat) <= n,
                read_index <= len + 19,
                read_index > 0 ==> n > 0,
                len > 0 ==> d > 0,
                pow10(19) == 10_000_000_000_000_000_000,
            decreases
                    (if read_index < len {
                        len - read_index
                    } else {
                        0
                    }),
                    10 * p - n,
        {
            proof {
                lemma_prefix_nat_step(all, read_index as nat);
                assert(n < p) by (nonlinear_arith)
                    requires
                        n as nat / p == 0,
                        p > 0,
                {
                    vstd::arithmetic::div_mod::lemma_fundamental_div_mod(n as int, p as int);
                    vstd::arithmetic::div_mod::lemma_mod_bound(n as int, p as int);
                }
            }
            if read_index < self.num_digits {
                proof {
                    assert(all[read_index as int] == self.digits[read_index as int]);
                    if read_index == 0 {
                        assert(self.digits[0] != 0);
                    }
                }
                n = (10 * n) + self.digits[read_index] as u64;
                read_index += 1;
            } else if n == 0 {
                proof {
                    assert(all.take(len as int) =~= all);
                }
                return ;
            } else {
                proof {
                    let c = (read_index - len) as nat;
                    lemma_pow10(c);
                    if read_index == len {
                        assert(pow10(0) == 1);
                    }
                    assert(10 * pow10(c) <= 10 * n);
                    if read_index + 1 > len + 19 {
                        lemma_pow10_increases(19, c + 1);
                        assert(false);
                    }
                }
                n *= 10;
                read_index += 1;
            }
            proof {
                lemma_shr(n, shift as u64);
            }
        }
        proof {
            assert(n >= p) by (nonlinear_arith)
                requires
                    n as nat / p != 0,
                    p > 0,
            {
                vstd::arithmetic::div_mod::lemma_fundamental_div_mod(n as int, p as int);
                vstd::arithmetic::div_mod::lemma_mod_bound(n as int, p as int);
            }
            assert(read_index > 0);
            assert(len > 0) by {
                if len == 0 {
                    assert(all.len() == 0);
                    assert(d == 0);
                    assert(n == 0) by (nonlinear_arith)
                        requires
                            n == d * pow10((read_index - len) as nat),
                            d == 0,
                    ;
                }
            }
            if read_index <= len {
                lemma_digits_nat_split(all, read_index as int);
                let tail = all.skip(read_index as int);
                assert(all_digits(tail)) by {
                    assert forall|j: int| 0 <= j < tail.len() implies #[trigger] tail[j] <= 9 by {
                        assert(tail[j] == all[read_index + j]);
                    }
                }
                lemma_digits_nat_bound(tail);
                lemma_pow10((len - read_index) as nat);
                vstd::arithmetic::div_mod::lemma_fundamental_div_mod_converse(
                    d as int,
                    pow10((len - read_index) as nat) as int,
                    n as int,
                    digits_nat(tail) as int,
                );
            }
            lemma_right_shift_position(d, shift as nat, read_index as nat, n as nat);
        }
        let ghost first_read = read_index;
        self.decimal_point -= read_index as i32 - 1;
        if self.decimal_point < -DECIMAL_POINT_RANGE {
            // zero, without the cost of a fresh value
            self.digits[0] = 0;
            self.decimal_point = 0;
            self.num_digits = 0;
            self.truncated = false;
            proof {
                assert(self.digits@.take(0).len() == 0);
            }
            return ;
        }
        proof {
            vstd::bits::lemma_u64_shl_is_mul(1, shift as u64);
            vstd::bits::lemma_u64_low_bits_mask_is_mod(n, shift as nat);
        }
        let mask = (1_u64 << shift) - 1;
        let ghost out: Seq<u8> = Seq::empty();
        let ghost consumed: nat = read_index as nat;
        proof {
            assert(digits_nat(out) == 0);
            assert(0 * (10 * p) == 0) by (nonlinear_arith);
        }
        while read_index < self.num_digits
            invariant
                self.num_digits == len,
                self.num_digits <= MAX_DIGITS,
                self.decimal_point == old(self).decimal_point - (first_read - 1),
                self.truncated == old(self).truncated,
                shift <= MAX_SHIFT,
                p == pow2(shift as nat),
                0 < p <= 0x1000_0000_0000_0000,
                mask == p - 1,
                all == old(self).digits@.take(len as int),
                all_digits(all),
                first_read >= 1,
                first_read <= read_index,
                consumed == read_index,
                write_index == read_index - first_read,
                out.len() == write_index,
                all_digits(out),
                forall|i: int| 0 <= i < write_index ==> self.digits[i] == #[trigger] out[i],
                forall|i: int|
                    write_index <= i < MAX_DIGITS ==> #[trigger] self.digits[i] == old(
                        self,
                    ).digits[i],
                prefix_nat(all, consumed) == digits_nat(out) * (10 * p) + n,
                n < 10 * p,
                write_index == 0 ==> n >= p,
                write_index > 0 ==> out[0] != 0,
                write_index > 0 ==> n >= all[read_index - 1],
                write_index > 0 ==> read_index <= len,
                write_index <= len,
                d == digits_nat(all),
                len > 0,
                d > 0,
                old(self).wf(),
                digit_count(d * pow5(shift as nat)) == len + shift + 1 - first_read,
            decreases self.num_digits - read_index,
        {
            proof {
                lemma_shr(n, shift as u64);
                vstd::bits::lemma_u64_low_bits_mask_is_mod(n, shift as nat);
                vstd::arithmetic::div_mod::lemma_fundamental_div_mod(n as int, p as int);
                vstd::arithmetic::div_mod::lemma_mod_bound(n as int, p as int);
                assert(n as nat / p < 10) by (nonlinear_arith)
                    requires
                        n < 10 * p,
                        n == p * (n as nat / p) + n as nat % p,
                        p > 0,
                ;
                assert(write_index == 0 ==> n as nat / p >= 1) by (nonlinear_arith)
                    requires
                        write_index == 0 ==> n >= p,
                        n == p * (n as nat / p) + n as nat % p,
                        n as nat % p < p,
                        p > 0,
                ;
                lemma_prefix_nat_step(all, consumed);
                lemma_division_step(
                    prefix_nat(all, consumed),
                    digits_nat(out),
                    n as nat,
                    p,
                    all[read_index as int] as nat,
                );
                assert(all[read_index as int] == old(self).digits[read_index as int]);
            }
            let new_digit = (n >> shift) as u8;
            n = (10 * (n & mask)) + self.digits[read_index] as u64;
            read_index += 1;
            self.digits[write_index] = new_digit;
            write_index += 1;
            proof {
                let prev = out;
                out = out.push(new_digit);
                consumed = consumed + 1;
                assert(out.drop_last() =~= prev);
                assert(out.last() == new_digit);
                assert(all_digits(out)) by {
                    assert forall|i: int| 0 <= i < out.len() implies #[trigger] out[i] <= 9 by {
                        if i < prev.len() {
                            assert(out[i] == prev[i]);
                        }
                    }
                }
                assert(out[0] != 0) by {
                    if prev.len() > 0 {
                        assert(out[0] == prev[0]);
                    }
                }
            }
        }
        let ghost lost = false;
        let ghost steps: nat = 0;
        proof {
            vstd::arithmetic::power2::lemma2_to64();
            assert(n as nat % 1 == 0);
            if write_index > 0 {
                assert(all[len - 1] == old(self).digits[len - 1]);
            }
        }
        while n > 0
            invariant
                self.num_digits == len,
                self.decimal_point == old(self).decimal_point - (first_read - 1),
                self.truncated == (old(self).truncated || lost),
                shift <= MAX_SHIFT,
                p == pow2(shift as nat),
                0 < p <= 0x1000_0000_0000_0000,
                mask == p - 1,
                first_read >= 1,
                consumed >= len,
                consumed > len || n > 0,
                consumed >= first_read,
                out.len() == consumed - first_read,
                write_index == if out.len() <= MAX_DIGITS {
                    out.len()
                } else {
                    MAX_DIGITS as nat
                },
                all_digits(out),
                forall|i: int| 0 <= i < write_index ==> self.digits[i] == #[trigger] out[i],
                lost <==> exists|i: int| MAX_DIGITS <= i < out.len() && #[trigger] out[i] != 0,
                prefix_nat(all, consumed) == digits_nat(out) * (10 * p) + n,
                n < 10 * p,
                out.len() == 0 ==> n >= p,
                out.len() > 0 ==> out[0] != 0,
                n == 0 ==> out.len() > 0 && out.last() != 0,
                steps <= shift ==> n as nat % pow2(steps) == 0,
                steps > shift ==> n == 0,
                steps <= shift + 1,
                len <= MAX_DIGITS,
                all == old(self).digits@.take(len as int),
                d == digits_nat(all),
                len > 0,
                d > 0,
                old(self).wf(),
                digit_count(d * pow5(shift as nat)) == len + shift + 1 - first_read,
                -DECIMAL_POINT_RANGE <= self.decimal_point,
            decreases shift + 1 - steps,
        {
            proof {
                lemma_shr(n, shift as u64);
                vstd::bits::lemma_u64_low_bits_mask_is_mod(n, shift as nat);
                vstd::arithmetic::div_mod::lemma_fundamental_div_mod(n as int, p as int);
                vstd::arithmetic::div_mod::lemma_mod_bound(n as int, p as int);
                assert(n as nat / p < 10) by (nonlinear_arith)
                    requires
                        n < 10 * p,
                        n == p * (n as nat / p) + n as nat % p,
                        p > 0,
                ;
                assert(n as nat % p == 0 || out.len() == 0 ==> n as nat / p >= 1) by (nonlinear_arith)
                    requires
                        out.len() == 0 ==> n >= p,
                        n > 0,
                        n == p * (n as nat / p) + n as nat % p,
                        n as nat % p < p,
                        p > 0,
                ;
                lemma_prefix_nat_step(all, consumed);
                lemma_division_step(prefix_nat(all, consumed), digits_nat(out), n as nat, p, 0);
                lemma_remainder_step(n as nat, shift as nat, steps);
            }
            let new_digit = (n >> shift) as u8;
            n = 10 * (n & mask);
            if write_index < MAX_DIGITS {
                self.digits[write_index] = new_digit;
                write_index += 1;
            } else if new_digit > 0 {
                self.truncated = true;
            }
            proof {
                let prev = out;
                out = out.push(new_digit);
                consumed = consumed + 1;
                steps = steps + 1;
                assert(out.drop_last() =~= prev);
                assert(out.last() == new_digit);
                assert(all_digits(out)) by {
                    assert forall|i: int| 0 <= i < out.len() implies #[trigger] out[i] <= 9 by {
                        if i < prev.len() {
                            assert(out[i] == prev[i]);
                        }
                    }
                }
                assert(out[0] != 0) by {
                    if prev.len() > 0 {
                        assert(out[0] == prev[0]);
                    }
                }
                let was_lost = lost;
                lost = lost || (prev.len() >= MAX_DIGITS && new_digit != 0);
                if was_lost {
                    let i = choose|i: int| MAX_DIGITS <= i < prev.len() && #[trigger] prev[i] != 0;
                    assert(out[i] == prev[i]);
                } else if lost {
                    assert(out[prev.len() as int] != 0);
                } else {
                    assert forall|i: int| MAX_DIGITS <= i < out.len() implies #[trigger] out[i]
                        == 0 by {
                        if i < prev.len() {
                            assert(out[i] == prev[i]);
                        }
                    }
                }
            }
        }
        self.num_digits = write_index;
        proof {
            let whole = digits_nat(out);
            let e = d * pow5(shift as nat);
            let c = (consumed - len) as nat;
            let e10 = old(self).decimal_point - len - shift;
            crate::dec2flt::digits::lemma_pow5(shift as nat);
            assert(all.len() == len);
            assert(d * pow10(c) == whole * (10 * p));
            lemma_pow10(shift as nat);
            assert(e * pow10(c) == whole * pow10((shift + 1) as nat)) by (nonlinear_arith)
                requires
                    e == d * pow5(shift as nat),
                    d * pow10(c) == whole * (10 * p),
                    p * pow5(shift as nat) == pow10(shift as nat),
                    pow10((shift + 1) as nat) == 10 * pow10(shift as nat),
            ;
            crate::dec2flt::digits::lemma_strip_zeros_shift(e, c);
            crate::dec2flt::digits::lemma_strip_zeros_shift(whole, (shift + 1) as nat);
            lemma_digits_nat_last(out);
            assert(strip_zeros(whole) == whole);
            lemma_strip_zeros(e);
            let t = choose|t: nat| e == strip_zeros(e) * #[trigger] pow10(t);
            assert(whole > 0);
            lemma_normalized_shift(whole, t, e10, old(self).truncated);
            crate::dec2flt::digits::lemma_digit_count_shift(whole, t);
            lemma_digits_nat_count(out);
            // what is stored, against the whole quotient
            let kept = self.digits@.take(write_index as int);
            assert(kept =~= out.take(write_index as int));
            lemma_digits_nat_split(out, write_index as int);
            let dropped = out.skip(write_index as int);
            assert(all_digits(dropped)) by {
                assert forall|j: int| 0 <= j < dropped.len() implies #[trigger] dropped[j] <= 9 by {
                    assert(dropped[j] == out[write_index + j]);
                }
            }
            lemma_digits_nat_bound(dropped);
            lemma_pow10(dropped.len());
            vstd::arithmetic::div_mod::lemma_fundamental_div_mod_converse(
                whole as int,
                pow10(dropped.len()) as int,
                digits_nat(kept) as int,
                digits_nat(dropped) as int,
            );
            lemma_digits_nat_zero(dropped);
            if lost {
                let i = choose|i: int| MAX_DIGITS <= i < out.len() && #[trigger] out[i] != 0;
                assert(dropped[i - write_index] == out[i]);
            } else {
                assert forall|j: int| 0 <= j < dropped.len() implies #[trigger] dropped[j] == 0 by {
                    assert(dropped[j] == out[write_index + j]);
                }
            }
            assert(self.digits[0] == out[0]);
            assert forall|i: int| 0 <= i < self.num_digits implies #[trigger] self.digits[i]
                <= 9 by {
                assert(self.digits[i] == out[i]);
            }
        }
        self.trim();
    }

    /// Rounds to the nearest machine integer.
    ///
    /// An exact tie goes to the even neighbour, unless digits were dropped
    /// from this decimal: then the number it stands for lies above the tie.
    pub fn round(&self) -> (r: u64)
        requires
            self.wf(),
        ensures
            r == round_model(self@),
    {
        proof {
            self.lemma_wf();
        }
        if self.num_digits == 0 || self.decimal_point < 0 {
            return 0;
        } else if self.decimal_point > 18 {
            return 0xFFFF_FFFF_FFFF_FFFF_u64;
        }
        let dp = self.decimal_point as usize;
        let ghost all = self.digits@.take(self.num_digits as int);
        let mut n = 0_u64;
        let mut i: usize = 0;
        proof {
            lemma_pow10_values();
            assert(all.take(0).len() == 0);
        }
        while i < dp
            invariant
                self.wf(),
                dp <= 18,
                i <= dp,
                all == self.digits@.take(self.num_digits as int),
                i <= self.num_digits ==> n == digits_nat(all.take(i as int)),
                i > self.num_digits ==> n == digits_nat(all) * pow10((i - self.num_digits) as nat),
                n < pow10(i as nat),
                pow10(i as nat) <= pow10(18),
                pow10(18) == 1_000_000_000_000_000_000,
            decreases dp - i,
        {
            proof {
                lemma_pow10(i as nat);
                lemma_pow10_increases((i + 1) as nat, 18);
            }
            n *= 10;
            if i < self.num_digits {
                proof {
                    let t = all.take(i + 1);
                    assert(t.drop_last() =~= all.take(i as int));
                    assert(t.last() == self.digits[i as int]);
                }
                n += self.digits[i] as u64;
            } else {
                proof {
                    if i == self.num_digits {
                        assert(all.take(i as int) =~= all);
                        lemma_pow10(0);
                    } else {
                        lemma_pow10((i - self.num_digits) as nat);
                    }
                    assert(digits_nat(all) * pow10((i - self.num_digits) as nat) * 10
                        == digits_nat(all) * (10 * pow10((i - self.num_digits) as nat)))
                        by (nonlinear_arith);
                }
            }
            i += 1;
        }
        let mut round_up = false;
        if dp < self.num_digits {
            proof {
                let unit = pow10((self.num_digits - dp) as nat);
                let tail = all.skip(dp as int);
                lemma_digits_nat_split(all, dp as int);
                assert(all_digits(tail)) by {
                    assert forall|j: int| 0 <= j < tail.len() implies #[trigger] tail[j] <= 9 by {
                        assert(tail[j] == self.digits[dp + j]);
                    }
                }
                lemma_digits_nat_bound(tail);
                lemma_pow10((self.num_digits - dp) as nat);
                vstd::arithmetic::div_mod::lemma_fundamental_div_mod_converse(
                    digits_nat(all) as int,
                    unit as int,
                    n as int,
                    digits_nat(tail) as int,
                );
                // the first digit after the point against the rest
                lemma_digits_nat_split(tail, 1);
                let rest = tail.skip(1);
                assert(tail.take(1).drop_last().len() == 0);
                assert(digits_nat(tail.take(1)) == digits_nat(tail.take(1).drop_last()) * 10
                    + tail.take(1).last());
                assert(digits_nat(tail.take(1).drop_last()) == 0);
                assert(digits_nat(tail.take(1)) == self.digits[dp as int]);
                assert(all_digits(rest)) by {
                    assert forall|j: int| 0 <= j < rest.len() implies #[trigger] rest[j] <= 9 by {
                        assert(rest[j] == self.digits[dp + 1 + j]);
                    }
                }
                lemma_digits_nat_bound(rest);
                lemma_pow10((self.num_digits - dp - 1) as nat);
                if dp + 1 < self.num_digits {
                    assert(rest.last() == self.digits[self.num_digits - 1]);
                    lemma_digits_nat_last(rest);
                    assert(digits_nat(rest) != 0);
                } else {
                    assert(rest.len() == 0);
                }
                if dp != 0 {
                    let head = all.take(dp as int);
                    assert(head.last() == self.digits[dp - 1]);
                    assert(self.digits[dp - 1] <= 9);
                    lemma_digits_nat_last(head);
                    let d = self.digits[dp - 1];
                    assert(1u8 & d == d % 2) by (bit_vector);
                } else {
                    assert(all.take(0).len() == 0);
                }
                let d = self.digits[dp as int] as nat;
                let p = pow10((self.num_digits - dp - 1) as nat);
                assert(digits_nat(tail) == d * p + digits_nat(rest));
                assert(unit == 10 * p);
                assert(d >= 5 ==> 2 * (d * p) >= 10 * p) by (nonlinear_arith);
                assert(d < 5 ==> 2 * (d * p) + 2 * p <= 10 * p) by (nonlinear_arith);
                assert(d == 5 ==> 2 * (d * p) == 10 * p) by (nonlinear_arith);
                assert(d > 5 ==> 2 * (d * p) > 10 * p) by (nonlinear_arith)
                    requires
                        p > 0,
                ;
            }
            round_up = self.digits[dp] >= 5;
            if self.digits[dp] == 5 && dp + 1 == self.num_digits {
                round_up = self.truncated || ((dp != 0) && (1 & self.digits[dp - 1] != 0))
            }
        } else {
            proof {
                assert(all.take(self.num_digits as int) =~= all);
                if dp == self.num_digits {
                    lemma_pow10(0);
                    assert(digits_nat(all) * 1 == digits_nat(all));
                }
            }
        }
        if round_up {
            n += 1;
        }
        n
    }
}

/// `x`, kept within [`DECIMAL_POINT_LIMIT`].
pub open spec fn clamp_point(x: int) -> int {
    if x < -DECIMAL_POINT_LIMIT {
        -DECIMAL_POINT_LIMIT as int
    } else if x > DECIMAL_POINT_LIMIT {
        DECIMAL_POINT_LIMIT as int
    } else {
        x
    }
}

/// The decimal that the literal at the start of `s` denotes, cut to
/// [`MAX_DIGITS`] digits. The sign of the literal is left out.
pub open spec fn decimal_model(s: Seq<u8>) -> DecimalModel {
    let lit = scan(s);
    let m = normalized(digits_nat(lit.digits(s)), lit.exponent - lit.frac_len(), false);
    DecimalModel {
        significand: m.significand,
        decimal_point: clamp_point(m.decimal_point),
        truncated: m.truncated,
    }
}

/// Parses the literal that `s` starts with into a [`Decimal`].
///
/// The digits of the literal go into the decimal, without the zeros at
/// either end. Of more than [`MAX_DIGITS`] digits the first are kept, and
/// the decimal is marked as truncated where a digit other than zero is
/// dropped.
pub fn parse_decimal(s: &[u8]) -> (d: Decimal)
    ensures
        d.wf(),
        d@ == decimal_model(s@),
{
    let mut d = Decimal::new();
    let span = scan_literal(s);
    let int_len = span.int_end - span.int_start;
    let frac_len = span.frac_end - span.frac_start;
    let n = int_len + frac_len;
    let ghost lit = span@;
    let ghost all = lit.digits(s@);
    let mut total: usize = 0;
    let mut stored: usize = 0;
    let mut lost = false;
    let mut k: usize = 0;
    proof {
        assert(all.take(0).len() == 0);
        assert(d.digits@.take(0).len() == 0);
        lemma_pow10(0);
    }
    while k < n
        invariant
            lit == span@,
            all == lit.digits(s@),
            span.int_start <= span.int_end <= span.frac_start <= span.frac_end <= s@.len(),
            int_len == span.int_end - span.int_start,
            frac_len == span.frac_end - span.frac_start,
            n == int_len + frac_len,
            forall|j: int| span.int_start <= j < span.int_end ==> is_digit(#[trigger] s@[j]),
            forall|j: int| span.frac_start <= j < span.frac_end ==> is_digit(#[trigger] s@[j]),
            k <= n,
            total <= k,
            total == digit_count(digits_nat(all.take(k as int))),
            stored <= MAX_DIGITS,
            stored == if total <= MAX_DIGITS {
                total
            } else {
                MAX_DIGITS
            },
            forall|i: int| 0 <= i < stored ==> #[trigger] d.digits[i] <= 9,
            stored > 0 ==> d.digits[0] != 0,
            digits_nat(d.digits@.take(stored as int)) == digits_nat(all.take(k as int)) / pow10(
                (total - stored) as nat,
            ),
            lost == (digits_nat(all.take(k as int)) % pow10((total - stored) as nat) != 0),
        decreases n - k,
    {
        let index = if k < int_len {
            span.int_start + k
        } else {
            span.frac_start + (k - int_len)
        };
        let digit = s[index] - ZERO;
        proof {
            let v = digits_nat(all.take(k as int));
            lemma_literal_digit(s@, lit, k as int);
            assert(is_digit(s@[index as int]));
            let t = all.take(k + 1);
            assert(t.drop_last() =~= all.take(k as int));
            assert(t.last() == digit);
            crate::dec2flt::digits::lemma_append_digit(v, digit as nat);
            crate::dec2flt::digits::lemma_append_cut(v, digit as nat, (total - stored) as nat);
            lemma_pow10(0);
            assert(v / 1 == v);
        }
        if digit != 0 || total != 0 {
            if total < MAX_DIGITS {
                let ghost before = d.digits@;
                d.digits[total] = digit;
                stored += 1;
                proof {
                    let now = d.digits@.take(stored as int);
                    assert(now.drop_last() =~= before.take(stored - 1));
                    assert(now.last() == digit);
                    assert forall|i: int| 0 <= i < stored implies #[trigger] d.digits[i] <= 9 by {
                        if i < stored - 1 {
                            assert(d.digits[i] == before[i]);
                        }
                    }
                    let v = digits_nat(all.take(k as int));
                    assert((10 * v + digit as nat) / 1 == 10 * v + digit as nat);
                    assert((10 * v + digit as nat) % 1 == 0);
                }
            } else {
                let ghost was_lost = lost;
                if digit != 0 {
                    lost = true;
                }
                proof {
                    let v = digits_nat(all.take(k as int));
                    let next = digits_nat(all.take(k + 1));
                    let cut = (total - stored) as nat;
                    let a = v % pow10(cut);
                    let b = next % pow10(cut + 1);
                    lemma_pow10(cut);
                    vstd::arithmetic::div_mod::lemma_mod_bound(v as int, pow10(cut) as int);
                    assert(next == 10 * v + digit as nat);
                    assert(b == 10 * a + digit as nat);
                    assert(was_lost == (a != 0));
                    assert(lost == (b != 0));
                    assert((total + 1 - stored) as nat == cut + 1);
                }
            }
            total += 1;
        } else {
            proof {
                let v = digits_nat(all.take(k as int));
                assert(v == 0);
                assert(0nat % 1 == 0);
            }
        }
        k += 1;
    }
    d.num_digits = stored;
    d.truncated = lost;
    let wide = span.exponent as i128 - frac_len as i128 + total as i128;
    d.decimal_point = if wide < -(DECIMAL_POINT_LIMIT as i128) {
        -DECIMAL_POINT_LIMIT
    } else if wide > DECIMAL_POINT_LIMIT as i128 {
        DECIMAL_POINT_LIMIT
    } else {
        wide as i32
    };
    proof {
        assert(all.take(n as int) =~= all);
    }
    d.trim();
    d
}

} // verus!
