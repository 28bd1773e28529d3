//! Arithmetic facts shared by the conversion steps: powers of two, and how
//! the machine's bit operations read as arithmetic.

use vstd::arithmetic::power2::{lemma2_to64, lemma2_to64_rest, lemma_pow2_adds, lemma_pow2_pos, lemma_pow2_unfold, pow2};
use vstd::bits::{lemma_low_bits_mask_values, lemma_u64_low_bits_mask_is_mod, lemma_u64_shl_is_mul, lemma_u64_shr_is_div, low_bits_mask};
use vstd::prelude::*;
use vstd::std_specs::bits::u64_leading_zeros;

verus! {

/// `2^64`.
pub open spec fn two64() -> nat {
    0x1_0000_0000_0000_0000
}

/// A non-zero word lies between the powers of two that its count of leading
/// zeros names.
pub proof fn lemma_leading_zeros_bounds(w: u64)
    requires
        w != 0,
    ensures
        0 <= u64_leading_zeros(w) <= 63,
        pow2((63 - u64_leading_zeros(w)) as nat) <= w,
        w < pow2((64 - u64_leading_zeros(w)) as nat),
    decreases w,
{
    reveal(u64_leading_zeros);
    if w / 2 == 0 {
        assert(w == 1);
        assert(u64_leading_zeros(0) == 64);
        lemma2_to64();
    } else {
        lemma_leading_zeros_bounds(w / 2);
        let l = u64_leading_zeros(w);
        assert(u64_leading_zeros(w / 2) == l + 1);
        lemma_pow2_unfold((63 - l) as nat);
        lemma_pow2_unfold((64 - l) as nat);
    }
}

/// Shifting a non-zero word left by its count of leading zeros multiplies it
/// by that power of two, and sets the top bit.
pub proof fn lemma_normalize_word(w: u64)
    requires
        w != 0,
    ensures
        0 <= u64_leading_zeros(w) <= 63,
        (w << (u64_leading_zeros(w) as u64)) == w * pow2(u64_leading_zeros(w) as nat),
        0x8000_0000_0000_0000 <= w * pow2(u64_leading_zeros(w) as nat) < two64(),
{
    lemma_leading_zeros_bounds(w);
    let l = u64_leading_zeros(w) as nat;
    let p = pow2(l);
    lemma_pow2_adds((63 - l) as nat, l);
    lemma_pow2_adds((64 - l) as nat, l);
    lemma2_to64_rest();
    lemma_pow2_pos(l);
    assert(pow2((63 - l) as nat) * p <= w * p) by (nonlinear_arith)
        requires
            pow2((63 - l) as nat) <= w,
            p > 0,
    ;
    assert(w * p < pow2((64 - l) as nat) * p) by (nonlinear_arith)
        requires
            w < pow2((64 - l) as nat),
            p > 0,
    ;
    lemma_u64_shl_is_mul(w, l as u64);
}

/// A right shift is a division by a power of two.
pub proof fn lemma_shr(x: u64, s: u64)
    requires
        s < 64,
    ensures
        (x >> s) == x as nat / pow2(s as nat),
        pow2(s as nat) > 0,
{
    lemma_u64_shr_is_div(x, s);
    lemma_pow2_pos(s as nat);
}

/// The lowest bit is the remainder modulo two, the lowest two bits the
/// remainder modulo four.
pub proof fn lemma_low_bits(x: u64)
    ensures
        x & 1 == x % 2,
        x & 3 == x % 4,
{
    lemma_low_bits_mask_values();
    lemma2_to64();
    lemma_u64_low_bits_mask_is_mod(x, 1);
    lemma_u64_low_bits_mask_is_mod(x, 2);
    assert(low_bits_mask(1) as u64 == 1u64);
    assert(low_bits_mask(2) as u64 == 3u64);
}

/// Masking with `2^k - 1` is the remainder modulo `2^k`.
pub proof fn lemma_low_mask(x: u64, k: u64)
    requires
        k < 64,
    ensures
        (1u64 << k) == pow2(k as nat),
        x & (((1u64 << k) - 1) as u64) == x as nat % pow2(k as nat),
{
    lemma_pow2_pos(k as nat);
    vstd::arithmetic::power2::lemma_pow2_strictly_increases(k as nat, 64);
    lemma2_to64_rest();
    lemma_u64_shl_is_mul(1, k);
    lemma_u64_low_bits_mask_is_mod(x, k as nat);
}

/// Some powers of two beyond `2^64`.
pub proof fn lemma_pow2_wide()
    ensures
        pow2(74) == 0x400_0000_0000_0000_0000,
        pow2(127) == 0x8000_0000_0000_0000_0000_0000_0000_0000,
        pow2(128) == 0x1_0000_0000_0000_0000_0000_0000_0000_0000,
{
    lemma2_to64();
    lemma2_to64_rest();
    lemma_pow2_adds(10, 64);
    lemma_pow2_adds(63, 64);
    lemma_pow2_adds(64, 64);
}

/// `x` with bit `k` cleared.
pub open spec fn clear_bit(x: nat, k: nat) -> nat {
    (x - ((x / pow2(k)) % 2) * pow2(k)) as nat
}

/// Masking out one bit subtracts its weight where it was set.
pub proof fn lemma_clear_bit(x: u64, k: u64)
    requires
        k < 64,
    ensures
        x & !(1u64 << k) == clear_bit(x as nat, k as nat),
{
    let b = (x >> k) & 1;
    assert(b == 0 || b == 1) by (bit_vector)
        requires
            b == (x >> k) & 1,
    ;
    assert(x & !(1u64 << k) == x - (b << k)) by (bit_vector)
        requires
            k < 64,
            b == (x >> k) & 1,
    ;
    lemma_shr(x, k);
    lemma_low_bits(x >> k);
    lemma_pow2_pos(k as nat);
    if b == 1 {
        vstd::arithmetic::power2::lemma_pow2_strictly_increases(k as nat, 64);
        lemma2_to64_rest();
        lemma_u64_shl_is_mul(1, k);
        assert(x as nat / pow2(k as nat) >= 1);
        assert(x >= pow2(k as nat)) by (nonlinear_arith)
            requires
                x as nat / pow2(k as nat) >= 1,
                pow2(k as nat) > 0,
        ;
    } else {
        assert(0u64 << k == 0) by (bit_vector);
    }
}

/// An odd number times a number is even only if the number is even.
pub proof fn lemma_odd_times(x: nat, y: nat)
    requires
        x % 2 == 1,
        (x * y) % 2 == 0,
    ensures
        y % 2 == 0,
{
    let a = x / 2;
    let b = y / 2;
    let bit = y % 2;
    let c = 2 * a * b + b + a * bit;
    assert(x * y == 2 * c + bit) by (nonlinear_arith)
        requires
            x == 2 * a + 1,
            y == 2 * b + bit,
            c == 2 * a * b + b + a * bit,
    ;
}

/// A power of two that divides an odd number times a number divides the
/// number.
pub proof fn lemma_odd_cancel(x: nat, y: nat, n: nat)
    requires
        x % 2 == 1,
        (x * y) % pow2(n) == 0,
    ensures
        y % pow2(n) == 0,
    decreases n,
{
    lemma2_to64();
    if n > 0 {
        let p = pow2((n - 1) as nat);
        lemma_pow2_unfold(n);
        lemma_pow2_pos((n - 1) as nat);
        vstd::arithmetic::div_mod::lemma_fundamental_div_mod((x * y) as int, (2 * p) as int);
        let k = (x * y) / (2 * p);
        assert(x * y == 2 * (p * k)) by (nonlinear_arith)
            requires
                x * y == (2 * p) * k,
        ;
        lemma_odd_times(x, y);
        let half = y / 2;
        assert(x * half == p * k) by (nonlinear_arith)
            requires
                x * y == 2 * (p * k),
                y == 2 * half,
        ;
        vstd::arithmetic::div_mod::lemma_fundamental_div_mod_converse(
            (x * half) as int,
            p as int,
            k as int,
            0,
        );
        lemma_odd_cancel(x, half, (n - 1) as nat);
        vstd::arithmetic::div_mod::lemma_fundamental_div_mod(half as int, p as int);
        let k2 = half / p;
        assert(y == (2 * p) * k2) by (nonlinear_arith)
            requires
                y == 2 * half,
                half == p * k2,
        ;
        vstd::arithmetic::div_mod::lemma_fundamental_div_mod_converse(
            y as int,
            (2 * p) as int,
            k2 as int,
            0,
        );
    }
}

/// Modulo a power of two, an odd number has one inverse at most: two
/// numbers below `2^n` whose products with an odd number agree modulo `2^n`
/// are one number.
pub proof fn lemma_inverse_unique(u: nat, a: nat, b: nat, n: nat)
    requires
        u % 2 == 1,
        a < pow2(n),
        b < pow2(n),
        (a * u) % pow2(n) == (b * u) % pow2(n),
    ensures
        a == b,
{
    let p = pow2(n);
    lemma_pow2_pos(n);
    let hi = if a >= b {
        a
    } else {
        b
    };
    let lo = if a >= b {
        b
    } else {
        a
    };
    let diff = (hi - lo) as nat;
    vstd::arithmetic::div_mod::lemma_fundamental_div_mod((hi * u) as int, p as int);
    vstd::arithmetic::div_mod::lemma_fundamental_div_mod((lo * u) as int, p as int);
    let k1 = (hi * u) / p;
    let k2 = (lo * u) / p;
    assert(hi * u >= lo * u) by (nonlinear_arith)
        requires
            hi >= lo,
    ;
    assert(k1 >= k2) by (nonlinear_arith)
        requires
            hi * u == p * k1 + (hi * u) % p,
            lo * u == p * k2 + (lo * u) % p,
            (hi * u) % p == (lo * u) % p,
            hi * u >= lo * u,
            p > 0,
    ;
    assert(u * diff == (k1 - k2) * p) by (nonlinear_arith)
        requires
            hi * u == p * k1 + (hi * u) % p,
            lo * u == p * k2 + (lo * u) % p,
            (hi * u) % p == (lo * u) % p,
            diff == hi - lo,
    ;
    vstd::arithmetic::div_mod::lemma_fundamental_div_mod_converse(
        (u * diff) as int,
        p as int,
        (k1 - k2) as int,
        0,
    );
    lemma_odd_cancel(u, diff, n);
    vstd::arithmetic::div_mod::lemma_small_mod(diff, p);
}

/// A product with a factor below `2^a`, not zero, that `2^(a + b)` divides:
/// `2^(b + 1)` divides the other factor.
pub proof fn lemma_product_low_bits(x: nat, y: nat, a: nat, b: nat)
    requires
        0 < x < pow2(a),
        (x * y) % pow2(a + b) == 0,
    ensures
        y % pow2(b + 1) == 0,
    decreases a,
{
    lemma2_to64();
    if a == 0 {
    } else if x % 2 == 1 {
        lemma_odd_cancel(x, y, a + b);
        let p = pow2(a + b);
        let small = pow2(b + 1);
        lemma_pow2_adds(b + 1, (a - 1) as nat);
        lemma_pow2_pos(b + 1);
        lemma_pow2_pos(a + b);
        vstd::arithmetic::div_mod::lemma_fundamental_div_mod(y as int, p as int);
        let k = y / p;
        assert(y == (k * pow2((a - 1) as nat)) * small) by (nonlinear_arith)
            requires
                y == p * k,
                p == small * pow2((a - 1) as nat),
        ;
        vstd::arithmetic::div_mod::lemma_fundamental_div_mod_converse(
            y as int,
            small as int,
            (k * pow2((a - 1) as nat)) as int,
            0,
        );
    } else {
        let half = x / 2;
        let p = pow2((a - 1 + b) as nat);
        lemma_pow2_unfold(a + b);
        lemma_pow2_unfold(a);
        lemma_pow2_pos((a - 1 + b) as nat);
        vstd::arithmetic::div_mod::lemma_fundamental_div_mod((x * y) as int, (2 * p) as int);
        let k = (x * y) / (2 * p);
        assert(half * y == k * p) by (nonlinear_arith)
            requires
                x * y == (2 * p) * k,
                x == 2 * half,
        ;
        vstd::arithmetic::div_mod::lemma_fundamental_div_mod_converse(
            (half * y) as int,
            p as int,
            k as int,
            0,
        );
        lemma_product_low_bits(half, y, (a - 1) as nat, b);
    }
}

} // verus!
