//! The Eisel-Lemire algorithm is sound: a result that it does not mark as
//! doubtful is the value of the format that is nearest to `w * 10^q`.

use crate::dec2flt::common::Fp;
use crate::dec2flt::digits::{lemma_pow10, lemma_pow10_adds, lemma_pow10_increases, lemma_pow10_values, pow10};
use crate::dec2flt::extremes::{lemma_huge_is_infinite, lemma_pow2_below_pow10_tight, lemma_tiny_is_zero, subnormal_scale, top_exponent};
use crate::dec2flt::float::{lemma_format, same_encoding, RawFloat};
use crate::dec2flt::lemire::compute_float_model;
use crate::dec2flt::lemire_exact::{lemma_exact_reciprocal, lemma_exact_window, lemma_exact_window_wide, lemma_sound_large, lemma_sound_small};
use crate::dec2flt::rounding::{lemma_nearest, lemma_pow2_le, nearest};
use vstd::arithmetic::power2::{lemma2_to64, lemma2_to64_rest, lemma_pow2_adds, lemma_pow2_pos, pow2};
use vstd::prelude::*;

verus! {

/// The number `w * 10^q` as a fraction: its numerator.
pub open spec fn power_numerator(w: nat, q: int) -> nat {
    if q >= 0 {
        w * pow10(q as nat)
    } else {
        w
    }
}

/// The number `w * 10^q` as a fraction: its denominator.
pub open spec fn power_denominator(q: int) -> nat {
    if q >= 0 {
        1
    } else {
        pow10((-q) as nat)
    }
}

/// Below the smallest power of ten of the table, every product with a word
/// is rounded to zero.
pub proof fn lemma_below_table<F: RawFloat>(q: int, w: u64)
    requires
        q < F::SMALLEST_POWER_OF_TEN,
    ensures
        nearest::<F>(w as nat, pow10((-q) as nat)) == (Fp { mantissa: 0, power2: 0 }),
{
    lemma_format::<F>();
    lemma2_to64();
    lemma2_to64_rest();
    lemma_pow10_values();
    let n = (-q) as nat;
    let k = subnormal_scale::<F>();
    let den = pow10(n);
    // 2 * w * 2^k < 2^(k + 65) <= 10^n
    lemma_pow2_adds(k, 65);
    assert(pow2(65) == 2 * pow2(64)) by {
        lemma_pow2_adds(1, 64);
    }
    if F::MANTISSA_EXPLICIT_BITS == 52 {
        lemma_pow2_below_pow10_tight(12);
        lemma_pow10_adds(336, 7);
        lemma_pow2_adds(1116, 23);
        lemma_pow10_increases(343, n);
        assert(pow2(1116) * pow2(23) <= pow10(336) * pow10(7)) by (nonlinear_arith)
            requires
                pow2(1116) <= pow10(336),
                pow2(23) <= pow10(7),
        ;
        assert(pow2(k + 65) <= den);
    } else {
        lemma_pow2_below_pow10_tight(2);
        lemma_pow10_adds(56, 10);
        lemma_pow2_adds(186, 33);
        lemma_pow10_increases(66, n);
        lemma_pow2_le(214, 219);
        assert(pow2(186) * pow2(33) <= pow10(56) * pow10(10)) by (nonlinear_arith)
            requires
                pow2(186) <= pow10(56),
                pow2(33) <= pow10(10),
        ;
        assert(pow2(k + 65) <= den);
    }
    let pk = pow2(k);
    lemma_pow2_pos(k);
    assert(2 * (w as nat * pk) < pk * (2 * pow2(64))) by (nonlinear_arith)
        requires
            (w as nat) < pow2(64),
            pk > 0,
    ;
    lemma_tiny_is_zero::<F>(w as nat, den);
}

/// Above the largest power of ten of the table, every product with a word
/// that is not zero is rounded to infinity.
pub proof fn lemma_above_table<F: RawFloat>(q: int, w: u64)
    requires
        q > F::LARGEST_POWER_OF_TEN,
        w != 0,
    ensures
        nearest::<F>(w as nat * pow10(q as nat), 1) == (Fp {
            mantissa: 0,
            power2: F::INFINITE_POWER,
        }),
{
    lemma_format::<F>();
    lemma2_to64();
    lemma2_to64_rest();
    lemma_pow10_values();
    let n = q as nat;
    let top = top_exponent::<F>();
    if F::MANTISSA_EXPLICIT_BITS == 52 {
        lemma_pow2_below_pow10_tight(11);
        lemma_pow10_adds(308, 1);
        lemma_pow2_adds(1023, 1);
        lemma_pow10_increases(309, n);
        assert(pow2(1023) * pow2(1) <= pow10(308) * pow10(1)) by (nonlinear_arith)
            requires
                pow2(1023) <= pow10(308),
                pow2(1) <= pow10(1),
        ;
        assert(pow2(top) <= pow10(n));
    } else {
        lemma_pow2_below_pow10_tight(1);
        lemma_pow10_adds(28, 11);
        lemma_pow2_adds(93, 35);
        lemma_pow10_increases(39, n);
        assert(pow2(93) * pow2(35) <= pow10(28) * pow10(11)) by (nonlinear_arith)
            requires
                pow2(93) <= pow10(28),
                pow2(35) <= pow10(11),
        ;
        assert(pow2(top) <= pow10(n));
    }
    let p = pow10(n);
    let pt = pow2(top);
    assert(w as nat * p >= 1 * pt) by (nonlinear_arith)
        requires
            w as nat >= 1,
            p >= pt,
    ;
    lemma_huge_is_infinite::<F>(w as nat * p, 1);
}

/// For the exponents from -27 to 55 the Eisel-Lemire algorithm is never in
/// doubt.
pub proof fn lemma_window_undoubted<F: RawFloat>(q: int, w: u64)
    requires
        -27 <= q <= 55,
    ensures
        compute_float_model::<F>(q, w).power2 >= 0,
{
    lemma_format::<F>();
}

/// The Eisel-Lemire algorithm is sound: a result that is not marked as
/// doubtful by a negative `power2` makes the encoding of the value of the
/// format that is nearest to `w * 10^q`, with ties going to the even
/// significand.
pub proof fn lemma_compute_float_sound<F: RawFloat>(q: int, w: u64)
    requires
        compute_float_model::<F>(q, w).power2 >= 0,
    ensures
        same_encoding::<F>(
            compute_float_model::<F>(q, w),
            nearest::<F>(power_numerator(w as nat, q), power_denominator(q)),
        ),
{
    lemma_format::<F>();
    let zero = Fp { mantissa: 0, power2: 0 };
    if w == 0 {
        lemma_pow10((-q) as nat);
        assert(power_numerator(0, q) == 0) by {
            if q >= 0 {
                assert(0 * pow10(q as nat) == 0);
            }
        }
        lemma_nearest::<F>(0, power_denominator(q), zero);
    } else if q < F::SMALLEST_POWER_OF_TEN {
        lemma_below_table::<F>(q, w);
    } else if q > F::LARGEST_POWER_OF_TEN {
        lemma_above_table::<F>(q, w);
    } else if q <= -28 {
        lemma_sound_small::<F>(q, w);
    } else if q <= -1 {
        lemma_exact_reciprocal::<F>(q, w);
    } else if q <= 27 {
        lemma_exact_window::<F>(q, w);
    } else if q <= 55 {
        lemma_exact_window_wide::<F>(q, w);
    } else {
        lemma_sound_large::<F>(q, w);
    }
}

} // verus!
