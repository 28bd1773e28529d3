//! What holds of the conversion as a whole.

use crate::dec2flt::brackets::lemma_normalized_holds;
use crate::dec2flt::common::{same_letter, starts_with_ignore_case};
use crate::dec2flt::decimal::{decimal_model, lemma_normalized, normalized, DecimalModel};
use crate::dec2flt::digits::{digit_count, digits_nat, lemma_digit_count_bounds, lemma_pow10, lemma_pow10_adds, lemma_pow10_values, pow10};
use crate::dec2flt::{extended_model, parse_model, FloatErrorKind};
use crate::dec2flt::extremes::lemma_slow_path_extremes;
use crate::dec2flt::float::{encoding, fields_fit, lemma_encoding, lemma_format, same_encoding, RawFloat};
use crate::dec2flt::lemire::compute_float_model;
use crate::dec2flt::monotone::{lemma_nearest_fits, lemma_rounded_between};
use crate::dec2flt::number::Number;
use crate::dec2flt::parse::{clamp_i64, digit_values, digits_end, exact_exponent, exponent_digits_start, has_exponent, is_digit, is_sign, lemma_digits_end, lemma_exponent_saturates, lemma_literal_digit, literal_denominator, literal_exponent, literal_numerator, number_model, scan, special_model, EXPONENT_LIMIT, INFINITY_WORD, INF_WORD, LOWER_E, MINUS, NAN_WORD, PLUS, POINT, UPPER_E};
use crate::dec2flt::rounding::{lemma_nearest_ratio, nearest};
use crate::dec2flt::slow::{lemma_long_mantissa_fits, long_mantissa_model};
use crate::dec2flt::soundness::{lemma_compute_float_sound, lemma_window_undoubted, power_denominator, power_numerator};
use crate::dec2flt::truncation::{lemma_slow_path_exact, lemma_slow_path_nearest};
use crate::dec2flt::units::{decimal_denominator, decimal_numerator, lemma_normalized_exact, lemma_same_fraction, lemma_weight, margin, positive_part, scale, unit_exponent, weight};
use vstd::arithmetic::power2::{lemma2_to64, lemma2_to64_rest, lemma_pow2_pos, pow2};
use vstd::prelude::*;

verus! {

/// `c` is an ASCII letter.
pub open spec fn is_letter(c: u8) -> bool {
    0x41 <= c <= 0x5A || 0x61 <= c <= 0x7A
}

/// `c` is a byte that a literal can hold: a digit, a sign, the point, or a
/// letter.
pub open spec fn is_literal_byte(c: u8) -> bool {
    is_digit(c) || is_sign(c) || c == POINT || is_letter(c)
}

/// `s` is `word`, a word in lower case, with each letter in either case.
pub open spec fn is_capitalization(s: Seq<u8>, word: Seq<u8>) -> bool {
    &&& s.len() == word.len()
    &&& forall|i: int| 0 <= i < word.len() ==> #[trigger] s[i] == word[i] || s[i] == word[i] - 0x20
}

/// A byte matches a lower case letter but for the case exactly if it is
/// that letter in one of its cases.
pub proof fn lemma_same_letter(a: u8, b: u8)
    requires
        0x61 <= b <= 0x7A,
    ensures
        same_letter(a, b) <==> a == b || a == b - 0x20,
        same_letter(a, b) ==> is_letter(a),
{
    assert((a ^ b == 0 || a ^ b == 0x20) <==> (a == b || a == (b - 0x20) as u8)) by (bit_vector)
        requires
            0x61 <= b <= 0x7A,
    ;
}

/// A string that is one of the three words, in any mix of cases, matches
/// that word and not another.
proof fn lemma_capitalization(s: Seq<u8>, word: Seq<u8>)
    requires
        word == NAN_WORD@ || word == INF_WORD@ || word == INFINITY_WORD@,
        is_capitalization(s, word),
    ensures
        starts_with_ignore_case(s, word),
        is_letter(s[0]),
        word != NAN_WORD@ ==> !starts_with_ignore_case(s, NAN_WORD@),
        word == NAN_WORD@ ==> !starts_with_ignore_case(s, INF_WORD@),
{
    assert(NAN_WORD@.len() == 3 && INF_WORD@.len() == 3 && INFINITY_WORD@.len() == 8);
    assert forall|i: int| 0 <= i < word.len() implies same_letter(#[trigger] s[i], word[i]) by {
        assert(0x61 <= word[i] <= 0x7A);
        lemma_same_letter(s[i], word[i]);
    }
    assert(0x61 <= word[0] <= 0x7A);
    lemma_same_letter(s[0], word[0]);
    lemma_same_letter(s[0], NAN_WORD@[0]);
    lemma_same_letter(s[0], INF_WORD@[0]);
}

/// Every capitalization of `nan`, `inf` and `infinity` is converted to the
/// NaN or to the infinity of the format.
pub proof fn lemma_specials_in_any_case<F: RawFloat>(s: Seq<u8>)
    requires
        is_capitalization(s, NAN_WORD@) || is_capitalization(s, INF_WORD@) || is_capitalization(
            s,
            INFINITY_WORD@,
        ),
    ensures
        is_capitalization(s, NAN_WORD@) ==> parse_model::<F>(s) == Ok::<u64, FloatErrorKind>(F::NAN),
        !is_capitalization(s, NAN_WORD@) ==> parse_model::<F>(s) == Ok::<u64, FloatErrorKind>(
            F::INFINITY,
        ),
{
    let word = if is_capitalization(s, NAN_WORD@) {
        NAN_WORD@
    } else if is_capitalization(s, INF_WORD@) {
        INF_WORD@
    } else {
        INFINITY_WORD@
    };
    assert(NAN_WORD@.len() == 3 && INF_WORD@.len() == 3 && INFINITY_WORD@.len() == 8);
    lemma_capitalization(s, word);
    // no number starts with a letter
    assert(!is_sign(s[0]) && !is_digit(s[0]) && s[0] != POINT);
    let lit = scan(s);
    assert(lit.int_start == 0);
    assert(lit.int_end == 0);
    assert(lit.frac_start == 0);
    assert(lit.frac_end == 0);
    assert(number_model(s).is_none());
}

/// Every byte of the literal that `s` starts with is a byte that a literal
/// can hold.
pub proof fn lemma_literal_bytes(s: Seq<u8>)
    ensures
        0 <= scan(s).end <= s.len(),
        forall|j: int| 0 <= j < scan(s).end ==> is_literal_byte(#[trigger] s[j]),
{
    let lit = scan(s);
    lemma_digits_end(s, lit.int_start);
    lemma_digits_end(s, lit.frac_start);
    if has_exponent(s, lit.frac_end) {
        lemma_digits_end(s, exponent_digits_start(s, lit.frac_end));
    }
    assert forall|j: int| 0 <= j < lit.end implies is_literal_byte(#[trigger] s[j]) by {
        if j < lit.int_start {
            assert(is_sign(s[0]));
        } else if j < lit.int_end {
        } else if j < lit.frac_start {
            assert(s[j] == POINT);
        } else if j < lit.frac_end {
        } else if j == lit.frac_end {
            assert(s[j] == LOWER_E || s[j] == UPPER_E);
        } else if j < exponent_digits_start(s, lit.frac_end) {
            assert(is_sign(s[j]));
        } else {
        }
    }
}

/// A string that holds a byte which no literal can hold is rejected as
/// invalid: so is a literal that goes on with white space, or that comes
/// after it.
pub proof fn lemma_foreign_byte<F: RawFloat>(s: Seq<u8>, i: int)
    requires
        0 <= i < s.len(),
        !is_literal_byte(s[i]),
    ensures
        parse_model::<F>(s) == Err::<u64, FloatErrorKind>(FloatErrorKind::Invalid),
{
    lemma_literal_bytes(s);
    assert(NAN_WORD@.len() == 3 && INF_WORD@.len() == 3 && INFINITY_WORD@.len() == 8);
    if number_model(s).is_none() && special_model::<F>(s).is_some() {
        let signed = s.len() > 0 && is_sign(s[0]);
        let rest = if signed {
            s.skip(1)
        } else {
            s
        };
        let word = if rest.len() == 3 && starts_with_ignore_case(rest, NAN_WORD@) {
            NAN_WORD@
        } else if rest.len() == 3 && starts_with_ignore_case(rest, INF_WORD@) {
            INF_WORD@
        } else {
            INFINITY_WORD@
        };
        assert(starts_with_ignore_case(rest, word) && rest.len() == word.len());
        let k = if signed {
            i - 1
        } else {
            i
        };
        if k >= 0 {
            assert(rest[k] == s[i]);
            assert(same_letter(rest[k], word[k]));
            assert(0x61 <= word[k] <= 0x7A);
            lemma_same_letter(rest[k], word[k]);
        }
    }
}

/// A literal with one more byte at its end, which no literal can hold, is
/// rejected as invalid.
pub proof fn lemma_trailing_byte<F: RawFloat>(s: Seq<u8>, c: u8)
    requires
        !is_literal_byte(c),
    ensures
        parse_model::<F>(s.push(c)) == Err::<u64, FloatErrorKind>(FloatErrorKind::Invalid),
{
    lemma_foreign_byte::<F>(s.push(c), s.len() as int);
}

/// A literal is converted only if it takes the whole string: a string that
/// goes on after the literal it starts with is rejected as invalid.
pub proof fn lemma_prefix_rejected<F: RawFloat>(s: Seq<u8>)
    requires
        scan(s).valid(),
        scan(s).end < s.len(),
    ensures
        parse_model::<F>(s) == Err::<u64, FloatErrorKind>(FloatErrorKind::Invalid),
{
}

/// The run of digits in a string with one more byte in front.
proof fn lemma_digits_end_shift(c: u8, s: Seq<u8>, i: int)
    requires
        0 <= i <= s.len(),
    ensures
        digits_end(seq![c] + s, i + 1) == digits_end(s, i) + 1,
    decreases s.len() - i,
{
    let t = seq![c] + s;
    if i < s.len() {
        assert(t[i + 1] == s[i]);
        if is_digit(s[i]) {
            lemma_digits_end_shift(c, s, i + 1);
        }
    }
}

/// The digits of a string with one more byte in front.
proof fn lemma_digit_values_shift(c: u8, s: Seq<u8>, from: int, to: int)
    requires
        0 <= from <= to <= s.len(),
    ensures
        digit_values(seq![c] + s, from + 1, to + 1) == digit_values(s, from, to),
{
    let t = seq![c] + s;
    assert forall|k: int| 0 <= k < to - from implies digit_values(t, from + 1, to + 1)[k]
        == digit_values(s, from, to)[k] by {
        assert(t[from + 1 + k] == s[from + k]);
    }
    assert(digit_values(t, from + 1, to + 1) =~= digit_values(s, from, to));
}

/// The literal of a string without a sign, with a sign put in front: the
/// same literal, one place further on.
pub proof fn lemma_scan_signed(sign: u8, s: Seq<u8>)
    requires
        is_sign(sign),
        s.len() > 0,
        !is_sign(s[0]),
    ensures
        scan(seq![sign] + s).negative == (sign == MINUS),
        !scan(s).negative,
        scan(seq![sign] + s).int_start == scan(s).int_start + 1,
        scan(seq![sign] + s).int_end == scan(s).int_end + 1,
        scan(seq![sign] + s).frac_start == scan(s).frac_start + 1,
        scan(seq![sign] + s).frac_end == scan(s).frac_end + 1,
        scan(seq![sign] + s).end == scan(s).end + 1,
        scan(seq![sign] + s).exponent == scan(s).exponent,
        scan(seq![sign] + s).digits(seq![sign] + s) == scan(s).digits(s),
{
    let t = seq![sign] + s;
    let lit = scan(s);
    assert(t[0] == sign);
    assert(forall|j: int| 0 <= j < s.len() ==> t[j + 1] == s[j]);
    lemma_digits_end(s, 0);
    lemma_digits_end_shift(sign, s, 0);
    lemma_digits_end(s, lit.frac_start);
    lemma_digits_end_shift(sign, s, lit.frac_start);
    lemma_digit_values_shift(sign, s, lit.int_start, lit.int_end);
    lemma_digit_values_shift(sign, s, lit.frac_start, lit.frac_end);
    let start = exponent_digits_start(s, lit.frac_end);
    assert(exponent_digits_start(t, lit.frac_end + 1) == start + 1);
    if start <= s.len() {
        lemma_digits_end(s, start);
        lemma_digits_end_shift(sign, s, start);
        lemma_digit_values_shift(sign, s, start, digits_end(s, start));
    }
    assert(has_exponent(t, lit.frac_end + 1) == has_exponent(s, lit.frac_end));
}

/// The same bits with the sign bit set.
pub open spec fn with_sign<F: RawFloat>(bits: u64) -> u64 {
    bits | (1u64 << F::SIGN_INDEX)
}

/// The encoding with the sign is the encoding without it, with the sign bit
/// set.
pub proof fn lemma_encoding_sign<F: RawFloat>(fp: crate::dec2flt::common::Fp)
    ensures
        encoding::<F>(fp, true) == with_sign::<F>(encoding::<F>(fp, false)),
{
    lemma_format::<F>();
    lemma2_to64();
    lemma2_to64_rest();
    let word = fp.mantissa | ((fp.power2 as u64) << F::MANTISSA_EXPLICIT_BITS);
    if F::SIGN_INDEX == 63 {
        vstd::arithmetic::div_mod::lemma_small_mod(word as nat, pow2(64));
        vstd::arithmetic::div_mod::lemma_small_mod((word | (1u64 << 63)) as nat, pow2(64));
    } else {
        assert((word | (1u64 << 31)) % 0x1_0000_0000 == (word % 0x1_0000_0000) | (1u64 << 31))
            by (bit_vector);
    }
}

/// The same bits with the sign bit turned over: the encoding of the
/// negated value.
pub open spec fn negated<F: RawFloat>(bits: u64) -> u64 {
    bits ^ (1u64 << F::SIGN_INDEX)
}

/// Fields that fit their places make, without a sign, an encoding whose
/// sign bit is clear.
proof fn lemma_unsigned_encoding<F: RawFloat>(fp: crate::dec2flt::common::Fp)
    requires
        fields_fit::<F>(fp),
    ensures
        encoding::<F>(fp, false) < pow2(F::SIGN_INDEX as nat),
{
    lemma_format::<F>();
    lemma2_to64();
    lemma2_to64_rest();
    lemma_encoding::<F>(fp, false);
    let p = pow2(F::MANTISSA_EXPLICIT_BITS as nat);
    let e = fp.power2 as int;
    let top = F::INFINITE_POWER as int;
    assert(e * p <= top * p) by (nonlinear_arith)
        requires
            e <= top,
            p > 0,
    ;
}

/// A literal without a sign is converted to a value whose sign bit is
/// clear.
pub proof fn lemma_unsigned_literal<F: RawFloat>(s: Seq<u8>)
    requires
        s.len() > 0,
        !is_sign(s[0]),
        parse_model::<F>(s).is_ok(),
    ensures
        parse_model::<F>(s).unwrap() < pow2(F::SIGN_INDEX as nat),
{
    lemma_format::<F>();
    lemma2_to64();
    lemma2_to64_rest();
    match number_model(s) {
        Some((number, len)) => {
            assert(!number.negative);
            if number.fast_path_applies::<F>() {
                lemma_pow10((-number.exponent) as nat);
                lemma_nearest_fits::<F>(number.numerator(), number.denominator());
                lemma_unsigned_encoding::<F>(nearest::<F>(number.numerator(), number.denominator()));
            } else if extended_model::<F>(number).power2 < 0 {
                lemma_long_mantissa_fits::<F>(decimal_model(s));
                lemma_unsigned_encoding::<F>(long_mantissa_model::<F>(decimal_model(s)));
            } else {
                let q = number.exponent as int;
                let w = number.mantissa;
                lemma_compute_float_sound::<F>(q, w);
                lemma_pow10((-q) as nat);
                lemma_nearest_fits::<F>(power_numerator(w as nat, q), power_denominator(q));
                lemma_unsigned_encoding::<F>(
                    nearest::<F>(power_numerator(w as nat, q), power_denominator(q)),
                );
            }
        },
        None => {},
    }
}

/// A minus sign in front of a literal without a sign negates the result:
/// it turns the sign bit over, from clear to set, and changes nothing else.
/// A plus sign changes nothing.
pub proof fn lemma_sign<F: RawFloat>(sign: u8, s: Seq<u8>)
    requires
        is_sign(sign),
        s.len() > 0,
        !is_sign(s[0]),
        parse_model::<F>(s).is_ok(),
    ensures
        sign == MINUS ==> parse_model::<F>(seq![sign] + s) == Ok::<u64, FloatErrorKind>(
            negated::<F>(parse_model::<F>(s).unwrap()),
        ),
        sign == MINUS ==> negated::<F>(parse_model::<F>(s).unwrap()) == with_sign::<F>(
            parse_model::<F>(s).unwrap(),
        ),
        sign == PLUS ==> parse_model::<F>(seq![sign] + s) == parse_model::<F>(s),
{
    lemma_unsigned_literal::<F>(s);
    let bits = parse_model::<F>(s).unwrap();
    assert(negated::<F>(bits) == with_sign::<F>(bits)) by {
        lemma_format::<F>();
        lemma2_to64();
        lemma2_to64_rest();
        if F::SIGN_INDEX == 63 {
            assert(bits ^ (1u64 << 63) == bits | (1u64 << 63)) by (bit_vector)
                requires
                    bits < 0x8000_0000_0000_0000u64,
            ;
        } else {
            assert(bits ^ (1u64 << 31) == bits | (1u64 << 31)) by (bit_vector)
                requires
                    bits < 0x8000_0000u64,
            ;
        }
    }
    let t = seq![sign] + s;
    lemma_format::<F>();
    lemma_scan_signed(sign, s);
    assert(t[0] == sign);
    assert(t.skip(1) =~= s);
    match number_model(s) {
        Some((number, len)) => {
            let signed = Number {
                exponent: number.exponent,
                mantissa: number.mantissa,
                negative: sign == MINUS,
                many_digits: number.many_digits,
            };
            assert(number_model(t) == Some((signed, len + 1)));
            assert(decimal_model(t) == decimal_model(s));
            assert(signed.fast_path_applies::<F>() == number.fast_path_applies::<F>());
            assert(signed.numerator() == number.numerator());
            assert(signed.denominator() == number.denominator());
            assert(extended_model::<F>(signed) == extended_model::<F>(number));
            if signed.fast_path_applies::<F>() {
                lemma_encoding_sign::<F>(
                    crate::dec2flt::rounding::nearest::<F>(number.numerator(), number.denominator()),
                );
            } else if extended_model::<F>(number).power2 < 0 {
                lemma_encoding_sign::<F>(
                    crate::dec2flt::slow::long_mantissa_model::<F>(decimal_model(s)),
                );
            } else {
                lemma_encoding_sign::<F>(extended_model::<F>(number));
            }
        },
        None => {
            assert(number_model(t).is_none());
            assert(0x7FF0_0000_0000_0000u64 | (1u64 << 63) == 0xFFF0_0000_0000_0000u64
                && 0x7FF8_0000_0000_0000u64 | (1u64 << 63) == 0xFFF8_0000_0000_0000u64
                && 0x7F80_0000u64 | (1u64 << 31) == 0xFF80_0000u64 && 0x7FC0_0000u64 | (1u64
                << 31) == 0xFFC0_0000u64) by (bit_vector);
        },
    }
}

/// How many digits [`number_model`] cuts off the digits `value`: those
/// beyond the first 19.
pub open spec fn cut_digits(value: nat) -> nat {
    if digit_count(value) > 19 {
        (digit_count(value) - 19) as nat
    } else {
        0
    }
}

/// The significand that the lexer yields is made of the first 19
/// significant digits of the literal: with the digits that are cut off, it
/// is the number that the digits denote where `many_digits` is not set, and
/// else lies below it by less than one unit of its last digit. It is zero
/// for zero only.
pub proof fn lemma_number_mantissa(s: Seq<u8>)
    requires
        scan(s).valid(),
    ensures
        number_model(s).is_some(),
        number_model(s).unwrap().0.negative == scan(s).negative,
        number_model(s).unwrap().0.exponent == clamp_i64(
            scan(s).exponent - scan(s).frac_len() + cut_digits(digits_nat(scan(s).digits(s))),
        ),
        number_model(s).unwrap().0.mantissa < pow10(19),
        number_model(s).unwrap().0.mantissa as nat * pow10(
            cut_digits(digits_nat(scan(s).digits(s))),
        ) <= digits_nat(scan(s).digits(s)),
        digits_nat(scan(s).digits(s)) < (number_model(s).unwrap().0.mantissa as nat + 1) * pow10(
            cut_digits(digits_nat(scan(s).digits(s))),
        ),
        number_model(s).unwrap().0.many_digits <==> number_model(s).unwrap().0.mantissa as nat
            * pow10(cut_digits(digits_nat(scan(s).digits(s)))) != digits_nat(scan(s).digits(s)),
        number_model(s).unwrap().0.mantissa == 0 <==> digits_nat(scan(s).digits(s)) == 0,
        number_model(s).unwrap().0.mantissa == 0 ==> !number_model(s).unwrap().0.many_digits,
{
    let value = digits_nat(scan(s).digits(s));
    let extra = cut_digits(value);
    let p = pow10(extra);
    lemma_pow10(extra);
    lemma_pow10_values();
    vstd::arithmetic::div_mod::lemma_fundamental_div_mod(value as int, p as int);
    vstd::arithmetic::div_mod::lemma_mod_bound(value as int, p as int);
    let q = value / p;
    if value > 0 {
        lemma_digit_count_bounds(value);
    }
    if digit_count(value) > 19 {
        lemma_pow10_adds(19, extra);
    } else {
        crate::dec2flt::digits::lemma_pow10_increases(digit_count(value), 19);
    }
    assert(q < pow10(19)) by (nonlinear_arith)
        requires
            value < pow10(19) * p,
            value == p * q + value % p,
            0 <= value % p,
            p > 0,
    ;
    assert(q * p <= value && value < (q + 1) * p && (q * p != value <==> value % p != 0))
        by (nonlinear_arith)
        requires
            value == p * q + value % p,
            0 <= value % p < p,
    ;
    if q == 0 {
        // no digit is cut off a number without digits
        assert(1 * p == p);
        if extra > 0 {
            crate::dec2flt::digits::lemma_pow10_increases(extra, (18 + extra) as nat);
        }
        assert(value == 0);
    }
    if value == 0 {
        assert(q == 0) by (nonlinear_arith)
            requires
                q * p <= 0,
                p > 0,
                q >= 0,
        ;
    }
}

/// The number that the lexer yields stands for the number that the literal
/// denotes, cut to 19 significant digits: it is that number where
/// `many_digits` is not set, and else lies below it by less than one unit of
/// its last digit.
pub proof fn lemma_number_value(s: Seq<u8>)
    requires
        scan(s).valid(),
        scan(s).exponent == exact_exponent(s),
        i64::MIN <= literal_exponent(s) + cut_digits(digits_nat(scan(s).digits(s))) <= i64::MAX,
    ensures
        number_model(s).is_some(),
        number_model(s).unwrap().0.negative == scan(s).negative,
        number_model(s).unwrap().0.exponent == literal_exponent(s) + cut_digits(
            digits_nat(scan(s).digits(s)),
        ),
        number_model(s).unwrap().0.mantissa < pow10(19),
        number_model(s).unwrap().0.mantissa as nat * pow10(
            cut_digits(digits_nat(scan(s).digits(s))),
        ) <= digits_nat(scan(s).digits(s)),
        digits_nat(scan(s).digits(s)) < (number_model(s).unwrap().0.mantissa as nat + 1) * pow10(
            cut_digits(digits_nat(scan(s).digits(s))),
        ),
        number_model(s).unwrap().0.many_digits <==> number_model(s).unwrap().0.mantissa as nat
            * pow10(cut_digits(digits_nat(scan(s).digits(s)))) != digits_nat(scan(s).digits(s)),
{
    lemma_number_mantissa(s);
}

/// `m * 10^x` and `(m * 10^extra) * 10^e` are fractions of the same value,
/// for `x == e + extra`.
proof fn lemma_same_value(m: nat, extra: nat, e: int)
    ensures
        ({
            let x = e + extra;
            let v = m * pow10(extra);
            let ln = if e >= 0 {
                v * pow10(e as nat)
            } else {
                v
            };
            let ld = if e >= 0 {
                1nat
            } else {
                pow10((-e) as nat)
            };
            let nn = if x >= 0 {
                m * pow10(x as nat)
            } else {
                m
            };
            let nd = if x >= 0 {
                1nat
            } else {
                pow10((-x) as nat)
            };
            ln * nd == nn * ld && ld > 0 && nd > 0
        }),
{
    let x = e + extra;
    let a = pow10(extra);
    lemma_pow10(extra);
    if e >= 0 {
        lemma_pow10_adds(extra, e as nat);
        assert((m * a) * pow10(e as nat) * 1 == (m * pow10(x as nat)) * 1) by (nonlinear_arith)
            requires
                pow10(x as nat) == a * pow10(e as nat),
        ;
    } else if x >= 0 {
        lemma_pow10_adds(x as nat, (-e) as nat);
        lemma_pow10((-e) as nat);
        assert((m * a) * 1 == (m * pow10(x as nat)) * pow10((-e) as nat)) by (nonlinear_arith)
            requires
                a == pow10(x as nat) * pow10((-e) as nat),
        ;
    } else {
        lemma_pow10_adds(extra, (-x) as nat);
        lemma_pow10((-e) as nat);
        lemma_pow10((-x) as nat);
        assert((m * a) * pow10((-x) as nat) == m * pow10((-e) as nat)) by (nonlinear_arith)
            requires
                pow10((-e) as nat) == a * pow10((-x) as nat),
        ;
    }
}

/// On the fast path the conversion is exact: a literal whose number is on
/// the fast path is converted to the value of the format that is nearest to
/// the number that the literal denotes, with ties going to the even
/// significand.
pub proof fn lemma_fast_path_exact<F: RawFloat>(s: Seq<u8>)
    requires
        scan(s).valid(),
        scan(s).end == s.len(),
        scan(s).exponent == exact_exponent(s),
        number_model(s).unwrap().0.fast_path_applies::<F>(),
    ensures
        parse_model::<F>(s) == Ok::<u64, FloatErrorKind>(
            encoding::<F>(
                nearest::<F>(literal_numerator(s), literal_denominator(s)),
                scan(s).negative,
            ),
        ),
{
    lemma_format::<F>();
    let number = number_model(s).unwrap().0;
    let value = digits_nat(scan(s).digits(s));
    let extra = cut_digits(value);
    // within the range of the fast path, the exponent was not clamped
    let wide = scan(s).exponent - scan(s).frac_len() + extra;
    assert(number.exponent == clamp_i64(wide));
    assert(-22 <= number.exponent <= 37);
    assert(wide == number.exponent);
    lemma_number_value(s);
    assert(number.mantissa as nat * pow10(extra) == value);
    lemma_same_value(number.mantissa as nat, extra, literal_exponent(s));
    lemma_nearest_ratio::<F>(
        literal_numerator(s),
        literal_denominator(s),
        number.numerator(),
        number.denominator(),
    );
}

/// The number of digits of the literal at the start of `s`, from its
/// first digit that is not zero on.
pub open spec fn literal_digits(s: Seq<u8>) -> nat {
    digit_count(digits_nat(scan(s).digits(s)))
}

/// No string that a machine of 64 bits holds is longer than this.
pub open spec fn max_length() -> nat {
    0xFFFF_FFFF_FFFF_FFFF
}

/// The exponent of the number that the lexer makes of the literal at the
/// start of `s`, before it is kept within the range of an `i64`: the
/// exponent that the lexer reads, less the digits after the point, and one
/// more for every digit that is cut off the significand.
pub open spec fn wide_exponent(s: Seq<u8>) -> int {
    scan(s).exponent - scan(s).frac_len() + cut_digits(digits_nat(scan(s).digits(s)))
}

/// The exponent of the literal is read in full, and the exponent of its
/// number is within the range of an `i64`. Every other literal denotes zero
/// or a number beyond every format.
pub open spec fn within_range(s: Seq<u8>) -> bool {
    scan(s).exponent == exact_exponent(s) && i64::MIN <= wide_exponent(s) <= i64::MAX
}

/// The number that the literal at the start of `s` denotes, in the units
/// of [`scaled_value`].
pub open spec fn literal_value(s: Seq<u8>) -> nat {
    digits_nat(scan(s).digits(s)) * weight(literal_exponent(s), 0)
}

/// The slow path converts a literal exactly whose exponent is read in full:
/// it yields the value of the format that is nearest to the number that the
/// literal denotes, with ties going to the even significand, whether the
/// decimal holds all digits of the literal or not.
pub proof fn lemma_slow_path_read<F: RawFloat>(s: Seq<u8>)
    requires
        scan(s).exponent == exact_exponent(s),
        literal_digits(s) <= max_length(),
    ensures
        long_mantissa_model::<F>(decimal_model(s)) == nearest::<F>(
            literal_numerator(s),
            literal_denominator(s),
        ),
{
    let value = digits_nat(scan(s).digits(s));
    let count = digit_count(value);
    let e10 = literal_exponent(s);
    let point = e10 + count;
    let m = decimal_model(s);
    lemma_pow10((-e10) as nat);
    if value == 0 {
        // zero
        let zero = crate::dec2flt::common::Fp { mantissa: 0, power2: 0 };
        crate::dec2flt::digits::lemma_strip_zeros(0);
        assert(0nat / pow10(0) == 0) by {
            lemma_pow10(0);
        }
        assert(m.significand == 0);
        assert(literal_numerator(s) == 0) by {
            if e10 >= 0 {
                assert(0 * pow10(e10 as nat) == 0);
            }
        }
        crate::dec2flt::rounding::lemma_nearest::<F>(0, literal_denominator(s), zero);
    } else if point < -324 || point >= 310 {
        lemma_normalized(value, e10, false);
        // the decimal and the number are beyond the format alike
        let whole = DecimalModel { significand: value, decimal_point: point, truncated: false };
        lemma_slow_path_extremes::<F>(whole);
        assert(unit_exponent(whole) == e10);
        assert(long_mantissa_model::<F>(m) == long_mantissa_model::<F>(whole));
    } else {
        let x = literal_value(s);
        lemma_normalized(value, e10, false);
        lemma_normalized_holds(value, e10);
        assert(m == normalized(value, e10, false));
        lemma_slow_path_nearest::<F>(m, x);
        // the number as a fraction
        let big = margin() as nat;
        lemma_weight(0, 0, 0, 0);
        lemma_pow10(big);
        lemma_pow2_pos(big);
        if e10 >= 0 {
            lemma_pow10_adds(e10 as nat, big);
            assert(x * 1 == (value * pow10(e10 as nat)) * scale()) by (nonlinear_arith)
                requires
                    x == value * (pow10((e10 + margin()) as nat) * pow2(big)),
                    pow10((e10 + margin()) as nat) == pow10(e10 as nat) * pow10(big),
                    scale() == pow10(big) * pow2(big),
            ;
        } else {
            lemma_pow10_adds((e10 + margin()) as nat, (-e10) as nat);
            assert(x * pow10((-e10) as nat) == value * scale()) by (nonlinear_arith)
                requires
                    x == value * (pow10((e10 + margin()) as nat) * pow2(big)),
                    pow10(big) == pow10((e10 + margin()) as nat) * pow10((-e10) as nat),
                    scale() == pow10(big) * pow2(big),
            ;
        }
        lemma_nearest_ratio::<F>(x, scale(), literal_numerator(s), literal_denominator(s));
    }
}

/// The paths agree on the numbers of the fast path: for a literal whose
/// number is on the fast path, the slow path yields what the fast path
/// yields.
pub proof fn lemma_paths_agree<F: RawFloat>(s: Seq<u8>)
    requires
        scan(s).valid(),
        number_model(s).unwrap().0.fast_path_applies::<F>(),
    ensures
        long_mantissa_model::<F>(decimal_model(s)) == nearest::<F>(
            number_model(s).unwrap().0.numerator(),
            number_model(s).unwrap().0.denominator(),
        ),
{
    lemma_format::<F>();
    let lit = scan(s);
    let number = number_model(s).unwrap().0;
    let value = digits_nat(lit.digits(s));
    let extra = cut_digits(value);
    let e10 = lit.exponent - lit.frac_len();
    lemma_pow10_values();
    lemma_pow10(extra);
    // on the fast path the significand is short: nothing is cut off
    vstd::arithmetic::div_mod::lemma_fundamental_div_mod(value as int, pow10(extra) as int);
    let q = value / pow10(extra);
    assert(number.mantissa as nat == q) by {
        if value > 0 {
            lemma_digit_count_bounds(value);
        }
        if digit_count(value) > 19 {
            lemma_pow10_adds(19, extra);
            assert(q < pow10(19)) by (nonlinear_arith)
                requires
                    value < pow10(19) * pow10(extra),
                    value == pow10(extra) * q + value % pow10(extra),
                    0 <= value % pow10(extra),
                    pow10(extra) > 0,
            ;
        } else {
            crate::dec2flt::digits::lemma_pow10_increases(digit_count(value), 19);
        }
    }
    if digit_count(value) > 19 {
        lemma_digit_count_bounds(value);
        lemma_pow10_adds(18, extra);
        assert(q >= pow10(18)) by (nonlinear_arith)
            requires
                value >= pow10(18) * pow10(extra),
                value == pow10(extra) * q + value % pow10(extra),
                value % pow10(extra) == 0,
                pow10(extra) > 0,
        ;
    }
    assert(extra == 0);
    assert(pow10(0) == 1);
    assert(value / 1 == value);
    assert(value == number.mantissa);
    assert(number.exponent == clamp_i64(e10));
    assert(e10 == number.exponent);
    let m = decimal_model(s);
    if value == 0 {
        assert(m.significand == 0) by {
            crate::dec2flt::digits::lemma_strip_zeros(0);
        }
        let zero = crate::dec2flt::common::Fp { mantissa: 0, power2: 0 };
        assert(number.numerator() == 0) by {
            if number.exponent >= 0 {
                assert(0 * pow10(number.exponent as nat) == 0);
            }
        }
        lemma_pow10((-number.exponent) as nat);
        crate::dec2flt::rounding::lemma_nearest::<F>(0, number.denominator(), zero);
    } else {
        lemma_digit_count_bounds(value);
        if digit_count(value) > 16 {
            crate::dec2flt::digits::lemma_pow10_increases(16, (digit_count(value) - 1) as nat);
        }
        let n = normalized(value, e10, false);
        assert(value % 1 == 0);
        lemma_normalized(value, e10, false);
        lemma_normalized_exact(value, e10, false);
        assert(m == n);
        lemma_slow_path_exact::<F>(m);
        lemma_same_fraction(m.significand, unit_exponent(m), value, e10);
        assert(decimal_numerator(m) == m.significand * pow10(positive_part(unit_exponent(m)))) by {
            if unit_exponent(m) < 0 {
                assert(m.significand * 1 == m.significand);
            }
        }
        assert(number.numerator() == value * pow10(positive_part(e10))) by {
            if e10 < 0 {
                assert(value * 1 == value);
            }
        }
        lemma_nearest_ratio::<F>(
            decimal_numerator(m),
            decimal_denominator(m),
            number.numerator(),
            number.denominator(),
        );
    }
}

/// The three paths agree on the numbers of the fast path: for a literal
/// whose number is on the fast path, the Eisel-Lemire algorithm is not in
/// doubt, and its result makes the encoding of what the fast path and the
/// slow path yield.
pub proof fn lemma_paths_agree_all<F: RawFloat>(s: Seq<u8>)
    requires
        scan(s).valid(),
        number_model(s).unwrap().0.fast_path_applies::<F>(),
    ensures
        extended_model::<F>(number_model(s).unwrap().0).power2 >= 0,
        same_encoding::<F>(
            extended_model::<F>(number_model(s).unwrap().0),
            nearest::<F>(
                number_model(s).unwrap().0.numerator(),
                number_model(s).unwrap().0.denominator(),
            ),
        ),
        same_encoding::<F>(
            extended_model::<F>(number_model(s).unwrap().0),
            long_mantissa_model::<F>(decimal_model(s)),
        ),
{
    lemma_format::<F>();
    let number = number_model(s).unwrap().0;
    let q = number.exponent as int;
    lemma_window_undoubted::<F>(q, number.mantissa);
    lemma_compute_float_sound::<F>(q, number.mantissa);
    lemma_paths_agree::<F>(s);
}

/// Where the Eisel-Lemire algorithm yields a result for the number of a
/// literal that is not doubtful, it is the value of the format that is
/// nearest to the number that the literal denotes, with ties going to the
/// even significand.
///
/// For a literal of more than 19 digits the algorithm has agreed on the
/// number that the first 19 digits make and on the next one above it; the
/// number that the literal denotes lies between the two.
pub proof fn lemma_eisel_lemire_nearest<F: RawFloat>(s: Seq<u8>)
    requires
        scan(s).valid(),
        scan(s).exponent == exact_exponent(s),
        i64::MIN <= literal_exponent(s) + cut_digits(digits_nat(scan(s).digits(s))) <= i64::MAX,
        extended_model::<F>(number_model(s).unwrap().0).power2 >= 0,
    ensures
        same_encoding::<F>(
            extended_model::<F>(number_model(s).unwrap().0),
            nearest::<F>(literal_numerator(s), literal_denominator(s)),
        ),
{
    lemma_format::<F>();
    lemma_number_value(s);
    lemma_pow10_values();
    lemma2_to64();
    lemma2_to64_rest();
    let number = number_model(s).unwrap().0;
    let value = digits_nat(scan(s).digits(s));
    let extra = cut_digits(value);
    let e = literal_exponent(s);
    let q = number.exponent as int;
    let w = number.mantissa;
    let am = compute_float_model::<F>(q, w);
    let num = literal_numerator(s);
    let den = literal_denominator(s);
    let lower_num = power_numerator(w as nat, q);
    let lower_den = power_denominator(q);
    let p = pow10(extra);
    lemma_compute_float_sound::<F>(q, w);
    lemma_same_value(w as nat, extra, e);
    if !number.many_digits {
        assert(w as nat * p == value);
        lemma_nearest_ratio::<F>(num, den, lower_num, lower_den);
    } else {
        let next = (w + 1) as u64;
        let upper_num = power_numerator(next as nat, q);
        assert(am == compute_float_model::<F>(q, next));
        lemma_compute_float_sound::<F>(q, next);
        lemma_same_value(next as nat, extra, e);
        let below = if e >= 0 {
            (w as nat * p) * pow10(e as nat)
        } else {
            w as nat * p
        };
        let above = if e >= 0 {
            (next as nat * p) * pow10(e as nat)
        } else {
            next as nat * p
        };
        assert(below * lower_den == lower_num * den);
        assert(above * lower_den == upper_num * den);
        assert(below <= num && num <= above) by {
            if e >= 0 {
                let t = pow10(e as nat);
                assert((w as nat * p) * t <= value * t && value * t <= (next as nat * p) * t)
                    by (nonlinear_arith)
                    requires
                        w as nat * p <= value,
                        value <= next as nat * p,
                        t >= 0,
                ;
            }
        }
        assert(lower_num * den <= num * lower_den && num * lower_den <= upper_num * den)
            by (nonlinear_arith)
            requires
                below * lower_den == lower_num * den,
                above * lower_den == upper_num * den,
                below <= num,
                num <= above,
                lower_den > 0,
        ;
        lemma_rounded_between::<F>(am, lower_num, lower_den, num, den, upper_num, lower_den);
    }
    assert(same_encoding::<F>(am, nearest::<F>(num, den)));
}

/// Where the Eisel-Lemire algorithm decides, the conversion is exact: a
/// literal whose number is not on the fast path, and for which the
/// algorithm yields a result that is not doubtful, is converted to the
/// value of the format that is nearest to the number that the literal
/// denotes, with ties going to the even significand.
pub proof fn lemma_eisel_lemire_literal<F: RawFloat>(s: Seq<u8>)
    requires
        scan(s).valid(),
        scan(s).end == s.len(),
        scan(s).exponent == exact_exponent(s),
        i64::MIN <= literal_exponent(s) + cut_digits(digits_nat(scan(s).digits(s))) <= i64::MAX,
        !number_model(s).unwrap().0.fast_path_applies::<F>(),
        extended_model::<F>(number_model(s).unwrap().0).power2 >= 0,
    ensures
        parse_model::<F>(s) == Ok::<u64, FloatErrorKind>(
            encoding::<F>(
                nearest::<F>(literal_numerator(s), literal_denominator(s)),
                scan(s).negative,
            ),
        ),
{
    lemma_number_value(s);
    lemma_eisel_lemire_nearest::<F>(s);
}

/// The encoding of the value of the format that is nearest to the number
/// that the literal `s` denotes, with ties going to the even significand,
/// and with the sign of the literal.
pub open spec fn nearest_bits<F: RawFloat>(s: Seq<u8>) -> u64 {
    encoding::<F>(nearest::<F>(literal_numerator(s), literal_denominator(s)), scan(s).negative)
}

/// The parts of a literal lie within the string, one behind the other, and
/// its digits are digits. An exponent is read in full, or it is
/// [`EXPONENT_LIMIT`] or more, or the negative of that or less, and is read
/// as such a number.
pub proof fn lemma_literal_shape(s: Seq<u8>)
    ensures
        0 <= scan(s).int_start <= scan(s).int_end <= scan(s).frac_start <= scan(s).frac_end
            <= s.len(),
        scan(s).digits(s).len() == scan(s).int_len() + scan(s).frac_len(),
        crate::dec2flt::digits::all_digits(scan(s).digits(s)),
        literal_digits(s) <= scan(s).digits(s).len() <= s.len(),
        -10 * EXPONENT_LIMIT - 10 < scan(s).exponent < 10 * EXPONENT_LIMIT + 10,
        scan(s).exponent == exact_exponent(s) || (scan(s).exponent >= EXPONENT_LIMIT
            && exact_exponent(s) >= EXPONENT_LIMIT) || (scan(s).exponent <= -EXPONENT_LIMIT
            && exact_exponent(s) <= -EXPONENT_LIMIT),
{
    let lit = scan(s);
    lemma_digits_end(s, lit.int_start);
    lemma_digits_end(s, lit.frac_start);
    let digits = lit.digits(s);
    assert forall|k: int| 0 <= k < digits.len() implies #[trigger] digits[k] <= 9 by {
        lemma_literal_digit(s, lit, k);
        assert(is_digit(s[lit.digit_index(k)]));
    }
    crate::dec2flt::digits::lemma_digits_nat_bound(digits);
    let value = digits_nat(digits);
    if value > 0 {
        lemma_digit_count_bounds(value);
        if digit_count(value) > digits.len() {
            crate::dec2flt::digits::lemma_pow10_increases(
                digits.len(),
                (digit_count(value) - 1) as nat,
            );
        }
    }
    // the exponent
    let start = exponent_digits_start(s, lit.frac_end);
    let end = digits_end(s, start);
    let exponent = digit_values(s, start, end);
    if start <= s.len() {
        lemma_digits_end(s, start);
    }
    assert forall|k: int| 0 <= k < exponent.len() implies #[trigger] exponent[k] <= 9 by {
        assert(is_digit(s[start + k]));
    }
    lemma_exponent_saturates(exponent);
}

/// A literal beyond the range denotes zero, or a number beyond every
/// format: its decimal point lies more than `2^62` places off, to the same
/// side as that of the decimal that the slow path makes of it, and as the
/// exponent of the number that the lexer makes of it.
pub proof fn lemma_beyond_range(s: Seq<u8>)
    requires
        s.len() <= max_length(),
        !within_range(s),
    ensures
        ({
            let count = literal_digits(s);
            let point = literal_exponent(s) + count;
            let read = scan(s).exponent - scan(s).frac_len() + count;
            let far: int = 0x4000_0000_0000_0000;
            (point >= far && read >= far && wide_exponent(s) > i64::MAX) || (point <= -far && read
                <= -far && wide_exponent(s) < i64::MIN)
        }),
{
    lemma_literal_shape(s);
}

/// The slow path converts every literal exactly: it yields the value of
/// the format that is nearest to the number that the literal denotes, with
/// ties going to the even significand, whether the decimal holds all digits
/// of the literal or not.
pub proof fn lemma_slow_path_literal<F: RawFloat>(s: Seq<u8>)
    requires
        s.len() <= max_length(),
    ensures
        long_mantissa_model::<F>(decimal_model(s)) == nearest::<F>(
            literal_numerator(s),
            literal_denominator(s),
        ),
{
    lemma_literal_shape(s);
    let value = digits_nat(scan(s).digits(s));
    if scan(s).exponent == exact_exponent(s) {
        lemma_slow_path_read::<F>(s);
    } else if value == 0 {
        let zero = crate::dec2flt::common::Fp { mantissa: 0, power2: 0 };
        let e10 = literal_exponent(s);
        lemma_pow10((-e10) as nat);
        crate::dec2flt::digits::lemma_strip_zeros(0);
        assert(0nat / pow10(0) == 0) by {
            lemma_pow10(0);
        }
        assert(decimal_model(s).significand == 0);
        assert(literal_numerator(s) == 0) by {
            if e10 >= 0 {
                assert(0 * pow10(e10 as nat) == 0);
            }
        }
        crate::dec2flt::rounding::lemma_nearest::<F>(0, literal_denominator(s), zero);
    } else {
        // the decimal and the number are beyond the format alike
        let count = digit_count(value);
        let point = literal_exponent(s) + count;
        lemma_beyond_range(s);
        lemma_normalized(value, scan(s).exponent - scan(s).frac_len(), false);
        let whole = DecimalModel { significand: value, decimal_point: point, truncated: false };
        lemma_slow_path_extremes::<F>(whole);
        assert(unit_exponent(whole) == literal_exponent(s));
        assert(long_mantissa_model::<F>(decimal_model(s)) == long_mantissa_model::<F>(whole));
    }
}

/// The number of a literal beyond the range is not on the fast path, and
/// the Eisel-Lemire algorithm is not in doubt of it: it yields zero or
/// infinity, which is the value of the format that is nearest to the number
/// that the literal denotes.
pub proof fn lemma_number_beyond_range<F: RawFloat>(s: Seq<u8>)
    requires
        scan(s).valid(),
        s.len() <= max_length(),
        !within_range(s),
    ensures
        !number_model(s).unwrap().0.fast_path_applies::<F>(),
        extended_model::<F>(number_model(s).unwrap().0) == nearest::<F>(
            literal_numerator(s),
            literal_denominator(s),
        ),
        extended_model::<F>(number_model(s).unwrap().0).power2 >= 0,
{
    lemma_format::<F>();
    lemma_literal_shape(s);
    lemma_beyond_range(s);
    lemma_number_mantissa(s);
    lemma_pow10_values();
    let number = number_model(s).unwrap().0;
    let value = digits_nat(scan(s).digits(s));
    let count = digit_count(value);
    let q = number.exponent as int;
    let w = number.mantissa;
    let next = (w + 1) as u64;
    let e10 = literal_exponent(s);
    let zero = crate::dec2flt::common::Fp { mantissa: 0, power2: 0 };
    assert(next != 0);
    assert(q == i64::MAX || q == i64::MIN);
    assert(!number.fast_path_applies::<F>());
    assert(compute_float_model::<F>(q, w) == compute_float_model::<F>(q, next) || w == 0);
    if value == 0 {
        lemma_pow10((-e10) as nat);
        assert(literal_numerator(s) == 0) by {
            if e10 >= 0 {
                assert(0 * pow10(e10 as nat) == 0);
            }
        }
        crate::dec2flt::rounding::lemma_nearest::<F>(0, literal_denominator(s), zero);
    } else {
        let whole = DecimalModel {
            significand: value,
            decimal_point: e10 + count,
            truncated: false,
        };
        lemma_slow_path_extremes::<F>(whole);
        assert(unit_exponent(whole) == e10);
    }
}

/// The paths agree where the Eisel-Lemire algorithm decides: for every
/// literal for whose number the algorithm yields a result that is not
/// doubtful, the slow path yields the same encoding.
pub proof fn lemma_paths_agree_extended<F: RawFloat>(s: Seq<u8>)
    requires
        scan(s).valid(),
        s.len() <= max_length(),
        extended_model::<F>(number_model(s).unwrap().0).power2 >= 0,
    ensures
        same_encoding::<F>(
            extended_model::<F>(number_model(s).unwrap().0),
            long_mantissa_model::<F>(decimal_model(s)),
        ),
{
    lemma_slow_path_literal::<F>(s);
    if within_range(s) {
        lemma_eisel_lemire_nearest::<F>(s);
    } else {
        lemma_number_beyond_range::<F>(s);
    }
}

/// The conversion is exact: every literal is converted to the value of the
/// format that is nearest to the number that the literal denotes, with ties
/// going to the even significand, whichever of the three paths it takes.
pub proof fn lemma_conversion_exact<F: RawFloat>(s: Seq<u8>)
    requires
        scan(s).valid(),
        scan(s).end == s.len(),
        s.len() <= max_length(),
    ensures
        parse_model::<F>(s) == Ok::<u64, FloatErrorKind>(nearest_bits::<F>(s)),
{
    lemma_format::<F>();
    lemma_literal_shape(s);
    lemma_number_mantissa(s);
    let number = number_model(s).unwrap().0;
    if !within_range(s) {
        lemma_number_beyond_range::<F>(s);
    } else {
        lemma_number_value(s);
        if number.fast_path_applies::<F>() {
            lemma_fast_path_exact::<F>(s);
        } else if extended_model::<F>(number).power2 >= 0 {
            lemma_eisel_lemire_literal::<F>(s);
        } else {
            lemma_slow_path_literal::<F>(s);
        }
    }
}

/// A value comes back from its decimal form: a literal that denotes a
/// number whose nearest value of the format is `value`, as every decimal
/// form does that is written to be read back, is converted to `value`, with
/// the sign of the literal.
pub proof fn lemma_round_trip<F: RawFloat>(s: Seq<u8>, value: crate::dec2flt::common::Fp)
    requires
        scan(s).valid(),
        scan(s).end == s.len(),
        s.len() <= max_length(),
        nearest::<F>(literal_numerator(s), literal_denominator(s)) == value,
    ensures
        parse_model::<F>(s) == Ok::<u64, FloatErrorKind>(
            encoding::<F>(value, scan(s).negative),
        ),
{
    lemma_conversion_exact::<F>(s);
}

} // verus!
