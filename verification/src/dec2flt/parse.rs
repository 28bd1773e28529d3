//! The lexical front end: the grammar of a decimal literal, and the
//! functions that read one from bytes.

use crate::dec2flt::common::{starts_with_ignore_case, ByteSlice};
use crate::dec2flt::digits::{digit_count, digits_nat, lemma_append_cut, lemma_append_digit, lemma_digit_count_bounds, lemma_pow10, lemma_pow10_increases, lemma_pow10_values, pow10};
use crate::dec2flt::float::{lemma_format, RawFloat};
use crate::dec2flt::number::Number;
use vstd::prelude::*;

verus! {

/// The byte `0`.
pub const ZERO: u8 = 0x30;

/// The byte `9`.
pub const NINE: u8 = 0x39;

/// The byte `+`.
pub const PLUS: u8 = 0x2B;

/// The byte `-`.
pub const MINUS: u8 = 0x2D;

/// The byte `.`.
pub const POINT: u8 = 0x2E;

/// The byte `e`.
pub const LOWER_E: u8 = 0x65;

/// The byte `E`.
pub const UPPER_E: u8 = 0x45;

/// `c` is an ASCII decimal digit.
pub open spec fn is_digit(c: u8) -> bool {
    ZERO <= c <= NINE
}

/// `c` is `+` or `-`.
pub open spec fn is_sign(c: u8) -> bool {
    c == PLUS || c == MINUS
}

/// The end of the longest run of digits in `s` that starts at `i`.
pub open spec fn digits_end(s: Seq<u8>, i: int) -> int
    decreases s.len() - i,
{
    if 0 <= i < s.len() && is_digit(s[i]) {
        digits_end(s, i + 1)
    } else {
        i
    }
}

/// The values of the digits `s[from..to]`.
pub open spec fn digit_values(s: Seq<u8>, from: int, to: int) -> Seq<u8> {
    Seq::new((to - from) as nat, |k: int| (s[from + k] - ZERO) as u8)
}

/// Where the sum of the digits of an exponent stops to grow: at `2^70`,
/// which is more than the digits of a string can make up for, as a string
/// has less than `2^64` of them.
pub const EXPONENT_LIMIT: i128 = 0x40_0000_0000_0000_0000;

/// What the digits of an exponent add up to. The sum stops to grow once it
/// has reached [`EXPONENT_LIMIT`]: with an exponent from there on, a number
/// is zero, or beyond every format, whatever its digits are.
pub open spec fn exponent_value(digits: Seq<u8>) -> nat
    decreases digits.len(),
{
    if digits.len() == 0 {
        0
    } else {
        let front = exponent_value(digits.drop_last());
        if front < EXPONENT_LIMIT {
            10 * front + digits.last() as nat
        } else {
            front
        }
    }
}

/// Whether an exponent starts at `at`: an `e` or `E`, an optional sign, and
/// at least one digit.
pub open spec fn has_exponent(s: Seq<u8>, at: int) -> bool {
    &&& 0 <= at < s.len()
    &&& (s[at] == LOWER_E || s[at] == UPPER_E)
    &&& is_digit_at(s, exponent_digits_start(s, at))
}

/// A digit stands at `i`.
pub open spec fn is_digit_at(s: Seq<u8>, i: int) -> bool {
    0 <= i < s.len() && is_digit(s[i])
}

/// Where the digits of an exponent that starts at `at` start: behind the
/// `e` and the sign, if there is one.
pub open spec fn exponent_digits_start(s: Seq<u8>, at: int) -> int {
    if at + 1 < s.len() && is_sign(s[at + 1]) {
        at + 2
    } else {
        at + 1
    }
}

/// The parts of a decimal literal at the start of a byte string: an
/// optional sign, digits, an optional `.` with further digits, and an
/// optional exponent. Each part is as long as it can be.
pub struct Literal {
    /// The literal starts with `-`.
    pub negative: bool,
    /// Start of the digits before the point.
    pub int_start: int,
    /// End of the digits before the point.
    pub int_end: int,
    /// Start of the digits after the point.
    pub frac_start: int,
    /// End of the digits after the point.
    pub frac_end: int,
    /// The exponent that the literal names, zero if it names none.
    pub exponent: int,
    /// End of the literal.
    pub end: int,
}

impl Literal {
    /// The number of digits before the point.
    pub open spec fn int_len(self) -> int {
        self.int_end - self.int_start
    }

    /// The number of digits after the point.
    pub open spec fn frac_len(self) -> int {
        self.frac_end - self.frac_start
    }

    /// A literal has at least one digit, before or after the point.
    pub open spec fn valid(self) -> bool {
        self.int_len() + self.frac_len() > 0
    }

    /// The values of all digits of the significand, those before the point
    /// first.
    pub open spec fn digits(self, s: Seq<u8>) -> Seq<u8> {
        digit_values(s, self.int_start, self.int_end) + digit_values(
            s,
            self.frac_start,
            self.frac_end,
        )
    }

    /// The position in `s` of the `k`-th digit of the significand.
    pub open spec fn digit_index(self, k: int) -> int {
        if k < self.int_len() {
            self.int_start + k
        } else {
            self.frac_start + (k - self.int_len())
        }
    }
}

/// The literal that `s` starts with.
pub open spec fn scan(s: Seq<u8>) -> Literal {
    let signed = s.len() > 0 && is_sign(s[0]);
    let int_start = if signed {
        1int
    } else {
        0int
    };
    let int_end = digits_end(s, int_start);
    let dot = int_end < s.len() && s[int_end] == POINT;
    let frac_start = if dot {
        int_end + 1
    } else {
        int_end
    };
    let frac_end = digits_end(s, frac_start);
    let exp_start = exponent_digits_start(s, frac_end);
    let exp_end = digits_end(s, exp_start);
    let magnitude = exponent_value(digit_values(s, exp_start, exp_end)) as int;
    Literal {
        negative: signed && s[0] == MINUS,
        int_start,
        int_end,
        frac_start,
        frac_end,
        exponent: if !has_exponent(s, frac_end) {
            0
        } else if s[frac_end + 1] == MINUS {
            -magnitude
        } else {
            magnitude
        },
        end: if has_exponent(s, frac_end) {
            exp_end
        } else {
            frac_end
        },
    }
}

/// `x`, kept within the range of an `i64`.
pub open spec fn clamp_i64(x: int) -> i64 {
    if x < i64::MIN {
        i64::MIN
    } else if x > i64::MAX {
        i64::MAX
    } else {
        x as i64
    }
}

/// The number that the literal at the start of `s` denotes, with the number
/// of bytes that the literal takes; `None` where `s` starts with no literal.
///
/// The significand is cut to its first 19 significant digits, and each
/// digit that is cut off adds one to the exponent.
pub open spec fn number_model(s: Seq<u8>) -> Option<(Number, int)> {
    let lit = scan(s);
    let value = digits_nat(lit.digits(s));
    let count = digit_count(value);
    let extra = if count > 19 {
        (count - 19) as nat
    } else {
        0
    };
    if !lit.valid() {
        None
    } else {
        Some(
            (
                Number {
                    exponent: clamp_i64(lit.exponent - lit.frac_len() + extra),
                    mantissa: (value / pow10(extra)) as u64,
                    negative: lit.negative,
                    many_digits: value % pow10(extra) != 0,
                },
                lit.end,
            ),
        )
    }
}

/// The parts of a literal, as positions in the bytes it was read from.
#[derive(Clone, Copy, Debug)]
pub struct Span {
    pub negative: bool,
    pub int_start: usize,
    pub int_end: usize,
    pub frac_start: usize,
    pub frac_end: usize,
    pub exponent: i128,
    pub end: usize,
}

impl Span {
    /// The literal that these positions describe.
    pub open spec fn view(&self) -> Literal {
        Literal {
            negative: self.negative,
            int_start: self.int_start as int,
            int_end: self.int_end as int,
            frac_start: self.frac_start as int,
            frac_end: self.frac_end as int,
            exponent: self.exponent as int,
            end: self.end as int,
        }
    }
}

/// The run of digits that starts at `i` ends within the string, at a byte
/// that is no digit, and holds digits only.
pub proof fn lemma_digits_end(s: Seq<u8>, i: int)
    requires
        0 <= i <= s.len(),
    ensures
        i <= digits_end(s, i) <= s.len(),
        !is_digit_at(s, digits_end(s, i)),
        forall|j: int| i <= j < digits_end(s, i) ==> is_digit(#[trigger] s[j]),
    decreases s.len() - i,
{
    if i < s.len() && is_digit(s[i]) {
        lemma_digits_end(s, i + 1);
    }
}

/// Skips the digits from `start` on and returns where they end.
pub fn skip_digits(s: &[u8], start: usize) -> (end: usize)
    requires
        start <= s@.len(),
    ensures
        end == digits_end(s@, start as int),
        start <= end <= s@.len(),
{
    let mut i = start;
    while i < s.len() && s[i] >= ZERO && s[i] <= NINE
        invariant
            start <= i <= s@.len(),
            digits_end(s@, start as int) == digits_end(s@, i as int),
        decreases s@.len() - i,
    {
        i += 1;
    }
    i
}

/// Reads the literal that `s` starts with.
pub fn scan_literal(s: &[u8]) -> (r: Span)
    ensures
        r@ == scan(s@),
        r.int_start <= r.int_end <= r.frac_start <= r.frac_end <= r.end <= s@.len(),
        r.int_start <= 1,
        r.frac_start <= r.int_end + 1,
        -10 * EXPONENT_LIMIT - 10 < r.exponent < 10 * EXPONENT_LIMIT + 10,
        forall|j: int| r.int_start <= j < r.int_end ==> is_digit(#[trigger] s@[j]),
        forall|j: int| r.frac_start <= j < r.frac_end ==> is_digit(#[trigger] s@[j]),
{
    let mut negative = false;
    let mut i: usize = 0;
    if s.len() > 0 {
        if s[0] == MINUS {
            negative = true;
            i = 1;
        } else if s[0] == PLUS {
            i = 1;
        }
    }
    let int_start = i;
    let int_end = skip_digits(s, int_start);
    let mut frac_start = int_end;
    if int_end < s.len() && s[int_end] == POINT {
        frac_start = int_end + 1;
    }
    let frac_end = skip_digits(s, frac_start);
    proof {
        lemma_digits_end(s@, int_start as int);
        lemma_digits_end(s@, frac_start as int);
    }
    let (exponent, end) = parse_scientific(s, frac_end);
    Span { negative, int_start, int_end, frac_start, frac_end, exponent, end }
}

/// Reads the exponent that starts at `at`, if one does: yields its value
/// and where it ends. Without an exponent, the value is zero and the end is
/// `at`.
pub fn parse_scientific(s: &[u8], at: usize) -> (r: (i128, usize))
    requires
        at <= s@.len(),
    ensures
        r.1 == scan_exponent_end(s@, at as int),
        r.0 == scan_exponent(s@, at as int),
        at <= r.1 <= s@.len(),
        -10 * EXPONENT_LIMIT - 10 < r.0 < 10 * EXPONENT_LIMIT + 10,
{
    if !(at < s.len() && (s[at] == LOWER_E || s[at] == UPPER_E)) {
        return (0, at);
    }
    let mut i = at + 1;
    let mut neg_exp = false;
    if i < s.len() && (s[i] == MINUS || s[i] == PLUS) {
        neg_exp = s[i] == MINUS;
        i += 1;
    }
    if !(i < s.len() && s[i] >= ZERO && s[i] <= NINE) {
        // no digits: the `e` is not a part of the literal
        return (0, at);
    }
    let start = i;
    let ghost end = digits_end(s@, start as int);
    let ghost all = digit_values(s@, start as int, end);
    let mut exp_num = 0_i128;
    proof {
        lemma_digits_end(s@, start as int);
        assert(all.take(0).len() == 0);
    }
    while i < s.len() && s[i] >= ZERO && s[i] <= NINE
        invariant
            start <= i <= end <= s@.len(),
            end == digits_end(s@, start as int),
            end == digits_end(s@, i as int),
            all == digit_values(s@, start as int, end),
            exp_num == exponent_value(all.take(i - start)),
            0 <= exp_num < 10 * EXPONENT_LIMIT + 10,
        decreases s@.len() - i,
    {
        let digit = s[i] - ZERO;
        proof {
            lemma_digits_end(s@, i + 1);
            let t = all.take(i - start + 1);
            assert(t.drop_last() =~= all.take(i - start));
            assert(t.last() == digit);
        }
        if exp_num < EXPONENT_LIMIT {
            exp_num = 10 * exp_num + digit as i128;
        }
        i += 1;
    }
    proof {
        assert(all.take(i - start) =~= all);
    }
    if neg_exp {
        (-exp_num, i)
    } else {
        (exp_num, i)
    }
}

/// The `k`-th digit of the significand of a literal is the digit at its
/// position in the bytes.
pub proof fn lemma_literal_digit(s: Seq<u8>, lit: Literal, k: int)
    requires
        0 <= lit.int_start <= lit.int_end,
        0 <= lit.frac_start <= lit.frac_end,
        0 <= k < lit.int_len() + lit.frac_len(),
    ensures
        lit.digits(s).len() == lit.int_len() + lit.frac_len(),
        lit.digits(s)[k] == (s[lit.digit_index(k)] - ZERO) as u8,
{
}

/// Parses the literal that `s` starts with into a [`Number`], and tells how
/// many bytes the literal takes.
///
/// The significand takes up to 19 significant digits. Further digits only
/// raise the exponent, and set `many_digits` where one of them is not zero.
/// The exponent is kept within the range of an `i64`.
pub fn parse_number(s: &[u8]) -> (r: Option<(Number, usize)>)
    ensures
        match r {
            Some((number, len)) => number_model(s@) == Some((number, len as int)) && len <= s@.len()
                && number.mantissa < 10_000_000_000_000_000_000,
            None => number_model(s@).is_none(),
        },
{
    let span = scan_literal(s);
    let int_len = span.int_end - span.int_start;
    let frac_len = span.frac_end - span.frac_start;
    if int_len == 0 && frac_len == 0 {
        return None;
    }
    let n = int_len + frac_len;
    let ghost lit = span@;
    let ghost all = lit.digits(s@);
    let mut mantissa: u64 = 0;
    let mut count: usize = 0;
    let mut dropped: usize = 0;
    let mut many_digits = false;
    let mut k: usize = 0;
    proof {
        lemma_pow10_values();
        assert(all.take(0).len() == 0);
    }
    while k < n
        invariant
            lit == span@,
            all == lit.digits(s@),
            span.int_start <= span.int_end <= span.frac_start <= span.frac_end <= s@.len(),
            int_len == span.int_end - span.int_start,
            frac_len == span.frac_end - span.frac_start,
            n == int_len + frac_len,
            forall|j: int| span.int_start <= j < span.int_end ==> is_digit(#[trigger] s@[j]),
            forall|j: int| span.frac_start <= j < span.frac_end ==> is_digit(#[trigger] s@[j]),
            k <= n,
            count <= 19,
            dropped <= k,
            digit_count(digits_nat(all.take(k as int))) <= 19 ==> {
                &&& mantissa == digits_nat(all.take(k as int))
                &&& count == digit_count(digits_nat(all.take(k as int)))
                &&& dropped == 0
                &&& !many_digits
            },
            digit_count(digits_nat(all.take(k as int))) > 19 ==> {
                &&& mantissa == digits_nat(all.take(k as int)) / pow10(dropped as nat)
                &&& count == 19
                &&& dropped == digit_count(digits_nat(all.take(k as int))) - 19
                &&& many_digits == (digits_nat(all.take(k as int)) % pow10(dropped as nat) != 0)
            },
            mantissa < pow10(count as nat),
            pow10(18) == 1_000_000_000_000_000_000,
            pow10(19) == 10_000_000_000_000_000_000,
            pow10(0) == 1,
        decreases n - k,
    {
        let index = if k < int_len {
            span.int_start + k
        } else {
            span.frac_start + (k - int_len)
        };
        let digit = s[index] - ZERO;
        proof {
            let v = digits_nat(all.take(k as int));
            lemma_literal_digit(s@, lit, k as int);
            assert(is_digit(s@[index as int]));
            let t = all.take(k + 1);
            assert(t.drop_last() =~= all.take(k as int));
            assert(t.last() == digit);
            lemma_append_digit(v, digit as nat);
            lemma_append_cut(v, digit as nat, dropped as nat);
            lemma_pow10(count as nat);
            lemma_pow10(dropped as nat);
            if count < 19 {
                lemma_pow10_increases((count + 1) as nat, 19);
            }
            if v > 0 {
                lemma_digit_count_bounds(v);
            }
            if digit_count(v) >= 19 {
                // the first 19 digits of `v` stay below `10^19`
                let c = digit_count(v);
                let p = pow10(dropped as nat);
                crate::dec2flt::digits::lemma_pow10_adds(19, dropped as nat);
                vstd::arithmetic::div_mod::lemma_fundamental_div_mod(v as int, p as int);
                vstd::arithmetic::div_mod::lemma_mod_bound(v as int, p as int);
                assert(v / p < pow10(19)) by (nonlinear_arith)
                    requires
                        v < pow10(19) * p,
                        v == p * (v / p) + v % p,
                        0 <= v % p,
                        p > 0,
                ;
            }
        }
        if count < 19 {
            if mantissa != 0 || digit != 0 {
                mantissa = mantissa * 10 + digit as u64;
                count += 1;
            }
        } else {
            dropped += 1;
            if digit != 0 {
                many_digits = true;
            }
        }
        k += 1;
    }
    proof {
        assert(all.take(n as int) =~= all);
        lemma_literal_digit(s@, lit, 0);
    }
    let wide = span.exponent as i128 - frac_len as i128 + dropped as i128;
    let exponent = if wide < i64::MIN as i128 {
        i64::MIN
    } else if wide > i64::MAX as i128 {
        i64::MAX
    } else {
        wide as i64
    };
    Some((Number { exponent, mantissa, negative: span.negative, many_digits }, span.end))
}

/// The exponent that starts at `at`, zero if none does.
pub open spec fn scan_exponent(s: Seq<u8>, at: int) -> int {
    let start = exponent_digits_start(s, at);
    let magnitude = exponent_value(digit_values(s, start, digits_end(s, start))) as int;
    if !has_exponent(s, at) {
        0
    } else if s[at + 1] == MINUS {
        -magnitude
    } else {
        magnitude
    }
}

/// Where the exponent that starts at `at` ends; `at` if none starts there.
pub open spec fn scan_exponent_end(s: Seq<u8>, at: int) -> int {
    if has_exponent(s, at) {
        digits_end(s, exponent_digits_start(s, at))
    } else {
        at
    }
}

/// The letters of `nan`.
pub const NAN_WORD: [u8; 3] = [0x6E, 0x61, 0x6E];

/// The letters of `inf`.
pub const INF_WORD: [u8; 3] = [0x69, 0x6E, 0x66];

/// The letters of `infinity`.
pub const INFINITY_WORD: [u8; 8] = [0x69, 0x6E, 0x66, 0x69, 0x6E, 0x69, 0x74, 0x79];

/// The encoding of the special value that `s` names: `nan`, `inf` or
/// `infinity`, in any mix of upper and lower case, with an optional sign.
/// `None` where `s` is none of these.
pub open spec fn special_model<F: RawFloat>(s: Seq<u8>) -> Option<u64> {
    let signed = s.len() > 0 && is_sign(s[0]);
    let negative = signed && s[0] == MINUS;
    let word = if signed {
        s.skip(1)
    } else {
        s
    };
    if word.len() == 3 && starts_with_ignore_case(word, NAN_WORD@) {
        Some(
            if negative {
                F::NEG_NAN
            } else {
                F::NAN
            },
        )
    } else if (word.len() == 3 && starts_with_ignore_case(word, INF_WORD@)) || (word.len() == 8
        && starts_with_ignore_case(word, INFINITY_WORD@)) {
        Some(
            if negative {
                F::NEG_INFINITY
            } else {
                F::INFINITY
            },
        )
    } else {
        None
    }
}

/// Parses a special, non-finite value: `nan`, `inf` or `infinity` in any
/// mix of upper and lower case, with an optional sign, and nothing else.
pub fn parse_inf_nan<F: RawFloat>(s: &[u8]) -> (r: Option<F>)
    ensures
        match special_model::<F>(s@) {
            Some(bits) => r matches Some(value) && value.bits() == bits,
            None => r.is_none(),
        },
{
    proof {
        lemma_format::<F>();
        vstd::arithmetic::power2::lemma2_to64();
        vstd::arithmetic::power2::lemma2_to64_rest();
        let width = vstd::arithmetic::power2::pow2((F::SIGN_INDEX + 1) as nat);
        vstd::arithmetic::div_mod::lemma_small_mod(F::NAN as nat, width);
        vstd::arithmetic::div_mod::lemma_small_mod(F::NEG_NAN as nat, width);
        vstd::arithmetic::div_mod::lemma_small_mod(F::INFINITY as nat, width);
        vstd::arithmetic::div_mod::lemma_small_mod(F::NEG_INFINITY as nat, width);
    }
    let mut negative = false;
    let mut word = s;
    if s.len() > 0 {
        if s.get_first() == MINUS {
            negative = true;
            word = s.advance(1);
        } else if s.get_first() == PLUS {
            word = s.advance(1);
        }
    }
    if word.len() == 3 {
        if word.eq_ignore_case(NAN_WORD.as_slice()) {
            return Some(
                F::from_u64_bits(
                    if negative {
                        F::NEG_NAN
                    } else {
                        F::NAN
                    },
                ),
            );
        } else if word.eq_ignore_case(INF_WORD.as_slice()) {
            return Some(
                F::from_u64_bits(
                    if negative {
                        F::NEG_INFINITY
                    } else {
                        F::INFINITY
                    },
                ),
            );
        }
    } else if word.len() == 8 && word.eq_ignore_case(INFINITY_WORD.as_slice()) {
        return Some(
            F::from_u64_bits(
                if negative {
                    F::NEG_INFINITY
                } else {
                    F::INFINITY
                },
            ),
        );
    }
    None
}

/// The exponent that the literal at the start of `s` names, however large:
/// the number that its digits denote, with its sign.
pub open spec fn exact_exponent(s: Seq<u8>) -> int {
    let at = scan(s).frac_end;
    let start = exponent_digits_start(s, at);
    let magnitude = digits_nat(digit_values(s, start, digits_end(s, start))) as int;
    if !has_exponent(s, at) {
        0
    } else if s[at + 1] == MINUS {
        -magnitude
    } else {
        magnitude
    }
}

/// The power of ten that scales the digits of the literal at the start of
/// `s`, read as one integer: the exponent that the literal names, less the
/// number of digits after the point.
pub open spec fn literal_exponent(s: Seq<u8>) -> int {
    exact_exponent(s) - scan(s).frac_len()
}

/// The numerator of the number that the literal at the start of `s`
/// denotes, without its sign.
pub open spec fn literal_numerator(s: Seq<u8>) -> nat {
    let digits = digits_nat(scan(s).digits(s));
    if literal_exponent(s) >= 0 {
        digits * pow10(literal_exponent(s) as nat)
    } else {
        digits
    }
}

/// The denominator of the number that the literal at the start of `s`
/// denotes.
pub open spec fn literal_denominator(s: Seq<u8>) -> nat {
    if literal_exponent(s) >= 0 {
        1
    } else {
        pow10((-literal_exponent(s)) as nat)
    }
}

/// The digits of an exponent add up to the number that they denote, as
/// long as that stays below [`EXPONENT_LIMIT`] before the last digit.
pub proof fn lemma_exponent_value(digits: Seq<u8>)
    requires
        digits.len() > 0 ==> digits_nat(digits.drop_last()) < EXPONENT_LIMIT,
    ensures
        exponent_value(digits) == digits_nat(digits),
    decreases digits.len(),
{
    if digits.len() > 0 {
        let front = digits.drop_last();
        if front.len() > 0 {
            assert(digits_nat(front) == digits_nat(front.drop_last()) * 10 + front.last());
        }
        lemma_exponent_value(front);
    }
}

/// An exponent of up to 21 digits is read in full.
pub proof fn lemma_short_exponent(digits: Seq<u8>)
    requires
        digits.len() <= 21,
        crate::dec2flt::digits::all_digits(digits),
    ensures
        exponent_value(digits) == digits_nat(digits),
{
    if digits.len() > 0 {
        let front = digits.drop_last();
        assert(crate::dec2flt::digits::all_digits(front)) by {
            assert forall|i: int| 0 <= i < front.len() implies #[trigger] front[i] <= 9 by {
                assert(front[i] == digits[i]);
            }
        }
        crate::dec2flt::digits::lemma_digits_nat_bound(front);
        lemma_pow10_values();
        lemma_pow10_increases(front.len(), 20);
        crate::dec2flt::digits::lemma_pow10(19);
        lemma_exponent_value(digits);
    }
}

/// An exponent is read in full, or it is [`EXPONENT_LIMIT`] or more and is
/// read as such a number. What is read stays below ten times the limit,
/// and ten.
pub proof fn lemma_exponent_saturates(digits: Seq<u8>)
    requires
        crate::dec2flt::digits::all_digits(digits),
    ensures
        exponent_value(digits) == digits_nat(digits) || (exponent_value(digits) >= EXPONENT_LIMIT
            && digits_nat(digits) >= EXPONENT_LIMIT),
        exponent_value(digits) < 10 * EXPONENT_LIMIT + 10,
    decreases digits.len(),
{
    if digits.len() > 0 {
        let front = digits.drop_last();
        assert(crate::dec2flt::digits::all_digits(front)) by {
            assert forall|i: int| 0 <= i < front.len() implies #[trigger] front[i] <= 9 by {
                assert(front[i] == digits[i]);
            }
        }
        assert(digits.last() == digits[digits.len() - 1]);
        lemma_exponent_saturates(front);
    }
}

} // verus!
