//! Converting decimal strings into IEEE 754 binary floating point numbers.
//!
//! # Problem statement
//!
//! We are given a decimal string such as `12.34e56`. This string consists of
//! integral (`12`), fractional (`34`), and exponent (`56`) parts. All parts
//! are optional and interpreted as zero when missing.
//!
//! We seek the IEEE 754 floating point number that is closest to the exact
//! value of the decimal string: the value is rounded to nearest, and ties,
//! decimal values exactly half-way between two consecutive floats, go to the
//! float with the even significand.
//!
//! # Implementation
//!
//! The sign is taken off at the very beginning and put back at the very
//! end. The literal then is the pair of a decimal significand and a decimal
//! exponent, and a chain of cases of growing cost is tried on it: the fast
//! path for numbers that one rounding computes; the Eisel-Lemire algorithm,
//! which works on a 128-bit product and tells when that is not enough; and
//! a decimal of many digits, which is shifted into range and rounded with
//! all of its digits.
//!
//! # What is proved
//!
//! Every function states what it yields over a model: the lexer over the
//! grammar of [`parse`], the fast path over [`rounding::nearest`], the
//! Eisel-Lemire algorithm over [`lemire::compute_float_model`], the slow path
//! over the shifts and the rounding of a number with its decimal digits in
//! [`decimal`] and [`slow`], and [`parse_float`] over [`parse_model`], which
//! chains them.
//!
//! That the models round correctly is proved apart from the code.
//! [`lemire_exact`] and [`soundness`] show that a result of the Eisel-Lemire
//! algorithm that is not marked as doubtful is the nearest value, with
//! [`table`] showing what each entry of the table of powers of five is.
//! [`brackets`], [`truncation`] and [`extremes`] show, over the integers
//! of [`units`], that the slow path yields the nearest value, whether its
//! decimal drops digits or not.
//! [`monotone`] shows that rounding keeps the order, which settles the
//! literals of more than 19 digits where the Eisel-Lemire algorithm decides.
//! [`laws`] puts these together into what holds of the conversion as a
//! whole.

use crate::dec2flt::common::Fp;
use crate::dec2flt::decimal::decimal_model;
use crate::dec2flt::float::{encoding, from_parts, RawFloat};
use crate::dec2flt::laws::{lemma_conversion_exact, nearest_bits};
use crate::dec2flt::lemire::{compute_float, compute_float_model};
use crate::dec2flt::number::Number;
use crate::dec2flt::parse::{number_model, parse_inf_nan, parse_number, scan, special_model};
use crate::dec2flt::rounding::nearest;
use crate::dec2flt::slow::{long_mantissa_model, parse_long_mantissa};
use vstd::prelude::*;
use vstd::string::StringSliceAdditionalSpecFns;

pub mod arith;
pub mod brackets;
pub mod common;
pub mod decimal;
pub mod digits;
pub mod extremes;
pub mod float;
pub mod laws;
pub mod lemire;
pub mod lemire_exact;
pub mod monotone;
pub mod number;
pub mod parse;
pub mod rounding;
pub mod shift_table;
pub mod slow;
pub mod soundness;
pub mod table;
pub mod truncation;
pub mod units;

verus! {

/// Why a string is no literal.
#[derive(Debug, Clone, Copy, PartialEq, Eq, Structural)]
pub enum FloatErrorKind {
    /// The string is empty.
    Empty,
    /// The string is not a literal, or goes on after one.
    Invalid,
}

/// An error which can be returned when parsing a float.
#[derive(Debug, Clone, Copy, PartialEq, Eq, Structural)]
pub struct ParseFloatError {
    pub kind: FloatErrorKind,
}

impl ParseFloatError {
    /// What went wrong, in words.
    pub fn __description(&self) -> (r: &'static str)
        ensures
            self.kind == FloatErrorKind::Empty ==> r@ == "cannot parse float from empty string"@,
            self.kind == FloatErrorKind::Invalid ==> r@ == "invalid float literal"@,
    {
        match self.kind {
            FloatErrorKind::Empty => "cannot parse float from empty string",
            FloatErrorKind::Invalid => "invalid float literal",
        }
    }
}

/// The error for an empty string.
pub fn pfe_empty() -> (r: ParseFloatError)
    ensures
        r.kind == FloatErrorKind::Empty,
{
    ParseFloatError { kind: FloatErrorKind::Empty }
}

/// The error for a string that is no literal.
pub fn pfe_invalid() -> (r: ParseFloatError)
    ensures
        r.kind == FloatErrorKind::Invalid,
{
    ParseFloatError { kind: FloatErrorKind::Invalid }
}

/// What the Eisel-Lemire algorithm yields for `number`, with a negative
/// `power2` where its result is not to be trusted: for a significand that
/// was cut, where the result differs from that for the next significand.
pub open spec fn extended_model<F: RawFloat>(number: Number) -> Fp {
    let am = compute_float_model::<F>(number.exponent as int, number.mantissa);
    if number.many_digits && am != compute_float_model::<F>(
        number.exponent as int,
        (number.mantissa + 1) as u64,
    ) {
        Fp { mantissa: am.mantissa, power2: -1i32 }
    } else {
        am
    }
}

/// The encoding of the value of the format `F` that the literal `s` with
/// the number `number` is converted to.
///
/// On the fast path that is the value nearest to the number. Else it is what
/// the Eisel-Lemire algorithm yields, and where that is not to be trusted,
/// what the slow path yields for the digits of `s`.
pub open spec fn number_bits<F: RawFloat>(number: Number, s: Seq<u8>) -> u64 {
    if number.fast_path_applies::<F>() {
        encoding::<F>(nearest::<F>(number.numerator(), number.denominator()), number.negative)
    } else if extended_model::<F>(number).power2 < 0 {
        encoding::<F>(long_mantissa_model::<F>(decimal_model(s)), number.negative)
    } else {
        encoding::<F>(extended_model::<F>(number), number.negative)
    }
}

/// What the string `s` is converted to in the format `F`: the encoding of a
/// value, or the reason why `s` is no literal.
///
/// A literal is a number as [`number_model`] reads it, or a special value
/// as [`special_model`] reads it, and takes the whole of `s`.
pub open spec fn parse_model<F: RawFloat>(s: Seq<u8>) -> Result<u64, FloatErrorKind> {
    if s.len() == 0 {
        Err(FloatErrorKind::Empty)
    } else {
        match number_model(s) {
            Some((number, len)) => if len != s.len() {
                Err(FloatErrorKind::Invalid)
            } else {
                Ok(number_bits::<F>(number, s))
            },
            None => match special_model::<F>(s) {
                Some(bits) => Ok(bits),
                None => Err(FloatErrorKind::Invalid),
            },
        }
    }
}

/// Converts a decimal string into a floating point number.
///
/// The result is what [`parse_model`] says: the value that the chain of
/// the three paths yields for a literal, and an error for every other
/// string. For every literal, that value is the value of the format that is
/// nearest to the number that the literal denotes, with ties going to the
/// even significand.
pub fn parse_float<F: RawFloat>(s: &str) -> (r: Result<F, ParseFloatError>)
    ensures
        match parse_model::<F>(s.spec_bytes()) {
            Ok(bits) => r matches Ok(value) && value.bits() == bits,
            Err(kind) => r matches Err(error) && error.kind == kind,
        },
        scan(s.spec_bytes()).valid() && scan(s.spec_bytes()).end == s.spec_bytes().len() ==> (r
            matches Ok(value) && value.bits() == nearest_bits::<F>(s.spec_bytes())),
{
    let s = s.as_bytes();
    let length = s.len();
    proof {
        assert(s@.len() == length);
        if scan(s@).valid() && scan(s@).end == s@.len() {
            lemma_conversion_exact::<F>(s@);
        }
    }
    if s.is_empty() {
        return Err(pfe_empty());
    }
    let (num, rest) = match parse_number(s) {
        Some(r) => r,
        None => match parse_inf_nan::<F>(s) {
            Some(value) => {
                return Ok(value);
            },
            None => {
                return Err(pfe_invalid());
            },
        },
    };
    if rest != s.len() {
        return Err(pfe_invalid());
    }
    if let Some(value) = num.try_fast_path::<F>() {
        return Ok(value);
    }
    let mut am = compute_float::<F>(num.exponent, num.mantissa);
    if num.many_digits && am != compute_float::<F>(num.exponent, num.mantissa + 1) {
        am.power2 = -1;
    }
    if am.power2 < 0 {
        am = parse_long_mantissa::<F>(s);
    }
    Ok(from_parts::<F>(am, num.negative))
}

} // verus!
