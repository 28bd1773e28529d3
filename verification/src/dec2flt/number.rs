//! The decimal number that the lexer yields, and the fast path for it.

use crate::dec2flt::digits::{lemma_pow10_adds, lemma_pow10_values, pow10};
use crate::dec2flt::float::{encoding, from_parts, lemma_format, RawFloat};
use crate::dec2flt::rounding::{nearest, round_ratio};
use vstd::prelude::*;

verus! {

/// A decimal number `mantissa * 10^exponent`, with a sign.
///
/// Where the literal has more than 19 significant digits, `mantissa` holds
/// the first 19 of them, and `many_digits` tells whether a digit other than
/// zero was dropped: the number that the literal denotes then lies strictly
/// between `mantissa * 10^exponent` and `(mantissa + 1) * 10^exponent`.
#[derive(Clone, Copy, Debug, PartialEq, Eq, Structural)]
pub struct Number {
    pub exponent: i64,
    pub mantissa: u64,
    pub negative: bool,
    pub many_digits: bool,
}

/// The powers of ten that fit into a `u64` with room to spare.
pub const INT_POW10: [u64; 16] = [
    1,
    10,
    100,
    1000,
    10000,
    100000,
    1000000,
    10000000,
    100000000,
    1000000000,
    10000000000,
    100000000000,
    1000000000000,
    10000000000000,
    100000000000000,
    1000000000000000,
];

/// `10^k`, for the exponents of the fast path.
pub fn pow10_wide(k: usize) -> (r: u128)
    requires
        k <= 22,
    ensures
        r == pow10(k as nat),
        1 <= r <= 10_000_000_000_000_000_000_000,
{
    proof {
        lemma_pow10_values();
    }
    if k < 16 {
        INT_POW10[k] as u128
    } else {
        proof {
            lemma_pow10_adds(15, (k - 15) as nat);
        }
        assert(INT_POW10[15] * INT_POW10[k - 15] <= 1_000_000_000_000_000 * 10_000_000)
            by (nonlinear_arith)
            requires
                INT_POW10[15] == 1_000_000_000_000_000,
                INT_POW10[k - 15] <= 10_000_000,
        ;
        (INT_POW10[15] as u128) * (INT_POW10[k - 15] as u128)
    }
}

impl Number {
    /// The number is in the reach of the fast path: a significand that the
    /// format holds exactly, and an exponent so small that a power of ten
    /// which the format holds exactly takes the significand to the number.
    pub open spec fn fast_path_candidate<F: RawFloat>(&self) -> bool {
        &&& F::MIN_EXPONENT_FAST_PATH <= self.exponent
        &&& self.exponent <= F::MAX_EXPONENT_DISGUISED_FAST_PATH
        &&& self.mantissa <= F::MAX_MANTISSA_FAST_PATH
        &&& !self.many_digits
    }

    /// The fast path yields a result: the number is in its reach, and where
    /// the exponent goes beyond the powers of ten that the format holds
    /// exactly, the significand takes the rest of it without leaving the
    /// range that the format holds exactly.
    pub open spec fn fast_path_applies<F: RawFloat>(&self) -> bool {
        &&& self.fast_path_candidate::<F>()
        &&& self.exponent > F::MAX_EXPONENT_FAST_PATH ==> self.mantissa * pow10(
            (self.exponent - F::MAX_EXPONENT_FAST_PATH) as nat,
        ) <= F::MAX_MANTISSA_FAST_PATH
    }

    /// The numerator of `mantissa * 10^exponent`.
    pub open spec fn numerator(&self) -> nat {
        if self.exponent >= 0 {
            self.mantissa as nat * pow10(self.exponent as nat)
        } else {
            self.mantissa as nat
        }
    }

    /// The denominator of `mantissa * 10^exponent`.
    pub open spec fn denominator(&self) -> nat {
        if self.exponent >= 0 {
            1
        } else {
            pow10((-self.exponent) as nat)
        }
    }

    /// Whether the number is in the reach of the fast path.
    pub fn is_fast_path<F: RawFloat>(&self) -> (r: bool)
        ensures
            r == self.fast_path_candidate::<F>(),
    {
        F::MIN_EXPONENT_FAST_PATH <= self.exponent && self.exponent
            <= F::MAX_EXPONENT_DISGUISED_FAST_PATH && self.mantissa <= F::MAX_MANTISSA_FAST_PATH
            && !self.many_digits
    }

    /// The fast path: the value of the format that is nearest to
    /// `mantissa * 10^exponent`, for a number whose significand and power of
    /// ten the format holds exactly.
    ///
    /// The product or quotient of the two is rounded once, to nearest with
    /// ties to even, as one multiplication or division in the format
    /// rounds.
    pub fn try_fast_path<F: RawFloat>(&self) -> (r: Option<F>)
        ensures
            r.is_some() == self.fast_path_applies::<F>(),
            r matches Some(value) ==> value.bits() == encoding::<F>(
                nearest::<F>(self.numerator(), self.denominator()),
                self.negative,
            ),
    {
        proof {
            lemma_format::<F>();
            lemma_pow10_values();
        }
        if self.is_fast_path::<F>() {
            let fp = if self.exponent <= F::MAX_EXPONENT_FAST_PATH {
                // normal fast path
                if self.exponent < 0 {
                    round_ratio::<F>(self.mantissa as u128, pow10_wide((-self.exponent) as usize))
                } else {
                    let scale = pow10_wide(self.exponent as usize);
                    assert(self.mantissa * scale <= 0x20_0000_0000_0000
                        * 10_000_000_000_000_000_000_000) by (nonlinear_arith)
                        requires
                            self.mantissa <= 0x20_0000_0000_0000,
                            scale <= 10_000_000_000_000_000_000_000,
                    ;
                    round_ratio::<F>(self.mantissa as u128 * scale, 1)
                }
            } else {
                // disguised fast path
                let shift = self.exponent - F::MAX_EXPONENT_FAST_PATH;
                let mantissa = match self.mantissa.checked_mul(INT_POW10[shift as usize]) {
                    Some(mantissa) => mantissa,
                    None => {
                        return None;
                    },
                };
                if mantissa > F::MAX_MANTISSA_FAST_PATH {
                    return None;
                }
                let scale = pow10_wide(F::MAX_EXPONENT_FAST_PATH as usize);
                proof {
                    lemma_pow10_adds(shift as nat, F::MAX_EXPONENT_FAST_PATH as nat);
                    assert(self.mantissa as nat * pow10(self.exponent as nat) == mantissa as nat
                        * pow10(F::MAX_EXPONENT_FAST_PATH as nat)) by (nonlinear_arith)
                        requires
                            mantissa as nat == self.mantissa as nat * pow10(shift as nat),
                            pow10(self.exponent as nat) == pow10(shift as nat) * pow10(
                                F::MAX_EXPONENT_FAST_PATH as nat,
                            ),
                    ;
                }
                assert(mantissa * scale <= 0x20_0000_0000_0000 * 10_000_000_000_000_000_000_000)
                    by (nonlinear_arith)
                    requires
                        mantissa <= 0x20_0000_0000_0000,
                        scale <= 10_000_000_000_000_000_000_000,
                ;
                round_ratio::<F>(mantissa as u128 * scale, 1)
            };
            Some(from_parts::<F>(fp, self.negative))
        } else {
            None
        }
    }
}

} // verus!
