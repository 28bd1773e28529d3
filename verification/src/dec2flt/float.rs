//! The two supported binary formats and their constants.

use crate::dec2flt::common::Fp;
use vstd::arithmetic::power2::pow2;
use vstd::prelude::*;

verus! {

/// The constants of a binary interchange format, and the construction of a
/// value of the format from its encoding.
///
/// A value of an implementing type is an IEEE 754 encoding: `bits()` is the
/// bit pattern, held in the low bits of a `u64`. Only the two formats
/// [`Binary32`] and [`Binary64`] implement this trait, and
/// `lemma_supported_format` records that fact for generic code.
pub trait RawFloat: Sized + Copy {
    /// Encoding of positive infinity.
    const INFINITY: u64;

    /// Encoding of negative infinity.
    const NEG_INFINITY: u64;

    /// Encoding of the canonical quiet NaN.
    const NAN: u64;

    /// Encoding of the canonical quiet NaN with the sign bit set.
    const NEG_NAN: u64;

    /// The number of bits in the significand, *excluding* the hidden bit.
    const MANTISSA_EXPLICIT_BITS: usize;

    /// Smallest decimal exponent `q` for which `w * 10^q` can be an exact tie.
    const MIN_EXPONENT_ROUND_TO_EVEN: i32;

    /// Largest decimal exponent `q` for which `w * 10^q` can be an exact tie.
    const MAX_EXPONENT_ROUND_TO_EVEN: i32;

    /// Minimum decimal exponent of the fast path.
    const MIN_EXPONENT_FAST_PATH: i64;

    /// Maximum decimal exponent of the fast path: the largest power of ten
    /// that the format represents exactly.
    const MAX_EXPONENT_FAST_PATH: i64;

    /// Maximum decimal exponent of the disguised fast path.
    const MAX_EXPONENT_DISGUISED_FAST_PATH: i64;

    /// The exponent bias, negated: `-((1 << (EXP_BITS - 1)) - 1)`.
    const MINIMUM_EXPONENT: i32;

    /// The biased exponent of infinities and NaNs: `(1 << EXP_BITS) - 1`.
    const INFINITE_POWER: i32;

    /// Index (in bits) of the sign.
    const SIGN_INDEX: usize;

    /// Smallest decimal exponent for a non-zero value.
    const SMALLEST_POWER_OF_TEN: i32;

    /// Largest decimal exponent for a non-infinite value.
    const LARGEST_POWER_OF_TEN: i32;

    /// Largest significand of the fast path: `2^(MANTISSA_EXPLICIT_BITS + 1)`.
    const MAX_MANTISSA_FAST_PATH: u64;

    /// The encoding of this value.
    spec fn bits(self) -> u64;

    /// The value with the encoding `v`, of which only the low
    /// `SIGN_INDEX + 1` bits count.
    fn from_u64_bits(v: u64) -> (r: Self)
        ensures
            r.bits() as nat == v as nat % vstd::arithmetic::power2::pow2(
                (Self::SIGN_INDEX + 1) as nat,
            ),
    ;

    /// The encoding of this value.
    fn to_u64_bits(self) -> (r: u64)
        ensures
            r == self.bits(),
    ;

    /// The constants are those of binary32 or those of binary64: the two
    /// formats that this library supports.
    proof fn lemma_supported_format()
        ensures
            ({
                &&& Self::INFINITY == 0x7F80_0000
                &&& Self::NEG_INFINITY == 0xFF80_0000
                &&& Self::NAN == 0x7FC0_0000
                &&& Self::NEG_NAN == 0xFFC0_0000
                &&& Self::MANTISSA_EXPLICIT_BITS == 23
                &&& Self::MIN_EXPONENT_ROUND_TO_EVEN == -17
                &&& Self::MAX_EXPONENT_ROUND_TO_EVEN == 10
                &&& Self::MIN_EXPONENT_FAST_PATH == -10
                &&& Self::MAX_EXPONENT_FAST_PATH == 10
                &&& Self::MAX_EXPONENT_DISGUISED_FAST_PATH == 17
                &&& Self::MINIMUM_EXPONENT == -127
                &&& Self::INFINITE_POWER == 0xFF
                &&& Self::SIGN_INDEX == 31
                &&& Self::SMALLEST_POWER_OF_TEN == -65
                &&& Self::LARGEST_POWER_OF_TEN == 38
                &&& Self::MAX_MANTISSA_FAST_PATH == 0x100_0000
            }) || ({
                &&& Self::INFINITY == 0x7FF0_0000_0000_0000
                &&& Self::NEG_INFINITY == 0xFFF0_0000_0000_0000
                &&& Self::NAN == 0x7FF8_0000_0000_0000
                &&& Self::NEG_NAN == 0xFFF8_0000_0000_0000
                &&& Self::MANTISSA_EXPLICIT_BITS == 52
                &&& Self::MIN_EXPONENT_ROUND_TO_EVEN == -4
                &&& Self::MAX_EXPONENT_ROUND_TO_EVEN == 23
                &&& Self::MIN_EXPONENT_FAST_PATH == -22
                &&& Self::MAX_EXPONENT_FAST_PATH == 22
                &&& Self::MAX_EXPONENT_DISGUISED_FAST_PATH == 37
                &&& Self::MINIMUM_EXPONENT == -1023
                &&& Self::INFINITE_POWER == 0x7FF
                &&& Self::SIGN_INDEX == 63
                &&& Self::SMALLEST_POWER_OF_TEN == -342
                &&& Self::LARGEST_POWER_OF_TEN == 308
                &&& Self::MAX_MANTISSA_FAST_PATH == 0x20_0000_0000_0000
            }),
    ;
}

/// The constants of `F` are those of one of the two supported formats.
pub proof fn lemma_format<F: RawFloat>()
    ensures
        is_binary32::<F>() || is_binary64::<F>(),
{
    F::lemma_supported_format();
}

/// The constants of [`Binary32`] are those of IEEE 754 binary32.
pub proof fn lemma_binary32()
    ensures
        is_binary32::<Binary32>(),
{
}

/// The constants of [`Binary64`] are those of IEEE 754 binary64.
pub proof fn lemma_binary64()
    ensures
        is_binary64::<Binary64>(),
{
}

/// The constants of `F` are those of IEEE 754 binary32.
pub open spec fn is_binary32<F: RawFloat>() -> bool {
    &&& F::INFINITY == 0x7F80_0000
    &&& F::NEG_INFINITY == 0xFF80_0000
    &&& F::NAN == 0x7FC0_0000
    &&& F::NEG_NAN == 0xFFC0_0000
    &&& F::MANTISSA_EXPLICIT_BITS == 23
    &&& F::MIN_EXPONENT_ROUND_TO_EVEN == -17
    &&& F::MAX_EXPONENT_ROUND_TO_EVEN == 10
    &&& F::MIN_EXPONENT_FAST_PATH == -10
    &&& F::MAX_EXPONENT_FAST_PATH == 10
    &&& F::MAX_EXPONENT_DISGUISED_FAST_PATH == 17
    &&& F::MINIMUM_EXPONENT == -127
    &&& F::INFINITE_POWER == 0xFF
    &&& F::SIGN_INDEX == 31
    &&& F::SMALLEST_POWER_OF_TEN == -65
    &&& F::LARGEST_POWER_OF_TEN == 38
    &&& F::MAX_MANTISSA_FAST_PATH == 0x100_0000
}

/// The constants of `F` are those of IEEE 754 binary64.
pub open spec fn is_binary64<F: RawFloat>() -> bool {
    &&& F::INFINITY == 0x7FF0_0000_0000_0000
    &&& F::NEG_INFINITY == 0xFFF0_0000_0000_0000
    &&& F::NAN == 0x7FF8_0000_0000_0000
    &&& F::NEG_NAN == 0xFFF8_0000_0000_0000
    &&& F::MANTISSA_EXPLICIT_BITS == 52
    &&& F::MIN_EXPONENT_ROUND_TO_EVEN == -4
    &&& F::MAX_EXPONENT_ROUND_TO_EVEN == 23
    &&& F::MIN_EXPONENT_FAST_PATH == -22
    &&& F::MAX_EXPONENT_FAST_PATH == 22
    &&& F::MAX_EXPONENT_DISGUISED_FAST_PATH == 37
    &&& F::MINIMUM_EXPONENT == -1023
    &&& F::INFINITE_POWER == 0x7FF
    &&& F::SIGN_INDEX == 63
    &&& F::SMALLEST_POWER_OF_TEN == -342
    &&& F::LARGEST_POWER_OF_TEN == 308
    &&& F::MAX_MANTISSA_FAST_PATH == 0x20_0000_0000_0000
}

/// An IEEE 754 binary32 value, held as its encoding.
#[derive(Clone, Copy, Debug, PartialEq, Eq)]
pub struct Binary32 {
    pub bits: u32,
}

/// An IEEE 754 binary64 value, held as its encoding.
#[derive(Clone, Copy, Debug, PartialEq, Eq)]
pub struct Binary64 {
    pub bits: u64,
}

impl Binary32 {
    /// The value with the encoding `bits`.
    pub fn from_bits(bits: u32) -> (r: Self)
        ensures
            r.bits == bits,
    {
        Binary32 { bits }
    }

    /// The encoding of this value.
    pub fn to_bits(self) -> (r: u32)
        ensures
            r == self.bits,
    {
        self.bits
    }
}

impl Binary64 {
    /// The value with the encoding `bits`.
    pub fn from_bits(bits: u64) -> (r: Self)
        ensures
            r.bits == bits,
    {
        Binary64 { bits }
    }

    /// The encoding of this value.
    pub fn to_bits(self) -> (r: u64)
        ensures
            r == self.bits,
    {
        self.bits
    }
}

impl RawFloat for Binary32 {
    const INFINITY: u64 = 0x7F80_0000;

    const NEG_INFINITY: u64 = 0xFF80_0000;

    const NAN: u64 = 0x7FC0_0000;

    const NEG_NAN: u64 = 0xFFC0_0000;

    const MANTISSA_EXPLICIT_BITS: usize = 23;

    const MIN_EXPONENT_ROUND_TO_EVEN: i32 = -17;

    const MAX_EXPONENT_ROUND_TO_EVEN: i32 = 10;

    const MIN_EXPONENT_FAST_PATH: i64 = -10;

    const MAX_EXPONENT_FAST_PATH: i64 = 10;

    const MAX_EXPONENT_DISGUISED_FAST_PATH: i64 = 17;

    const MINIMUM_EXPONENT: i32 = -127;

    const INFINITE_POWER: i32 = 0xFF;

    const SIGN_INDEX: usize = 31;

    const SMALLEST_POWER_OF_TEN: i32 = -65;

    const LARGEST_POWER_OF_TEN: i32 = 38;

    const MAX_MANTISSA_FAST_PATH: u64 = 0x100_0000;

    open spec fn bits(self) -> u64 {
        self.bits as u64
    }

    fn from_u64_bits(v: u64) -> (r: Self) {
        proof {
            vstd::arithmetic::power2::lemma2_to64();
        }
        Binary32 { bits: (v % 0x1_0000_0000) as u32 }
    }

    fn to_u64_bits(self) -> (r: u64) {
        self.bits as u64
    }

    proof fn lemma_supported_format() {
    }
}

impl RawFloat for Binary64 {
    const INFINITY: u64 = 0x7FF0_0000_0000_0000;

    const NEG_INFINITY: u64 = 0xFFF0_0000_0000_0000;

    const NAN: u64 = 0x7FF8_0000_0000_0000;

    const NEG_NAN: u64 = 0xFFF8_0000_0000_0000;

    const MANTISSA_EXPLICIT_BITS: usize = 52;

    const MIN_EXPONENT_ROUND_TO_EVEN: i32 = -4;

    const MAX_EXPONENT_ROUND_TO_EVEN: i32 = 23;

    const MIN_EXPONENT_FAST_PATH: i64 = -22;

    const MAX_EXPONENT_FAST_PATH: i64 = 22;

    const MAX_EXPONENT_DISGUISED_FAST_PATH: i64 = 37;

    const MINIMUM_EXPONENT: i32 = -1023;

    const INFINITE_POWER: i32 = 0x7FF;

    const SIGN_INDEX: usize = 63;

    const SMALLEST_POWER_OF_TEN: i32 = -342;

    const LARGEST_POWER_OF_TEN: i32 = 308;

    const MAX_MANTISSA_FAST_PATH: u64 = 0x20_0000_0000_0000;

    open spec fn bits(self) -> u64 {
        self.bits
    }

    fn from_u64_bits(v: u64) -> (r: Self) {
        proof {
            vstd::arithmetic::power2::lemma2_to64();
            vstd::arithmetic::power2::lemma2_to64_rest();
            assert(vstd::arithmetic::power2::pow2(64) == 0x1_0000_0000_0000_0000);
            vstd::arithmetic::div_mod::lemma_small_mod(
                v as nat,
                vstd::arithmetic::power2::pow2(64),
            );
        }
        Binary64 { bits: v }
    }

    fn to_u64_bits(self) -> (r: u64) {
        self.bits
    }

    proof fn lemma_supported_format() {
    }
}

/// The encoding that holds the significand field `fp.mantissa`, the
/// exponent field `fp.power2` and the sign: the three are laid over each
/// other at their places, and what lies beyond the sign bit is dropped.
pub open spec fn encoding<F: RawFloat>(fp: Fp, negative: bool) -> u64 {
    let word = fp.mantissa | ((fp.power2 as u64) << F::MANTISSA_EXPLICIT_BITS);
    let signed = if negative {
        word | (1u64 << F::SIGN_INDEX)
    } else {
        word
    };
    (signed as nat % pow2((F::SIGN_INDEX + 1) as nat)) as u64
}

/// Fields that fit their places: a significand below `2^bits`, and an
/// exponent from zero to the exponent of infinity.
pub open spec fn fields_fit<F: RawFloat>(fp: Fp) -> bool {
    &&& fp.mantissa < pow2(F::MANTISSA_EXPLICIT_BITS as nat)
    &&& 0 <= fp.power2 <= F::INFINITE_POWER
}

/// The encoding as a sum: for fields that fit their places, laying them
/// over each other adds them up.
pub open spec fn encoding_sum<F: RawFloat>(fp: Fp, negative: bool) -> nat {
    (fp.mantissa + fp.power2 * pow2(F::MANTISSA_EXPLICIT_BITS as nat) + if negative {
        pow2(F::SIGN_INDEX as nat)
    } else {
        0
    }) as nat
}

/// For fields that fit their places, the encoding is their sum.
pub proof fn lemma_encoding<F: RawFloat>(fp: Fp, negative: bool)
    requires
        fields_fit::<F>(fp),
    ensures
        encoding::<F>(fp, negative) == encoding_sum::<F>(fp, negative),
{
    lemma_format::<F>();
    vstd::arithmetic::power2::lemma2_to64();
    vstd::arithmetic::power2::lemma2_to64_rest();
    let m = fp.mantissa;
    let p = fp.power2 as u64;
    if F::MANTISSA_EXPLICIT_BITS == 52 {
        assert((m | (p << 52)) == m + p * 0x10_0000_0000_0000 && ((m | (p << 52)) | (1u64 << 63))
            == m + p * 0x10_0000_0000_0000 + 0x8000_0000_0000_0000) by (bit_vector)
            requires
                m < 0x10_0000_0000_0000,
                p <= 0x7FF,
        ;
        let word = m | (p << 52);
        vstd::arithmetic::div_mod::lemma_small_mod(word as nat, pow2(64));
        vstd::arithmetic::div_mod::lemma_small_mod((word | (1u64 << 63)) as nat, pow2(64));
    } else {
        assert((m | (p << 23)) == m + p * 0x80_0000 && ((m | (p << 23)) | (1u64 << 31)) == m + p
            * 0x80_0000 + 0x8000_0000) by (bit_vector)
            requires
                m < 0x80_0000,
                p <= 0xFF,
        ;
        let word = m | (p << 23);
        vstd::arithmetic::div_mod::lemma_small_mod(word as nat, pow2(32));
        vstd::arithmetic::div_mod::lemma_small_mod((word | (1u64 << 31)) as nat, pow2(32));
    }
}

/// The value of the format `F` with the significand field `fp.mantissa`,
/// the exponent field `fp.power2`, and the sign.
pub fn from_parts<F: RawFloat>(fp: Fp, negative: bool) -> (r: F)
    requires
        fp.power2 >= 0,
    ensures
        r.bits() == encoding::<F>(fp, negative),
{
    proof {
        lemma_format::<F>();
    }
    let mut word = fp.mantissa;
    word |= (fp.power2 as u64) << F::MANTISSA_EXPLICIT_BITS;
    if negative {
        word |= 1_u64 << F::SIGN_INDEX;
    }
    F::from_u64_bits(word)
}

/// Two pairs of fields that make the same encoding, with either sign.
pub open spec fn same_encoding<F: RawFloat>(a: Fp, b: Fp) -> bool {
    encoding::<F>(a, false) == encoding::<F>(b, false) && encoding::<F>(a, true) == encoding::<F>(
        b,
        true,
    )
}

/// The smallest normal number has one encoding, whether its hidden bit is
/// left in the significand field or not.
pub proof fn lemma_hidden_bit<F: RawFloat>()
    ensures
        same_encoding::<F>(
            Fp { mantissa: pow2(F::MANTISSA_EXPLICIT_BITS as nat) as u64, power2: 1 },
            Fp { mantissa: 0, power2: 1 },
        ),
{
    lemma_format::<F>();
    vstd::arithmetic::power2::lemma2_to64();
    vstd::arithmetic::power2::lemma2_to64_rest();
    if F::MANTISSA_EXPLICIT_BITS == 52 {
        assert(0x10_0000_0000_0000u64 | (1u64 << 52) == 0u64 | (1u64 << 52)) by (bit_vector);
    } else {
        assert(0x80_0000u64 | (1u64 << 23) == 0u64 | (1u64 << 23)) by (bit_vector);
    }
}

} // verus!
