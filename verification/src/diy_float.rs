//! Extended precision "soft float".

use crate::dec2flt::arith::{lemma_normalize_word, lemma_shr};
use vstd::arithmetic::power2::{lemma2_to64, lemma_pow2_pos, pow2};
use vstd::bits::{lemma_low_bits_mask_values, lemma_u64_low_bits_mask_is_mod, lemma_u64_shl_is_mul};
use vstd::prelude::*;
use vstd::std_specs::bits::u64_leading_zeros;

verus! {

/// A custom 64-bit floating point type, representing `f * 2^e`.
#[derive(Copy, Clone, Debug)]
pub struct Fp {
    /// The integer mantissa.
    pub f: u64,
    /// The exponent in base 2.
    pub e: i16,
}

/// The count of leading zeros of `f`, but at most 63: the shift that
/// [`Fp::normalize`] makes.
pub open spec fn normalizing_shift(f: u64) -> int {
    if u64_leading_zeros(f) > 63 {
        63
    } else {
        u64_leading_zeros(f)
    }
}

/// The product of two words by their halves: the upper word of the product,
/// rounded, is the sum that [`Fp::mul`] computes.
proof fn lemma_mul_halves(
    a: nat,
    b: nat,
    c: nat,
    d: nat,
    ad_h: nat,
    ad_l: nat,
    bc_h: nat,
    bc_l: nat,
    bd_h: nat,
    bd_l: nat,
    t_h: nat,
    t_l: nat,
)
    requires
        a * d == ad_h * 0x1_0000_0000 + ad_l,
        b * c == bc_h * 0x1_0000_0000 + bc_l,
        b * d == bd_h * 0x1_0000_0000 + bd_l,
        bd_h + ad_l + bc_l + 0x8000_0000 == t_h * 0x1_0000_0000 + t_l,
        t_l < 0x1_0000_0000,
        bd_l < 0x1_0000_0000,
    ensures
        ((a * 0x1_0000_0000 + b) * (c * 0x1_0000_0000 + d) + 0x8000_0000_0000_0000)
            / 0x1_0000_0000_0000_0000 == a * c + ad_h + bc_h + t_h,
{
    let x = (a * 0x1_0000_0000 + b) * (c * 0x1_0000_0000 + d) + 0x8000_0000_0000_0000;
    let q = a * c + ad_h + bc_h + t_h;
    let r = t_l * 0x1_0000_0000 + bd_l;
    assert((a * 0x1_0000_0000 + b) * (c * 0x1_0000_0000 + d) == (a * c) * 0x1_0000_0000_0000_0000
        + (a * d + b * c) * 0x1_0000_0000 + b * d) by (nonlinear_arith);
    assert(x == 0x1_0000_0000_0000_0000 * q + r) by (nonlinear_arith)
        requires
            x == (a * c) * 0x1_0000_0000_0000_0000 + (a * d + b * c) * 0x1_0000_0000 + b * d
                + 0x8000_0000_0000_0000,
            a * d == ad_h * 0x1_0000_0000 + ad_l,
            b * c == bc_h * 0x1_0000_0000 + bc_l,
            b * d == bd_h * 0x1_0000_0000 + bd_l,
            bd_h + ad_l + bc_l + 0x8000_0000 == t_h * 0x1_0000_0000 + t_l,
            q == a * c + ad_h + bc_h + t_h,
            r == t_l * 0x1_0000_0000 + bd_l,
    ;
    vstd::arithmetic::div_mod::lemma_fundamental_div_mod_converse(
        x as int,
        0x1_0000_0000_0000_0000,
        q as int,
        r as int,
    );
}

impl Fp {
    /// Returns a correctly rounded product of itself and `other`: the upper
    /// 64 bits of the product of the two mantissas, plus one where the bit
    /// below them is set.
    pub fn mul(&self, other: &Fp) -> (r: Fp)
        requires
            i16::MIN <= self.e + other.e,
            self.e + other.e + 64 <= i16::MAX,
        ensures
            r.f == (self.f as nat * other.f as nat + 0x8000_0000_0000_0000)
                / 0x1_0000_0000_0000_0000,
            r.e == self.e + other.e + 64,
    {
        let mask: u64 = 0xffffffff;
        proof {
            lemma2_to64();
            lemma_low_bits_mask_values();
            lemma_shr(self.f, 32);
            lemma_shr(other.f, 32);
            lemma_u64_low_bits_mask_is_mod(self.f, 32);
            lemma_u64_low_bits_mask_is_mod(other.f, 32);
        }
        let a = self.f >> 32;
        let b = self.f & mask;
        let c = other.f >> 32;
        let d = other.f & mask;
        assert(a * c <= 0xffff_ffff * 0xffff_ffff && b * c <= 0xffff_ffff * 0xffff_ffff && a * d
            <= 0xffff_ffff * 0xffff_ffff && b * d <= 0xffff_ffff * 0xffff_ffff)
            by (nonlinear_arith)
            requires
                a <= 0xffff_ffff,
                b <= 0xffff_ffff,
                c <= 0xffff_ffff,
                d <= 0xffff_ffff,
        ;
        let ac = a * c;
        let bc = b * c;
        let ad = a * d;
        let bd = b * d;
        proof {
            lemma_shr(bd, 32);
            lemma_shr(ad, 32);
            lemma_shr(bc, 32);
            lemma_u64_low_bits_mask_is_mod(ad, 32);
            lemma_u64_low_bits_mask_is_mod(bc, 32);
            vstd::bits::lemma_u64_shl_is_mul(1, 31);
        }
        let tmp = (bd >> 32) + (ad & mask) + (bc & mask) + (1 << 31);
        proof {
            lemma_shr(tmp, 32);
            lemma_mul_halves(
                a as nat,
                b as nat,
                c as nat,
                d as nat,
                (ad >> 32) as nat,
                (ad & mask) as nat,
                (bc >> 32) as nat,
                (bc & mask) as nat,
                (bd >> 32) as nat,
                (bd % 0x1_0000_0000) as nat,
                (tmp >> 32) as nat,
                (tmp % 0x1_0000_0000) as nat,
            );
            assert(self.f as nat * other.f as nat <= 0xffff_ffff_ffff_ffff * 0xffff_ffff_ffff_ffff)
                by (nonlinear_arith);
        }
        let f = ac + (ad >> 32) + (bc >> 32) + (tmp >> 32);
        let e = self.e + other.e + 64;
        Fp { f, e }
    }

    /// Normalizes itself so that the resulting mantissa is at least `2^63`,
    /// and tells by how many bits the mantissa was shifted. A mantissa of
    /// zero stays zero.
    pub fn normalize(&self) -> (r: (Fp, i16))
        requires
            self.e - normalizing_shift(self.f) >= i16::MIN,
        ensures
            r.1 == normalizing_shift(self.f),
            r.0.f == self.f * pow2(r.1 as nat),
            r.0.e == self.e - r.1,
            self.f != 0 ==> r.0.f >= 0x8000_0000_0000_0000,
    {
        let mut f = self.f;
        let mut e = self.e;
        // Max at 63, since we have 64 leading 0s if we have a 0.
        let lz = f.leading_zeros();
        let ctlz = if lz > 63 {
            63i16
        } else {
            lz as i16
        };
        proof {
            vstd::std_specs::bits::axiom_u64_leading_zeros(f);
            if f != 0 {
                lemma_normalize_word(f);
            } else {
                lemma_pow2_pos(63);
                lemma_u64_shl_is_mul(0, 63);
            }
        }
        f <<= ctlz;
        e -= ctlz;
        (Fp { f, e }, ctlz)
    }

    /// Normalizes itself to have the shared exponent.
    /// It can only decrease the exponent (and thus increase the mantissa).
    pub fn normalize_to(&self, e: i16) -> (r: Fp)
        requires
            0 <= self.e - e < 64,
            self.f * pow2((self.e - e) as nat) <= u64::MAX,
        ensures
            r.f == self.f * pow2((self.e - e) as nat),
            r.e == e,
    {
        let edelta = self.e - e;
        let edelta = edelta as usize;
        proof {
            lemma_u64_shl_is_mul(self.f, edelta as u64);
        }
        Fp { f: self.f << edelta, e }
    }
}

} // verus!
