//! The tables behind [`Decimal::left_shift`](crate::dec2flt::decimal::Decimal::left_shift):
//! how many digits a multiplication by a power of two adds, and the digits of
//! the powers of five that decide it.

use crate::dec2flt::digits::{all_digits, digits_nat, lemma_pow10_values, lemma_pow5, pow10, pow5};
use vstd::arithmetic::power2::{lemma2_to64, lemma2_to64_rest, pow2};
use vstd::prelude::*;

verus! {

/// For each shift `s` up to 60, two numbers packed into one word. The upper
/// five bits hold the number of decimal digits of `2^s`, which is the largest
/// number of digits that a multiplication by `2^s` adds. The lower eleven bits
/// hold the index in [`LEFT_SHIFT_POW5`] at which the digits of `5^s` start;
/// they end where those of `5^(s + 1)` start.
pub const LEFT_SHIFT_TABLE: [u16; 65] = [
    0x0000, 0x0800, 0x0801, 0x0803, 0x1006, 0x1009, 0x100D, 0x1812,
    0x1817, 0x181D, 0x2024, 0x202B, 0x2033, 0x203C, 0x2846, 0x2850,
    0x285B, 0x3067, 0x3073, 0x3080, 0x388E, 0x389C, 0x38AB, 0x38BB,
    0x40CC, 0x40DD, 0x40EF, 0x4902, 0x4915, 0x4929, 0x513E, 0x5153,
    0x5169, 0x5180, 0x5998, 0x59B0, 0x59C9, 0x61E3, 0x61FD, 0x6218,
    0x6A34, 0x6A50, 0x6A6D, 0x6A8B, 0x72AA, 0x72C9, 0x72E9, 0x7B0A,
    0x7B2B, 0x7B4D, 0x8370, 0x8393, 0x83B7, 0x83DC, 0x8C02, 0x8C28,
    0x8C4F, 0x9477, 0x949F, 0x94C8, 0x9CF2, 0x051C, 0x051C, 0x051C,
    0x051C,
];

/// The decimal digits of `5^1`, `5^2`, ... `5^60`, one after the other.
pub const LEFT_SHIFT_POW5: [u8; 1308] = [
    5, 2, 5, 1, 2, 5, 6, 2, 5, 3, 1, 2, 5, 1, 5, 6, 2, 5, 7, 8, 1, 2, 5, 3, 9, 0, 6, 2, 5, 1, 9, 5,
    3, 1, 2, 5, 9, 7, 6, 5, 6, 2, 5, 4, 8, 8, 2, 8, 1, 2, 5, 2, 4, 4, 1, 4, 0, 6, 2, 5, 1, 2, 2, 0,
    7, 0, 3, 1, 2, 5, 6, 1, 0, 3, 5, 1, 5, 6, 2, 5, 3, 0, 5, 1, 7, 5, 7, 8, 1, 2, 5, 1, 5, 2, 5, 8,
    7, 8, 9, 0, 6, 2, 5, 7, 6, 2, 9, 3, 9, 4, 5, 3, 1, 2, 5, 3, 8, 1, 4, 6, 9, 7, 2, 6, 5, 6, 2, 5,
    1, 9, 0, 7, 3, 4, 8, 6, 3, 2, 8, 1, 2, 5, 9, 5, 3, 6, 7, 4, 3, 1, 6, 4, 0, 6, 2, 5, 4, 7, 6, 8,
    3, 7, 1, 5, 8, 2, 0, 3, 1, 2, 5, 2, 3, 8, 4, 1, 8, 5, 7, 9, 1, 0, 1, 5, 6, 2, 5, 1, 1, 9, 2, 0,
    9, 2, 8, 9, 5, 5, 0, 7, 8, 1, 2, 5, 5, 9, 6, 0, 4, 6, 4, 4, 7, 7, 5, 3, 9, 0, 6, 2, 5, 2, 9, 8,
    0, 2, 3, 2, 2, 3, 8, 7, 6, 9, 5, 3, 1, 2, 5, 1, 4, 9, 0, 1, 1, 6, 1, 1, 9, 3, 8, 4, 7, 6, 5, 6,
    2, 5, 7, 4, 5, 0, 5, 8, 0, 5, 9, 6, 9, 2, 3, 8, 2, 8, 1, 2, 5, 3, 7, 2, 5, 2, 9, 0, 2, 9, 8, 4,
    6, 1, 9, 1, 4, 0, 6, 2, 5, 1, 8, 6, 2, 6, 4, 5, 1, 4, 9, 2, 3, 0, 9, 5, 7, 0, 3, 1, 2, 5, 9, 3,
    1, 3, 2, 2, 5, 7, 4, 6, 1, 5, 4, 7, 8, 5, 1, 5, 6, 2, 5, 4, 6, 5, 6, 6, 1, 2, 8, 7, 3, 0, 7, 7,
    3, 9, 2, 5, 7, 8, 1, 2, 5, 2, 3, 2, 8, 3, 0, 6, 4, 3, 6, 5, 3, 8, 6, 9, 6, 2, 8, 9, 0, 6, 2, 5,
    1, 1, 6, 4, 1, 5, 3, 2, 1, 8, 2, 6, 9, 3, 4, 8, 1, 4, 4, 5, 3, 1, 2, 5, 5, 8, 2, 0, 7, 6, 6, 0,
    9, 1, 3, 4, 6, 7, 4, 0, 7, 2, 2, 6, 5, 6, 2, 5, 2, 9, 1, 0, 3, 8, 3, 0, 4, 5, 6, 7, 3, 3, 7, 0,
    3, 6, 1, 3, 2, 8, 1, 2, 5, 1, 4, 5, 5, 1, 9, 1, 5, 2, 2, 8, 3, 6, 6, 8, 5, 1, 8, 0, 6, 6, 4, 0,
    6, 2, 5, 7, 2, 7, 5, 9, 5, 7, 6, 1, 4, 1, 8, 3, 4, 2, 5, 9, 0, 3, 3, 2, 0, 3, 1, 2, 5, 3, 6, 3,
    7, 9, 7, 8, 8, 0, 7, 0, 9, 1, 7, 1, 2, 9, 5, 1, 6, 6, 0, 1, 5, 6, 2, 5, 1, 8, 1, 8, 9, 8, 9, 4,
    0, 3, 5, 4, 5, 8, 5, 6, 4, 7, 5, 8, 3, 0, 0, 7, 8, 1, 2, 5, 9, 0, 9, 4, 9, 4, 7, 0, 1, 7, 7, 2,
    9, 2, 8, 2, 3, 7, 9, 1, 5, 0, 3, 9, 0, 6, 2, 5, 4, 5, 4, 7, 4, 7, 3, 5, 0, 8, 8, 6, 4, 6, 4, 1,
    1, 8, 9, 5, 7, 5, 1, 9, 5, 3, 1, 2, 5, 2, 2, 7, 3, 7, 3, 6, 7, 5, 4, 4, 3, 2, 3, 2, 0, 5, 9, 4,
    7, 8, 7, 5, 9, 7, 6, 5, 6, 2, 5, 1, 1, 3, 6, 8, 6, 8, 3, 7, 7, 2, 1, 6, 1, 6, 0, 2, 9, 7, 3, 9,
    3, 7, 9, 8, 8, 2, 8, 1, 2, 5, 5, 6, 8, 4, 3, 4, 1, 8, 8, 6, 0, 8, 0, 8, 0, 1, 4, 8, 6, 9, 6, 8,
    9, 9, 4, 1, 4, 0, 6, 2, 5, 2, 8, 4, 2, 1, 7, 0, 9, 4, 3, 0, 4, 0, 4, 0, 0, 7, 4, 3, 4, 8, 4, 4,
    9, 7, 0, 7, 0, 3, 1, 2, 5, 1, 4, 2, 1, 0, 8, 5, 4, 7, 1, 5, 2, 0, 2, 0, 0, 3, 7, 1, 7, 4, 2, 2,
    4, 8, 5, 3, 5, 1, 5, 6, 2, 5, 7, 1, 0, 5, 4, 2, 7, 3, 5, 7, 6, 0, 1, 0, 0, 1, 8, 5, 8, 7, 1, 1,
    2, 4, 2, 6, 7, 5, 7, 8, 1, 2, 5, 3, 5, 5, 2, 7, 1, 3, 6, 7, 8, 8, 0, 0, 5, 0, 0, 9, 2, 9, 3, 5,
    5, 6, 2, 1, 3, 3, 7, 8, 9, 0, 6, 2, 5, 1, 7, 7, 6, 3, 5, 6, 8, 3, 9, 4, 0, 0, 2, 5, 0, 4, 6, 4,
    6, 7, 7, 8, 1, 0, 6, 6, 8, 9, 4, 5, 3, 1, 2, 5, 8, 8, 8, 1, 7, 8, 4, 1, 9, 7, 0, 0, 1, 2, 5, 2,
    3, 2, 3, 3, 8, 9, 0, 5, 3, 3, 4, 4, 7, 2, 6, 5, 6, 2, 5, 4, 4, 4, 0, 8, 9, 2, 0, 9, 8, 5, 0, 0,
    6, 2, 6, 1, 6, 1, 6, 9, 4, 5, 2, 6, 6, 7, 2, 3, 6, 3, 2, 8, 1, 2, 5, 2, 2, 2, 0, 4, 4, 6, 0, 4,
    9, 2, 5, 0, 3, 1, 3, 0, 8, 0, 8, 4, 7, 2, 6, 3, 3, 3, 6, 1, 8, 1, 6, 4, 0, 6, 2, 5, 1, 1, 1, 0,
    2, 2, 3, 0, 2, 4, 6, 2, 5, 1, 5, 6, 5, 4, 0, 4, 2, 3, 6, 3, 1, 6, 6, 8, 0, 9, 0, 8, 2, 0, 3, 1,
    2, 5, 5, 5, 5, 1, 1, 1, 5, 1, 2, 3, 1, 2, 5, 7, 8, 2, 7, 0, 2, 1, 1, 8, 1, 5, 8, 3, 4, 0, 4, 5,
    4, 1, 0, 1, 5, 6, 2, 5, 2, 7, 7, 5, 5, 5, 7, 5, 6, 1, 5, 6, 2, 8, 9, 1, 3, 5, 1, 0, 5, 9, 0, 7,
    9, 1, 7, 0, 2, 2, 7, 0, 5, 0, 7, 8, 1, 2, 5, 1, 3, 8, 7, 7, 7, 8, 7, 8, 0, 7, 8, 1, 4, 4, 5, 6,
    7, 5, 5, 2, 9, 5, 3, 9, 5, 8, 5, 1, 1, 3, 5, 2, 5, 3, 9, 0, 6, 2, 5, 6, 9, 3, 8, 8, 9, 3, 9, 0,
    3, 9, 0, 7, 2, 2, 8, 3, 7, 7, 6, 4, 7, 6, 9, 7, 9, 2, 5, 5, 6, 7, 6, 2, 6, 9, 5, 3, 1, 2, 5, 3,
    4, 6, 9, 4, 4, 6, 9, 5, 1, 9, 5, 3, 6, 1, 4, 1, 8, 8, 8, 2, 3, 8, 4, 8, 9, 6, 2, 7, 8, 3, 8, 1,
    3, 4, 7, 6, 5, 6, 2, 5, 1, 7, 3, 4, 7, 2, 3, 4, 7, 5, 9, 7, 6, 8, 0, 7, 0, 9, 4, 4, 1, 1, 9, 2,
    4, 4, 8, 1, 3, 9, 1, 9, 0, 6, 7, 3, 8, 2, 8, 1, 2, 5, 8, 6, 7, 3, 6, 1, 7, 3, 7, 9, 8, 8, 4, 0,
    3, 5, 4, 7, 2, 0, 5, 9, 6, 2, 2, 4, 0, 6, 9, 5, 9, 5, 3, 3, 6, 9, 1, 4, 0, 6, 2, 5,
];

/// The number of digits that the table names for the shift `s`: the
/// number of decimal digits of `2^s`, by [`lemma_left_shift_table`].
pub closed spec fn new_digits_entry(s: int) -> int {
    LEFT_SHIFT_TABLE[s] as int / 2048
}

/// The index at which the table has the digits of `5^s` start.
pub closed spec fn pow5_offset(s: int) -> int {
    LEFT_SHIFT_TABLE[s] as int % 2048
}

/// The digits of the powers of five, one power after the other.
pub closed spec fn pow5_table() -> Seq<u8> {
    LEFT_SHIFT_POW5@
}

/// The digits of `5^s`, as the table holds them.
pub open spec fn pow5_digits(s: int) -> Seq<u8> {
    pow5_table().subrange(pow5_offset(s), pow5_offset(s + 1))
}

/// The number that the digits `lo..hi` of [`LEFT_SHIFT_POW5`] denote.
pub closed spec fn table_nat(lo: int, hi: int) -> nat
    decreases hi - lo,
{
    if hi <= lo || lo < 0 || hi > 1308 {
        0
    } else {
        table_nat(lo, hi - 1) * 10 + LEFT_SHIFT_POW5[hi - 1] as nat
    }
}

/// The entries `lo..hi` of [`LEFT_SHIFT_POW5`] are decimal digits.
pub closed spec fn table_digits(lo: int, hi: int) -> bool
    decreases hi - lo,
{
    if hi <= lo || lo < 0 || hi > 1308 {
        true
    } else {
        LEFT_SHIFT_POW5[hi - 1] <= 9 && table_digits(lo, hi - 1)
    }
}

/// [`table_nat`] and [`table_digits`] speak of a range of the table as
/// [`digits_nat`] and [`all_digits`] do of a string.
proof fn lemma_table_range(lo: int, hi: int)
    requires
        0 <= lo <= hi <= 1308,
    ensures
        table_nat(lo, hi) == digits_nat(pow5_table().subrange(lo, hi)),
        table_digits(lo, hi) ==> all_digits(pow5_table().subrange(lo, hi)),
    decreases hi - lo,
{
    let s = LEFT_SHIFT_POW5@.subrange(lo, hi);
    if hi > lo {
        lemma_table_range(lo, hi - 1);
        let t = LEFT_SHIFT_POW5@.subrange(lo, hi - 1);
        assert(s.drop_last() =~= t);
        assert(s.last() == LEFT_SHIFT_POW5[hi - 1]);
        if table_digits(lo, hi) {
            assert forall|i: int| 0 <= i < s.len() implies #[trigger] s[i] <= 9 by {
                if i < t.len() {
                    assert(s[i] == t[i]);
                }
            }
        }
    }
}

/// Where the digits of each power of five start, and the number of digits
/// of each power of two.
proof fn lemma_entries()
    ensures
        new_digits_entry(0) == 0,
        pow5_offset(0) == 0,
        new_digits_entry(1) == 1,
        pow5_offset(1) == 0,
        new_digits_entry(2) == 1,
        pow5_offset(2) == 1,
        new_digits_entry(3) == 1,
        pow5_offset(3) == 3,
        new_digits_entry(4) == 2,
        pow5_offset(4) == 6,
        new_digits_entry(5) == 2,
        pow5_offset(5) == 9,
        new_digits_entry(6) == 2,
        pow5_offset(6) == 13,
        new_digits_entry(7) == 3,
        pow5_offset(7) == 18,
        new_digits_entry(8) == 3,
        pow5_offset(8) == 23,
        new_digits_entry(9) == 3,
        pow5_offset(9) == 29,
        new_digits_entry(10) == 4,
        pow5_offset(10) == 36,
        new_digits_entry(11) == 4,
        pow5_offset(11) == 43,
        new_digits_entry(12) == 4,
        pow5_offset(12) == 51,
        new_digits_entry(13) == 4,
        pow5_offset(13) == 60,
        new_digits_entry(14) == 5,
        pow5_offset(14) == 70,
        new_digits_entry(15) == 5,
        pow5_offset(15) == 80,
        new_digits_entry(16) == 5,
        pow5_offset(16) == 91,
        new_digits_entry(17) == 6,
        pow5_offset(17) == 103,
        new_digits_entry(18) == 6,
        pow5_offset(18) == 115,
        new_digits_entry(19) == 6,
        pow5_offset(19) == 128,
        new_digits_entry(20) == 7,
        pow5_offset(20) == 142,
        new_digits_entry(21) == 7,
        pow5_offset(21) == 156,
        new_digits_entry(22) == 7,
        pow5_offset(22) == 171,
        new_digits_entry(23) == 7,
        pow5_offset(23) == 187,
        new_digits_entry(24) == 8,
        pow5_offset(24) == 204,
        new_digits_entry(25) == 8,
        pow5_offset(25) == 221,
        new_digits_entry(26) == 8,
        pow5_offset(26) == 239,
        new_digits_entry(27) == 9,
        pow5_offset(27) == 258,
        new_digits_entry(28) == 9,
        pow5_offset(28) == 277,
        new_digits_entry(29) == 9,
        pow5_offset(29) == 297,
        new_digits_entry(30) == 10,
        pow5_offset(30) == 318,
        new_digits_entry(31) == 10,
        pow5_offset(31) == 339,
        new_digits_entry(32) == 10,
        pow5_offset(32) == 361,
        new_digits_entry(33) == 10,
        pow5_offset(33) == 384,
        new_digits_entry(34) == 11,
        pow5_offset(34) == 408,
        new_digits_entry(35) == 11,
        pow5_offset(35) == 432,
        new_digits_entry(36) == 11,
        pow5_offset(36) == 457,
        new_digits_entry(37) == 12,
        pow5_offset(37) == 483,
        new_digits_entry(38) == 12,
        pow5_offset(38) == 509,
        new_digits_entry(39) == 12,
        pow5_offset(39) == 536,
        new_digits_entry(40) == 13,
        pow5_offset(40) == 564,
        new_digits_entry(41) == 13,
        pow5_offset(41) == 592,
        new_digits_entry(42) == 13,
        pow5_offset(42) == 621,
        new_digits_entry(43) == 13,
        pow5_offset(43) == 651,
        new_digits_entry(44) == 14,
        pow5_offset(44) == 682,
        new_digits_entry(45) == 14,
        pow5_offset(45) == 713,
        new_digits_entry(46) == 14,
        pow5_offset(46) == 745,
        new_digits_entry(47) == 15,
        pow5_offset(47) == 778,
        new_digits_entry(48) == 15,
        pow5_offset(48) == 811,
        new_digits_entry(49) == 15,
        pow5_offset(49) == 845,
        new_digits_entry(50) == 16,
        pow5_offset(50) == 880,
        new_digits_entry(51) == 16,
        pow5_offset(51) == 915,
        new_digits_entry(52) == 16,
        pow5_offset(52) == 951,
        new_digits_entry(53) == 16,
        pow5_offset(53) == 988,
        new_digits_entry(54) == 17,
        pow5_offset(54) == 1026,
        new_digits_entry(55) == 17,
        pow5_offset(55) == 1064,
        new_digits_entry(56) == 17,
        pow5_offset(56) == 1103,
        new_digits_entry(57) == 18,
        pow5_offset(57) == 1143,
        new_digits_entry(58) == 18,
        pow5_offset(58) == 1183,
        new_digits_entry(59) == 18,
        pow5_offset(59) == 1224,
        new_digits_entry(60) == 19,
        pow5_offset(60) == 1266,
        new_digits_entry(61) == 0,
        pow5_offset(61) == 1308,
{
}

/// The powers of five up to `5^60`.
pub proof fn lemma_pow5_values()
    ensures
        pow5(0) == 1int,
        pow5(1) == 5int,
        pow5(2) == 25int,
        pow5(3) == 125int,
        pow5(4) == 625int,
        pow5(5) == 3125int,
        pow5(6) == 15625int,
        pow5(7) == 78125int,
        pow5(8) == 390625int,
        pow5(9) == 1953125int,
        pow5(10) == 9765625int,
        pow5(11) == 48828125int,
        pow5(12) == 244140625int,
        pow5(13) == 1220703125int,
        pow5(14) == 6103515625int,
        pow5(15) == 30517578125int,
        pow5(16) == 152587890625int,
        pow5(17) == 762939453125int,
        pow5(18) == 3814697265625int,
        pow5(19) == 19073486328125int,
        pow5(20) == 95367431640625int,
        pow5(21) == 476837158203125int,
        pow5(22) == 2384185791015625int,
        pow5(23) == 11920928955078125int,
        pow5(24) == 59604644775390625int,
        pow5(25) == 298023223876953125int,
        pow5(26) == 1490116119384765625int,
        pow5(27) == 7450580596923828125int,
        pow5(28) == 37252902984619140625int,
        pow5(29) == 186264514923095703125int,
        pow5(30) == 931322574615478515625int,
        pow5(31) == 4656612873077392578125int,
        pow5(32) == 23283064365386962890625int,
        pow5(33) == 116415321826934814453125int,
        pow5(34) == 582076609134674072265625int,
        pow5(35) == 2910383045673370361328125int,
        pow5(36) == 14551915228366851806640625int,
        pow5(37) == 72759576141834259033203125int,
        pow5(38) == 363797880709171295166015625int,
        pow5(39) == 1818989403545856475830078125int,
        pow5(40) == 9094947017729282379150390625int,
        pow5(41) == 45474735088646411895751953125int,
        pow5(42) == 227373675443232059478759765625int,
        pow5(43) == 1136868377216160297393798828125int,
        pow5(44) == 5684341886080801486968994140625int,
        pow5(45) == 28421709430404007434844970703125int,
        pow5(46) == 142108547152020037174224853515625int,
        pow5(47) == 710542735760100185871124267578125int,
        pow5(48) == 3552713678800500929355621337890625int,
        pow5(49) == 17763568394002504646778106689453125int,
        pow5(50) == 88817841970012523233890533447265625int,
        pow5(51) == 444089209850062616169452667236328125int,
        pow5(52) == 2220446049250313080847263336181640625int,
        pow5(53) == 11102230246251565404236316680908203125int,
        pow5(54) == 55511151231257827021181583404541015625int,
        pow5(55) == 277555756156289135105907917022705078125int,
        pow5(56) == 1387778780781445675529539585113525390625int,
        pow5(57) == 6938893903907228377647697925567626953125int,
        pow5(58) == 34694469519536141888238489627838134765625int,
        pow5(59) == 173472347597680709441192448139190673828125int,
        pow5(60) == 867361737988403547205962240695953369140625int,
{
    lemma_pow5(0);
    lemma_pow5(1);
    lemma_pow5(2);
    lemma_pow5(3);
    lemma_pow5(4);
    lemma_pow5(5);
    lemma_pow5(6);
    lemma_pow5(7);
    lemma_pow5(8);
    lemma_pow5(9);
    lemma_pow5(10);
    lemma_pow5(11);
    lemma_pow5(12);
    lemma_pow5(13);
    lemma_pow5(14);
    lemma_pow5(15);
    lemma_pow5(16);
    lemma_pow5(17);
    lemma_pow5(18);
    lemma_pow5(19);
    lemma_pow5(20);
    lemma_pow5(21);
    lemma_pow5(22);
    lemma_pow5(23);
    lemma_pow5(24);
    lemma_pow5(25);
    lemma_pow5(26);
    lemma_pow5(27);
    lemma_pow5(28);
    lemma_pow5(29);
    lemma_pow5(30);
    lemma_pow5(31);
    lemma_pow5(32);
    lemma_pow5(33);
    lemma_pow5(34);
    lemma_pow5(35);
    lemma_pow5(36);
    lemma_pow5(37);
    lemma_pow5(38);
    lemma_pow5(39);
    lemma_pow5(40);
    lemma_pow5(41);
    lemma_pow5(42);
    lemma_pow5(43);
    lemma_pow5(44);
    lemma_pow5(45);
    lemma_pow5(46);
    lemma_pow5(47);
    lemma_pow5(48);
    lemma_pow5(49);
    lemma_pow5(50);
    lemma_pow5(51);
    lemma_pow5(52);
    lemma_pow5(53);
    lemma_pow5(54);
    lemma_pow5(55);
    lemma_pow5(56);
    lemma_pow5(57);
    lemma_pow5(58);
    lemma_pow5(59);
}

/// The digits of the powers of five from `5^1` to `5^15`, as the table
/// holds them.
proof fn lemma_digits_1_15()
    ensures
        table_nat(0, 1) == 5int,
        table_digits(0, 1),
        pow5_table()[0] != 0,
        pow5_table()[0] == 5,
        table_nat(1, 3) == 25int,
        table_digits(1, 3),
        pow5_table()[1] != 0,
        pow5_table()[2] == 5,
        table_nat(3, 6) == 125int,
        table_digits(3, 6),
        pow5_table()[3] != 0,
        pow5_table()[5] == 5,
        table_nat(6, 9) == 625int,
        table_digits(6, 9),
        pow5_table()[6] != 0,
        pow5_table()[8] == 5,
        table_nat(9, 13) == 3125int,
        table_digits(9, 13),
        pow5_table()[9] != 0,
        pow5_table()[12] == 5,
        table_nat(13, 18) == 15625int,
        table_digits(13, 18),
        pow5_table()[13] != 0,
        pow5_table()[17] == 5,
        table_nat(18, 23) == 78125int,
        table_digits(18, 23),
        pow5_table()[18] != 0,
        pow5_table()[22] == 5,
        table_nat(23, 29) == 390625int,
        table_digits(23, 29),
        pow5_table()[23] != 0,
        pow5_table()[28] == 5,
        table_nat(29, 36) == 1953125int,
        table_digits(29, 36),
        pow5_table()[29] != 0,
        pow5_table()[35] == 5,
        table_nat(36, 43) == 9765625int,
        table_digits(36, 43),
        pow5_table()[36] != 0,
        pow5_table()[42] == 5,
        table_nat(43, 51) == 48828125int,
        table_digits(43, 51),
        pow5_table()[43] != 0,
        pow5_table()[50] == 5,
        table_nat(51, 60) == 244140625int,
        table_digits(51, 60),
        pow5_table()[51] != 0,
        pow5_table()[59] == 5,
        table_nat(60, 70) == 1220703125int,
        table_digits(60, 70),
        pow5_table()[60] != 0,
        pow5_table()[69] == 5,
        table_nat(70, 80) == 6103515625int,
        table_digits(70, 80),
        pow5_table()[70] != 0,
        pow5_table()[79] == 5,
        table_nat(80, 91) == 30517578125int,
        table_digits(80, 91),
        pow5_table()[80] != 0,
        pow5_table()[90] == 5,
{
    assert(table_nat(0, 0) == 0 && table_digits(0, 0));
    assert(table_nat(0, 1) == 5int && table_digits(0, 1));
    assert(table_nat(1, 1) == 0 && table_digits(1, 1));
    assert(table_nat(1, 2) == 2int && table_digits(1, 2));
    assert(table_nat(1, 3) == 25int && table_digits(1, 3));
    assert(table_nat(3, 3) == 0 && table_digits(3, 3));
    assert(table_nat(3, 4) == 1int && table_digits(3, 4));
    assert(table_nat(3, 5) == 12int && table_digits(3, 5));
    assert(table_nat(3, 6) == 125int && table_digits(3, 6));
    assert(table_nat(6, 6) == 0 && table_digits(6, 6));
    assert(table_nat(6, 7) == 6int && table_digits(6, 7));
    assert(table_nat(6, 8) == 62int && table_digits(6, 8));
    assert(table_nat(6, 9) == 625int && table_digits(6, 9));
    assert(table_nat(9, 9) == 0 && table_digits(9, 9));
    assert(table_nat(9, 10) == 3int && table_digits(9, 10));
    assert(table_nat(9, 11) == 31int && table_digits(9, 11));
    assert(table_nat(9, 12) == 312int && table_digits(9, 12));
    assert(table_nat(9, 13) == 3125int && table_digits(9, 13));
    assert(table_nat(13, 13) == 0 && table_digits(13, 13));
    assert(table_nat(13, 14) == 1int && table_digits(13, 14));
    assert(table_nat(13, 15) == 15int && table_digits(13, 15));
    assert(table_nat(13, 16) == 156int && table_digits(13, 16));
    assert(table_nat(13, 17) == 1562int && table_digits(13, 17));
    assert(table_nat(13, 18) == 15625int && table_digits(13, 18));
    assert(table_nat(18, 18) == 0 && table_digits(18, 18));
    assert(table_nat(18, 19) == 7int && table_digits(18, 19));
    assert(table_nat(18, 20) == 78int && table_digits(18, 20));
    assert(table_nat(18, 21) == 781int && table_digits(18, 21));
    assert(table_nat(18, 22) == 7812int && table_digits(18, 22));
    assert(table_nat(18, 23) == 78125int && table_digits(18, 23));
    assert(table_nat(23, 23) == 0 && table_digits(23, 23));
    assert(table_nat(23, 24) == 3int && table_digits(23, 24));
    assert(table_nat(23, 25) == 39int && table_digits(23, 25));
    assert(table_nat(23, 26) == 390int && table_digits(23, 26));
    assert(table_nat(23, 27) == 3906int && table_digits(23, 27));
    assert(table_nat(23, 28) == 39062int && table_digits(23, 28));
    assert(table_nat(23, 29) == 390625int && table_digits(23, 29));
    assert(table_nat(29, 29) == 0 && table_digits(29, 29));
    assert(table_nat(29, 30) == 1int && table_digits(29, 30));
    assert(table_nat(29, 31) == 19int && table_digits(29, 31));
    assert(table_nat(29, 32) == 195int && table_digits(29, 32));
    assert(table_nat(29, 33) == 1953int && table_digits(29, 33));
    assert(table_nat(29, 34) == 19531int && table_digits(29, 34));
    assert(table_nat(29, 35) == 195312int && table_digits(29, 35));
    assert(table_nat(29, 36) == 1953125int && table_digits(29, 36));
    assert(table_nat(36, 36) == 0 && table_digits(36, 36));
    assert(table_nat(36, 37) == 9int && table_digits(36, 37));
    assert(table_nat(36, 38) == 97int && table_digits(36, 38));
    assert(table_nat(36, 39) == 976int && table_digits(36, 39));
    assert(table_nat(36, 40) == 9765int && table_digits(36, 40));
    assert(table_nat(36, 41) == 97656int && table_digits(36, 41));
    assert(table_nat(36, 42) == 976562int && table_digits(36, 42));
    assert(table_nat(36, 43) == 9765625int && table_digits(36, 43));
    assert(table_nat(43, 43) == 0 && table_digits(43, 43));
    assert(table_nat(43, 44) == 4int && table_digits(43, 44));
    assert(table_nat(43, 45) == 48int && table_digits(43, 45));
    assert(table_nat(43, 46) == 488int && table_digits(43, 46));
    assert(table_nat(43, 47) == 4882int && table_digits(43, 47));
    assert(table_nat(43, 48) == 48828int && table_digits(43, 48));
    assert(table_nat(43, 49) == 488281int && table_digits(43, 49));
    assert(table_nat(43, 50) == 4882812int && table_digits(43, 50));
    assert(table_nat(43, 51) == 48828125int && table_digits(43, 51));
    assert(table_nat(51, 51) == 0 && table_digits(51, 51));
    assert(table_nat(51, 52) == 2int && table_digits(51, 52));
    assert(table_nat(51, 53) == 24int && table_digits(51, 53));
    assert(table_nat(51, 54) == 244int && table_digits(51, 54));
    assert(table_nat(51, 55) == 2441int && table_digits(51, 55));
    assert(table_nat(51, 56) == 24414int && table_digits(51, 56));
    assert(table_nat(51, 57) == 244140int && table_digits(51, 57));
    assert(table_nat(51, 58) == 2441406int && table_digits(51, 58));
    assert(table_nat(51, 59) == 24414062int && table_digits(51, 59));
    assert(table_nat(51, 60) == 244140625int && table_digits(51, 60));
    assert(table_nat(60, 60) == 0 && table_digits(60, 60));
    assert(table_nat(60, 61) == 1int && table_digits(60, 61));
    assert(table_nat(60, 62) == 12int && table_digits(60, 62));
    assert(table_nat(60, 63) == 122int && table_digits(60, 63));
    assert(table_nat(60, 64) == 1220int && table_digits(60, 64));
    assert(table_nat(60, 65) == 12207int && table_digits(60, 65));
    assert(table_nat(60, 66) == 122070int && table_digits(60, 66));
    assert(table_nat(60, 67) == 1220703int && table_digits(60, 67));
    assert(table_nat(60, 68) == 12207031int && table_digits(60, 68));
    assert(table_nat(60, 69) == 122070312int && table_digits(60, 69));
    assert(table_nat(60, 70) == 1220703125int && table_digits(60, 70));
    assert(table_nat(70, 70) == 0 && table_digits(70, 70));
    assert(table_nat(70, 71) == 6int && table_digits(70, 71));
    assert(table_nat(70, 72) == 61int && table_digits(70, 72));
    assert(table_nat(70, 73) == 610int && table_digits(70, 73));
    assert(table_nat(70, 74) == 6103int && table_digits(70, 74));
    assert(table_nat(70, 75) == 61035int && table_digits(70, 75));
    assert(table_nat(70, 76) == 610351int && table_digits(70, 76));
    assert(table_nat(70, 77) == 6103515int && table_digits(70, 77));
    assert(table_nat(70, 78) == 61035156int && table_digits(70, 78));
    assert(table_nat(70, 79) == 610351562int && table_digits(70, 79));
    assert(table_nat(70, 80) == 6103515625int && table_digits(70, 80));
    assert(table_nat(80, 80) == 0 && table_digits(80, 80));
    assert(table_nat(80, 81) == 3int && table_digits(80, 81));
    assert(table_nat(80, 82) == 30int && table_digits(80, 82));
    assert(table_nat(80, 83) == 305int && table_digits(80, 83));
    assert(table_nat(80, 84) == 3051int && table_digits(80, 84));
    assert(table_nat(80, 85) == 30517int && table_digits(80, 85));
    assert(table_nat(80, 86) == 305175int && table_digits(80, 86));
    assert(table_nat(80, 87) == 3051757int && table_digits(80, 87));
    assert(table_nat(80, 88) == 30517578int && table_digits(80, 88));
    assert(table_nat(80, 89) == 305175781int && table_digits(80, 89));
    assert(table_nat(80, 90) == 3051757812int && table_digits(80, 90));
    assert(table_nat(80, 91) == 30517578125int && table_digits(80, 91));
}

/// The digits of the powers of five from `5^16` to `5^27`, as the table
/// holds them.
proof fn lemma_digits_16_27()
    ensures
        table_nat(91, 103) == 152587890625int,
        table_digits(91, 103),
        pow5_table()[91] != 0,
        pow5_table()[102] == 5,
        table_nat(103, 115) == 762939453125int,
        table_digits(103, 115),
        pow5_table()[103] != 0,
        pow5_table()[114] == 5,
        table_nat(115, 128) == 3814697265625int,
        table_digits(115, 128),
        pow5_table()[115] != 0,
        pow5_table()[127] == 5,
        table_nat(128, 142) == 19073486328125int,
        table_digits(128, 142),
        pow5_table()[128] != 0,
        pow5_table()[141] == 5,
        table_nat(142, 156) == 95367431640625int,
        table_digits(142, 156),
        pow5_table()[142] != 0,
        pow5_table()[155] == 5,
        table_nat(156, 171) == 476837158203125int,
        table_digits(156, 171),
        pow5_table()[156] != 0,
        pow5_table()[170] == 5,
        table_nat(171, 187) == 2384185791015625int,
        table_digits(171, 187),
        pow5_table()[171] != 0,
        pow5_table()[186] == 5,
        table_nat(187, 204) == 11920928955078125int,
        table_digits(187, 204),
        pow5_table()[187] != 0,
        pow5_table()[203] == 5,
        table_nat(204, 221) == 59604644775390625int,
        table_digits(204, 221),
        pow5_table()[204] != 0,
        pow5_table()[220] == 5,
        table_nat(221, 239) == 298023223876953125int,
        table_digits(221, 239),
        pow5_table()[221] != 0,
        pow5_table()[238] == 5,
        table_nat(239, 258) == 1490116119384765625int,
        table_digits(239, 258),
        pow5_table()[239] != 0,
        pow5_table()[257] == 5,
        table_nat(258, 277) == 7450580596923828125int,
        table_digits(258, 277),
        pow5_table()[258] != 0,
        pow5_table()[276] == 5,
{
    assert(table_nat(91, 91) == 0 && table_digits(91, 91));
    assert(table_nat(91, 92) == 1int && table_digits(91, 92));
    assert(table_nat(91, 93) == 15int && table_digits(91, 93));
    assert(table_nat(91, 94) == 152int && table_digits(91, 94));
    assert(table_nat(91, 95) == 1525int && table_digits(91, 95));
    assert(table_nat(91, 96) == 15258int && table_digits(91, 96));
    assert(table_nat(91, 97) == 152587int && table_digits(91, 97));
    assert(table_nat(91, 98) == 1525878int && table_digits(91, 98));
    assert(table_nat(91, 99) == 15258789int && table_digits(91, 99));
    assert(table_nat(91, 100) == 152587890int && table_digits(91, 100));
    assert(table_nat(91, 101) == 1525878906int && table_digits(91, 101));
    assert(table_nat(91, 102) == 15258789062int && table_digits(91, 102));
    assert(table_nat(91, 103) == 152587890625int && table_digits(91, 103));
    assert(table_nat(103, 103) == 0 && table_digits(103, 103));
    assert(table_nat(103, 104) == 7int && table_digits(103, 104));
    assert(table_nat(103, 105) == 76int && table_digits(103, 105));
    assert(table_nat(103, 106) == 762int && table_digits(103, 106));
    assert(table_nat(103, 107) == 7629int && table_digits(103, 107));
    assert(table_nat(103, 108) == 76293int && table_digits(103, 108));
    assert(table_nat(103, 109) == 762939int && table_digits(103, 109));
    assert(table_nat(103, 110) == 7629394int && table_digits(103, 110));
    assert(table_nat(103, 111) == 76293945int && table_digits(103, 111));
    assert(table_nat(103, 112) == 762939453int && table_digits(103, 112));
    assert(table_nat(103, 113) == 7629394531int && table_digits(103, 113));
    assert(table_nat(103, 114) == 76293945312int && table_digits(103, 114));
    assert(table_nat(103, 115) == 762939453125int && table_digits(103, 115));
    assert(table_nat(115, 115) == 0 && table_digits(115, 115));
    assert(table_nat(115, 116) == 3int && table_digits(115, 116));
    assert(table_nat(115, 117) == 38int && table_digits(115, 117));
    assert(table_nat(115, 118) == 381int && table_digits(115, 118));
    assert(table_nat(115, 119) == 3814int && table_digits(115, 119));
    assert(table_nat(115, 120) == 38146int && table_digits(115, 120));
    assert(table_nat(115, 121) == 381469int && table_digits(115, 121));
    assert(table_nat(115, 122) == 3814697int && table_digits(115, 122));
    assert(table_nat(115, 123) == 38146972int && table_digits(115, 123));
    assert(table_nat(115, 124) == 381469726int && table_digits(115, 124));
    assert(table_nat(115, 125) == 3814697265int && table_digits(115, 125));
    assert(table_nat(115, 126) == 38146972656int && table_digits(115, 126));
    assert(table_nat(115, 127) == 381469726562int && table_digits(115, 127));
    assert(table_nat(115, 128) == 3814697265625int && table_digits(115, 128));
    assert(table_nat(128, 128) == 0 && table_digits(128, 128));
    assert(table_nat(128, 129) == 1int && table_digits(128, 129));
    assert(table_nat(128, 130) == 19int && table_digits(128, 130));
    assert(table_nat(128, 131) == 190int && table_digits(128, 131));
    assert(table_nat(128, 132) == 1907int && table_digits(128, 132));
    assert(table_nat(128, 133) == 19073int && table_digits(128, 133));
    assert(table_nat(128, 134) == 190734int && table_digits(128, 134));
    assert(table_nat(128, 135) == 1907348int && table_digits(128, 135));
    assert(table_nat(128, 136) == 19073486int && table_digits(128, 136));
    assert(table_nat(128, 137) == 190734863int && table_digits(128, 137));
    assert(table_nat(128, 138) == 1907348632int && table_digits(128, 138));
    assert(table_nat(128, 139) == 19073486328int && table_digits(128, 139));
    assert(table_nat(128, 140) == 190734863281int && table_digits(128, 140));
    assert(table_nat(128, 141) == 1907348632812int && table_digits(128, 141));
    assert(table_nat(128, 142) == 19073486328125int && table_digits(128, 142));
    assert(table_nat(142, 142) == 0 && table_digits(142, 142));
    assert(table_nat(142, 143) == 9int && table_digits(142, 143));
    assert(table_nat(142, 144) == 95int && table_digits(142, 144));
    assert(table_nat(142, 145) == 953int && table_digits(142, 145));
    assert(table_nat(142, 146) == 9536int && table_digits(142, 146));
    assert(table_nat(142, 147) == 95367int && table_digits(142, 147));
    assert(table_nat(142, 148) == 953674int && table_digits(142, 148));
    assert(table_nat(142, 149) == 9536743int && table_digits(142, 149));
    assert(table_nat(142, 150) == 95367431int && table_digits(142, 150));
    assert(table_nat(142, 151) == 953674316int && table_digits(142, 151));
    assert(table_nat(142, 152) == 9536743164int && table_digits(142, 152));
    assert(table_nat(142, 153) == 95367431640int && table_digits(142, 153));
    assert(table_nat(142, 154) == 953674316406int && table_digits(142, 154));
    assert(table_nat(142, 155) == 9536743164062int && table_digits(142, 155));
    assert(table_nat(142, 156) == 95367431640625int && table_digits(142, 156));
    assert(table_nat(156, 156) == 0 && table_digits(156, 156));
    assert(table_nat(156, 157) == 4int && table_digits(156, 157));
    assert(table_nat(156, 158) == 47int && table_digits(156, 158));
    assert(table_nat(156, 159) == 476int && table_digits(156, 159));
    assert(table_nat(156, 160) == 4768int && table_digits(156, 160));
    assert(table_nat(156, 161) == 47683int && table_digits(156, 161));
    assert(table_nat(156, 162) == 476837int && table_digits(156, 162));
    assert(table_nat(156, 163) == 4768371int && table_digits(156, 163));
    assert(table_nat(156, 164) == 47683715int && table_digits(156, 164));
    assert(table_nat(156, 165) == 476837158int && table_digits(156, 165));
    assert(table_nat(156, 166) == 4768371582int && table_digits(156, 166));
    assert(table_nat(156, 167) == 47683715820int && table_digits(156, 167));
    assert(table_nat(156, 168) == 476837158203int && table_digits(156, 168));
    assert(table_nat(156, 169) == 4768371582031int && table_digits(156, 169));
    assert(table_nat(156, 170) == 47683715820312int && table_digits(156, 170));
    assert(table_nat(156, 171) == 476837158203125int && table_digits(156, 171));
    assert(table_nat(171, 171) == 0 && table_digits(171, 171));
    assert(table_nat(171, 172) == 2int && table_digits(171, 172));
    assert(table_nat(171, 173) == 23int && table_digits(171, 173));
    assert(table_nat(171, 174) == 238int && table_digits(171, 174));
    assert(table_nat(171, 175) == 2384int && table_digits(171, 175));
    assert(table_nat(171, 176) == 23841int && table_digits(171, 176));
    assert(table_nat(171, 177) == 238418int && table_digits(171, 177));
    assert(table_nat(171, 178) == 2384185int && table_digits(171, 178));
    assert(table_nat(171, 179) == 23841857int && table_digits(171, 179));
    assert(table_nat(171, 180) == 238418579int && table_digits(171, 180));
    assert(table_nat(171, 181) == 2384185791int && table_digits(171, 181));
    assert(table_nat(171, 182) == 23841857910int && table_digits(171, 182));
    assert(table_nat(171, 183) == 238418579101int && table_digits(171, 183));
    assert(table_nat(171, 184) == 2384185791015int && table_digits(171, 184));
    assert(table_nat(171, 185) == 23841857910156int && table_digits(171, 185));
    assert(table_nat(171, 186) == 238418579101562int && table_digits(171, 186));
    assert(table_nat(171, 187) == 2384185791015625int && table_digits(171, 187));
    assert(table_nat(187, 187) == 0 && table_digits(187, 187));
    assert(table_nat(187, 188) == 1int && table_digits(187, 188));
    assert(table_nat(187, 189) == 11int && table_digits(187, 189));
    assert(table_nat(187, 190) == 119int && table_digits(187, 190));
    assert(table_nat(187, 191) == 1192int && table_digits(187, 191));
    assert(table_nat(187, 192) == 11920int && table_digits(187, 192));
    assert(table_nat(187, 193) == 119209int && table_digits(187, 193));
    assert(table_nat(187, 194) == 1192092int && table_digits(187, 194));
    assert(table_nat(187, 195) == 11920928int && table_digits(187, 195));
    assert(table_nat(187, 196) == 119209289int && table_digits(187, 196));
    assert(table_nat(187, 197) == 1192092895int && table_digits(187, 197));
    assert(table_nat(187, 198) == 11920928955int && table_digits(187, 198));
    assert(table_nat(187, 199) == 119209289550int && table_digits(187, 199));
    assert(table_nat(187, 200) == 1192092895507int && table_digits(187, 200));
    assert(table_nat(187, 201) == 11920928955078int && table_digits(187, 201));
    assert(table_nat(187, 202) == 119209289550781int && table_digits(187, 202));
    assert(table_nat(187, 203) == 1192092895507812int && table_digits(187, 203));
    assert(table_nat(187, 204) == 11920928955078125int && table_digits(187, 204));
    assert(table_nat(204, 204) == 0 && table_digits(204, 204));
    assert(table_nat(204, 205) == 5int && table_digits(204, 205));
    assert(table_nat(204, 206) == 59int && table_digits(204, 206));
    assert(table_nat(204, 207) == 596int && table_digits(204, 207));
    assert(table_nat(204, 208) == 5960int && table_digits(204, 208));
    assert(table_nat(204, 209) == 59604int && table_digits(204, 209));
    assert(table_nat(204, 210) == 596046int && table_digits(204, 210));
    assert(table_nat(204, 211) == 5960464int && table_digits(204, 211));
    assert(table_nat(204, 212) == 59604644int && table_digits(204, 212));
    assert(table_nat(204, 213) == 596046447int && table_digits(204, 213));
    assert(table_nat(204, 214) == 5960464477int && table_digits(204, 214));
    assert(table_nat(204, 215) == 59604644775int && table_digits(204, 215));
    assert(table_nat(204, 216) == 596046447753int && table_digits(204, 216));
    assert(table_nat(204, 217) == 5960464477539int && table_digits(204, 217));
    assert(table_nat(204, 218) == 59604644775390int && table_digits(204, 218));
    assert(table_nat(204, 219) == 596046447753906int && table_digits(204, 219));
    assert(table_nat(204, 220) == 5960464477539062int && table_digits(204, 220));
    assert(table_nat(204, 221) == 59604644775390625int && table_digits(204, 221));
    assert(table_nat(221, 221) == 0 && table_digits(221, 221));
    assert(table_nat(221, 222) == 2int && table_digits(221, 222));
    assert(table_nat(221, 223) == 29int && table_digits(221, 223));
    assert(table_nat(221, 224) == 298int && table_digits(221, 224));
    assert(table_nat(221, 225) == 2980int && table_digits(221, 225));
    assert(table_nat(221, 226) == 29802int && table_digits(221, 226));
    assert(table_nat(221, 227) == 298023int && table_digits(221, 227));
    assert(table_nat(221, 228) == 2980232int && table_digits(221, 228));
    assert(table_nat(221, 229) == 29802322int && table_digits(221, 229));
    assert(table_nat(221, 230) == 298023223int && table_digits(221, 230));
    assert(table_nat(221, 231) == 2980232238int && table_digits(221, 231));
    assert(table_nat(221, 232) == 29802322387int && table_digits(221, 232));
    assert(table_nat(221, 233) == 298023223876int && table_digits(221, 233));
    assert(table_nat(221, 234) == 2980232238769int && table_digits(221, 234));
    assert(table_nat(221, 235) == 29802322387695int && table_digits(221, 235));
    assert(table_nat(221, 236) == 298023223876953int && table_digits(221, 236));
    assert(table_nat(221, 237) == 2980232238769531int && table_digits(221, 237));
    assert(table_nat(221, 238) == 29802322387695312int && table_digits(221, 238));
    assert(table_nat(221, 239) == 298023223876953125int && table_digits(221, 239));
    assert(table_nat(239, 239) == 0 && table_digits(239, 239));
    assert(table_nat(239, 240) == 1int && table_digits(239, 240));
    assert(table_nat(239, 241) == 14int && table_digits(239, 241));
    assert(table_nat(239, 242) == 149int && table_digits(239, 242));
    assert(table_nat(239, 243) == 1490int && table_digits(239, 243));
    assert(table_nat(239, 244) == 14901int && table_digits(239, 244));
    assert(table_nat(239, 245) == 149011int && table_digits(239, 245));
    assert(table_nat(239, 246) == 1490116int && table_digits(239, 246));
    assert(table_nat(239, 247) == 14901161int && table_digits(239, 247));
    assert(table_nat(239, 248) == 149011611int && table_digits(239, 248));
    assert(table_nat(239, 249) == 1490116119int && table_digits(239, 249));
    assert(table_nat(239, 250) == 14901161193int && table_digits(239, 250));
    assert(table_nat(239, 251) == 149011611938int && table_digits(239, 251));
    assert(table_nat(239, 252) == 1490116119384int && table_digits(239, 252));
    assert(table_nat(239, 253) == 14901161193847int && table_digits(239, 253));
    assert(table_nat(239, 254) == 149011611938476int && table_digits(239, 254));
    assert(table_nat(239, 255) == 1490116119384765int && table_digits(239, 255));
    assert(table_nat(239, 256) == 14901161193847656int && table_digits(239, 256));
    assert(table_nat(239, 257) == 149011611938476562int && table_digits(239, 257));
    assert(table_nat(239, 258) == 1490116119384765625int && table_digits(239, 258));
    assert(table_nat(258, 258) == 0 && table_digits(258, 258));
    assert(table_nat(258, 259) == 7int && table_digits(258, 259));
    assert(table_nat(258, 260) == 74int && table_digits(258, 260));
    assert(table_nat(258, 261) == 745int && table_digits(258, 261));
    assert(table_nat(258, 262) == 7450int && table_digits(258, 262));
    assert(table_nat(258, 263) == 74505int && table_digits(258, 263));
    assert(table_nat(258, 264) == 745058int && table_digits(258, 264));
    assert(table_nat(258, 265) == 7450580int && table_digits(258, 265));
    assert(table_nat(258, 266) == 74505805int && table_digits(258, 266));
    assert(table_nat(258, 267) == 745058059int && table_digits(258, 267));
    assert(table_nat(258, 268) == 7450580596int && table_digits(258, 268));
    assert(table_nat(258, 269) == 74505805969int && table_digits(258, 269));
    assert(table_nat(258, 270) == 745058059692int && table_digits(258, 270));
    assert(table_nat(258, 271) == 7450580596923int && table_digits(258, 271));
    assert(table_nat(258, 272) == 74505805969238int && table_digits(258, 272));
    assert(table_nat(258, 273) == 745058059692382int && table_digits(258, 273));
    assert(table_nat(258, 274) == 7450580596923828int && table_digits(258, 274));
    assert(table_nat(258, 275) == 74505805969238281int && table_digits(258, 275));
    assert(table_nat(258, 276) == 745058059692382812int && table_digits(258, 276));
    assert(table_nat(258, 277) == 7450580596923828125int && table_digits(258, 277));
}

/// The digits of the powers of five from `5^28` to `5^36`, as the table
/// holds them.
proof fn lemma_digits_28_36()
    ensures
        table_nat(277, 297) == 37252902984619140625int,
        table_digits(277, 297),
        pow5_table()[277] != 0,
        pow5_table()[296] == 5,
        table_nat(297, 318) == 186264514923095703125int,
        table_digits(297, 318),
        pow5_table()[297] != 0,
        pow5_table()[317] == 5,
        table_nat(318, 339) == 931322574615478515625int,
        table_digits(318, 339),
        pow5_table()[318] != 0,
        pow5_table()[338] == 5,
        table_nat(339, 361) == 4656612873077392578125int,
        table_digits(339, 361),
        pow5_table()[339] != 0,
        pow5_table()[360] == 5,
        table_nat(361, 384) == 23283064365386962890625int,
        table_digits(361, 384),
        pow5_table()[361] != 0,
        pow5_table()[383] == 5,
        table_nat(384, 408) == 116415321826934814453125int,
        table_digits(384, 408),
        pow5_table()[384] != 0,
        pow5_table()[407] == 5,
        table_nat(408, 432) == 582076609134674072265625int,
        table_digits(408, 432),
        pow5_table()[408] != 0,
        pow5_table()[431] == 5,
        table_nat(432, 457) == 2910383045673370361328125int,
        table_digits(432, 457),
        pow5_table()[432] != 0,
        pow5_table()[456] == 5,
        table_nat(457, 483) == 14551915228366851806640625int,
        table_digits(457, 483),
        pow5_table()[457] != 0,
        pow5_table()[482] == 5,
{
    assert(table_nat(277, 277) == 0 && table_digits(277, 277));
    assert(table_nat(277, 278) == 3int && table_digits(277, 278));
    assert(table_nat(277, 279) == 37int && table_digits(277, 279));
    assert(table_nat(277, 280) == 372int && table_digits(277, 280));
    assert(table_nat(277, 281) == 3725int && table_digits(277, 281));
    assert(table_nat(277, 282) == 37252int && table_digits(277, 282));
    assert(table_nat(277, 283) == 372529int && table_digits(277, 283));
    assert(table_nat(277, 284) == 3725290int && table_digits(277, 284));
    assert(table_nat(277, 285) == 37252902int && table_digits(277, 285));
    assert(table_nat(277, 286) == 372529029int && table_digits(277, 286));
    assert(table_nat(277, 287) == 3725290298int && table_digits(277, 287));
    assert(table_nat(277, 288) == 37252902984int && table_digits(277, 288));
    assert(table_nat(277, 289) == 372529029846int && table_digits(277, 289));
    assert(table_nat(277, 290) == 3725290298461int && table_digits(277, 290));
    assert(table_nat(277, 291) == 37252902984619int && table_digits(277, 291));
    assert(table_nat(277, 292) == 372529029846191int && table_digits(277, 292));
    assert(table_nat(277, 293) == 3725290298461914int && table_digits(277, 293));
    assert(table_nat(277, 294) == 37252902984619140int && table_digits(277, 294));
    assert(table_nat(277, 295) == 372529029846191406int && table_digits(277, 295));
    assert(table_nat(277, 296) == 3725290298461914062int && table_digits(277, 296));
    assert(table_nat(277, 297) == 37252902984619140625int && table_digits(277, 297));
    assert(table_nat(297, 297) == 0 && table_digits(297, 297));
    assert(table_nat(297, 298) == 1int && table_digits(297, 298));
    assert(table_nat(297, 299) == 18int && table_digits(297, 299));
    assert(table_nat(297, 300) == 186int && table_digits(297, 300));
    assert(table_nat(297, 301) == 1862int && table_digits(297, 301));
    assert(table_nat(297, 302) == 18626int && table_digits(297, 302));
    assert(table_nat(297, 303) == 186264int && table_digits(297, 303));
    assert(table_nat(297, 304) == 1862645int && table_digits(297, 304));
    assert(table_nat(297, 305) == 18626451int && table_digits(297, 305));
    assert(table_nat(297, 306) == 186264514int && table_digits(297, 306));
    assert(table_nat(297, 307) == 1862645149int && table_digits(297, 307));
    assert(table_nat(297, 308) == 18626451492int && table_digits(297, 308));
    assert(table_nat(297, 309) == 186264514923int && table_digits(297, 309));
    assert(table_nat(297, 310) == 1862645149230int && table_digits(297, 310));
    assert(table_nat(297, 311) == 18626451492309int && table_digits(297, 311));
    assert(table_nat(297, 312) == 186264514923095int && table_digits(297, 312));
    assert(table_nat(297, 313) == 1862645149230957int && table_digits(297, 313));
    assert(table_nat(297, 314) == 18626451492309570int && table_digits(297, 314));
    assert(table_nat(297, 315) == 186264514923095703int && table_digits(297, 315));
    assert(table_nat(297, 316) == 1862645149230957031int && table_digits(297, 316));
    assert(table_nat(297, 317) == 18626451492309570312int && table_digits(297, 317));
    assert(table_nat(297, 318) == 186264514923095703125int && table_digits(297, 318));
    assert(table_nat(318, 318) == 0 && table_digits(318, 318));
    assert(table_nat(318, 319) == 9int && table_digits(318, 319));
    assert(table_nat(318, 320) == 93int && table_digits(318, 320));
    assert(table_nat(318, 321) == 931int && table_digits(318, 321));
    assert(table_nat(318, 322) == 9313int && table_digits(318, 322));
    assert(table_nat(318, 323) == 93132int && table_digits(318, 323));
    assert(table_nat(318, 324) == 931322int && table_digits(318, 324));
    assert(table_nat(318, 325) == 9313225int && table_digits(318, 325));
    assert(table_nat(318, 326) == 93132257int && table_digits(318, 326));
    assert(table_nat(318, 327) == 931322574int && table_digits(318, 327));
    assert(table_nat(318, 328) == 9313225746int && table_digits(318, 328));
    assert(table_nat(318, 329) == 93132257461int && table_digits(318, 329));
    assert(table_nat(318, 330) == 931322574615int && table_digits(318, 330));
    assert(table_nat(318, 331) == 9313225746154int && table_digits(318, 331));
    assert(table_nat(318, 332) == 93132257461547int && table_digits(318, 332));
    assert(table_nat(318, 333) == 931322574615478int && table_digits(318, 333));
    assert(table_nat(318, 334) == 9313225746154785int && table_digits(318, 334));
    assert(table_nat(318, 335) == 93132257461547851int && table_digits(318, 335));
    assert(table_nat(318, 336) == 931322574615478515int && table_digits(318, 336));
    assert(table_nat(318, 337) == 9313225746154785156int && table_digits(318, 337));
    assert(table_nat(318, 338) == 93132257461547851562int && table_digits(318, 338));
    assert(table_nat(318, 339) == 931322574615478515625int && table_digits(318, 339));
    assert(table_nat(339, 339) == 0 && table_digits(339, 339));
    assert(table_nat(339, 340) == 4int && table_digits(339, 340));
    assert(table_nat(339, 341) == 46int && table_digits(339, 341));
    assert(table_nat(339, 342) == 465int && table_digits(339, 342));
    assert(table_nat(339, 343) == 4656int && table_digits(339, 343));
    assert(table_nat(339, 344) == 46566int && table_digits(339, 344));
    assert(table_nat(339, 345) == 465661int && table_digits(339, 345));
    assert(table_nat(339, 346) == 4656612int && table_digits(339, 346));
    assert(table_nat(339, 347) == 46566128int && table_digits(339, 347));
    assert(table_nat(339, 348) == 465661287int && table_digits(339, 348));
    assert(table_nat(339, 349) == 4656612873int && table_digits(339, 349));
    assert(table_nat(339, 350) == 46566128730int && table_digits(339, 350));
    assert(table_nat(339, 351) == 465661287307int && table_digits(339, 351));
    assert(table_nat(339, 352) == 4656612873077int && table_digits(339, 352));
    assert(table_nat(339, 353) == 46566128730773int && table_digits(339, 353));
    assert(table_nat(339, 354) == 465661287307739int && table_digits(339, 354));
    assert(table_nat(339, 355) == 4656612873077392int && table_digits(339, 355));
    assert(table_nat(339, 356) == 46566128730773925int && table_digits(339, 356));
    assert(table_nat(339, 357) == 465661287307739257int && table_digits(339, 357));
    assert(table_nat(339, 358) == 4656612873077392578int && table_digits(339, 358));
    assert(table_nat(339, 359) == 46566128730773925781int && table_digits(339, 359));
    assert(table_nat(339, 360) == 465661287307739257812int && table_digits(339, 360));
    assert(table_nat(339, 361) == 4656612873077392578125int && table_digits(339, 361));
    assert(table_nat(361, 361) == 0 && table_digits(361, 361));
    assert(table_nat(361, 362) == 2int && table_digits(361, 362));
    assert(table_nat(361, 363) == 23int && table_digits(361, 363));
    assert(table_nat(361, 364) == 232int && table_digits(361, 364));
    assert(table_nat(361, 365) == 2328int && table_digits(361, 365));
    assert(table_nat(361, 366) == 23283int && table_digits(361, 366));
    assert(table_nat(361, 367) == 232830int && table_digits(361, 367));
    assert(table_nat(361, 368) == 2328306int && table_digits(361, 368));
    assert(table_nat(361, 369) == 23283064int && table_digits(361, 369));
    assert(table_nat(361, 370) == 232830643int && table_digits(361, 370));
    assert(table_nat(361, 371) == 2328306436int && table_digits(361, 371));
    assert(table_nat(361, 372) == 23283064365int && table_digits(361, 372));
    assert(table_nat(361, 373) == 232830643653int && table_digits(361, 373));
    assert(table_nat(361, 374) == 2328306436538int && table_digits(361, 374));
    assert(table_nat(361, 375) == 23283064365386int && table_digits(361, 375));
    assert(table_nat(361, 376) == 232830643653869int && table_digits(361, 376));
    assert(table_nat(361, 377) == 2328306436538696int && table_digits(361, 377));
    assert(table_nat(361, 378) == 23283064365386962int && table_digits(361, 378));
    assert(table_nat(361, 379) == 232830643653869628int && table_digits(361, 379));
    assert(table_nat(361, 380) == 2328306436538696289int && table_digits(361, 380));
    assert(table_nat(361, 381) == 23283064365386962890int && table_digits(361, 381));
    assert(table_nat(361, 382) == 232830643653869628906int && table_digits(361, 382));
    assert(table_nat(361, 383) == 2328306436538696289062int && table_digits(361, 383));
    assert(table_nat(361, 384) == 23283064365386962890625int && table_digits(361, 384));
    assert(table_nat(384, 384) == 0 && table_digits(384, 384));
    assert(table_nat(384, 385) == 1int && table_digits(384, 385));
    assert(table_nat(384, 386) == 11int && table_digits(384, 386));
    assert(table_nat(384, 387) == 116int && table_digits(384, 387));
    assert(table_nat(384, 388) == 1164int && table_digits(384, 388));
    assert(table_nat(384, 389) == 11641int && table_digits(384, 389));
    assert(table_nat(384, 390) == 116415int && table_digits(384, 390));
    assert(table_nat(384, 391) == 1164153int && table_digits(384, 391));
    assert(table_nat(384, 392) == 11641532int && table_digits(384, 392));
    assert(table_nat(384, 393) == 116415321int && table_digits(384, 393));
    assert(table_nat(384, 394) == 1164153218int && table_digits(384, 394));
    assert(table_nat(384, 395) == 11641532182int && table_digits(384, 395));
    assert(table_nat(384, 396) == 116415321826int && table_digits(384, 396));
    assert(table_nat(384, 397) == 1164153218269int && table_digits(384, 397));
    assert(table_nat(384, 398) == 11641532182693int && table_digits(384, 398));
    assert(table_nat(384, 399) == 116415321826934int && table_digits(384, 399));
    assert(table_nat(384, 400) == 1164153218269348int && table_digits(384, 400));
    assert(table_nat(384, 401) == 11641532182693481int && table_digits(384, 401));
    assert(table_nat(384, 402) == 116415321826934814int && table_digits(384, 402));
    assert(table_nat(384, 403) == 1164153218269348144int && table_digits(384, 403));
    assert(table_nat(384, 404) == 11641532182693481445int && table_digits(384, 404));
    assert(table_nat(384, 405) == 116415321826934814453int && table_digits(384, 405));
    assert(table_nat(384, 406) == 1164153218269348144531int && table_digits(384, 406));
    assert(table_nat(384, 407) == 11641532182693481445312int && table_digits(384, 407));
    assert(table_nat(384, 408) == 116415321826934814453125int && table_digits(384, 408));
    assert(table_nat(408, 408) == 0 && table_digits(408, 408));
    assert(table_nat(408, 409) == 5int && table_digits(408, 409));
    assert(table_nat(408, 410) == 58int && table_digits(408, 410));
    assert(table_nat(408, 411) == 582int && table_digits(408, 411));
    assert(table_nat(408, 412) == 5820int && table_digits(408, 412));
    assert(table_nat(408, 413) == 58207int && table_digits(408, 413));
    assert(table_nat(408, 414) == 582076int && table_digits(408, 414));
    assert(table_nat(408, 415) == 5820766int && table_digits(408, 415));
    assert(table_nat(408, 416) == 58207660int && table_digits(408, 416));
    assert(table_nat(408, 417) == 582076609int && table_digits(408, 417));
    assert(table_nat(408, 418) == 5820766091int && table_digits(408, 418));
    assert(table_nat(408, 419) == 58207660913int && table_digits(408, 419));
    assert(table_nat(408, 420) == 582076609134int && table_digits(408, 420));
    assert(table_nat(408, 421) == 5820766091346int && table_digits(408, 421));
    assert(table_nat(408, 422) == 58207660913467int && table_digits(408, 422));
    assert(table_nat(408, 423) == 582076609134674int && table_digits(408, 423));
    assert(table_nat(408, 424) == 5820766091346740int && table_digits(408, 424));
    assert(table_nat(408, 425) == 58207660913467407int && table_digits(408, 425));
    assert(table_nat(408, 426) == 582076609134674072int && table_digits(408, 426));
    assert(table_nat(408, 427) == 5820766091346740722int && table_digits(408, 427));
    assert(table_nat(408, 428) == 58207660913467407226int && table_digits(408, 428));
    assert(table_nat(408, 429) == 582076609134674072265int && table_digits(408, 429));
    assert(table_nat(408, 430) == 5820766091346740722656int && table_digits(408, 430));
    assert(table_nat(408, 431) == 58207660913467407226562int && table_digits(408, 431));
    assert(table_nat(408, 432) == 582076609134674072265625int && table_digits(408, 432));
    assert(table_nat(432, 432) == 0 && table_digits(432, 432));
    assert(table_nat(432, 433) == 2int && table_digits(432, 433));
    assert(table_nat(432, 434) == 29int && table_digits(432, 434));
    assert(table_nat(432, 435) == 291int && table_digits(432, 435));
    assert(table_nat(432, 436) == 2910int && table_digits(432, 436));
    assert(table_nat(432, 437) == 29103int && table_digits(432, 437));
    assert(table_nat(432, 438) == 291038int && table_digits(432, 438));
    assert(table_nat(432, 439) == 2910383int && table_digits(432, 439));
    assert(table_nat(432, 440) == 29103830int && table_digits(432, 440));
    assert(table_nat(432, 441) == 291038304int && table_digits(432, 441));
    assert(table_nat(432, 442) == 2910383045int && table_digits(432, 442));
    assert(table_nat(432, 443) == 29103830456int && table_digits(432, 443));
    assert(table_nat(432, 444) == 291038304567int && table_digits(432, 444));
    assert(table_nat(432, 445) == 2910383045673int && table_digits(432, 445));
    assert(table_nat(432, 446) == 29103830456733int && table_digits(432, 446));
    assert(table_nat(432, 447) == 291038304567337int && table_digits(432, 447));
    assert(table_nat(432, 448) == 2910383045673370int && table_digits(432, 448));
    assert(table_nat(432, 449) == 29103830456733703int && table_digits(432, 449));
    assert(table_nat(432, 450) == 291038304567337036int && table_digits(432, 450));
    assert(table_nat(432, 451) == 2910383045673370361int && table_digits(432, 451));
    assert(table_nat(432, 452) == 29103830456733703613int && table_digits(432, 452));
    assert(table_nat(432, 453) == 291038304567337036132int && table_digits(432, 453));
    assert(table_nat(432, 454) == 2910383045673370361328int && table_digits(432, 454));
    assert(table_nat(432, 455) == 29103830456733703613281int && table_digits(432, 455));
    assert(table_nat(432, 456) == 291038304567337036132812int && table_digits(432, 456));
    assert(table_nat(432, 457) == 2910383045673370361328125int && table_digits(432, 457));
    assert(table_nat(457, 457) == 0 && table_digits(457, 457));
    assert(table_nat(457, 458) == 1int && table_digits(457, 458));
    assert(table_nat(457, 459) == 14int && table_digits(457, 459));
    assert(table_nat(457, 460) == 145int && table_digits(457, 460));
    assert(table_nat(457, 461) == 1455int && table_digits(457, 461));
    assert(table_nat(457, 462) == 14551int && table_digits(457, 462));
    assert(table_nat(457, 463) == 145519int && table_digits(457, 463));
    assert(table_nat(457, 464) == 1455191int && table_digits(457, 464));
    assert(table_nat(457, 465) == 14551915int && table_digits(457, 465));
    assert(table_nat(457, 466) == 145519152int && table_digits(457, 466));
    assert(table_nat(457, 467) == 1455191522int && table_digits(457, 467));
    assert(table_nat(457, 468) == 14551915228int && table_digits(457, 468));
    assert(table_nat(457, 469) == 145519152283int && table_digits(457, 469));
    assert(table_nat(457, 470) == 1455191522836int && table_digits(457, 470));
    assert(table_nat(457, 471) == 14551915228366int && table_digits(457, 471));
    assert(table_nat(457, 472) == 145519152283668int && table_digits(457, 472));
    assert(table_nat(457, 473) == 1455191522836685int && table_digits(457, 473));
    assert(table_nat(457, 474) == 14551915228366851int && table_digits(457, 474));
    assert(table_nat(457, 475) == 145519152283668518int && table_digits(457, 475));
    assert(table_nat(457, 476) == 1455191522836685180int && table_digits(457, 476));
    assert(table_nat(457, 477) == 14551915228366851806int && table_digits(457, 477));
    assert(table_nat(457, 478) == 145519152283668518066int && table_digits(457, 478));
    assert(table_nat(457, 479) == 1455191522836685180664int && table_digits(457, 479));
    assert(table_nat(457, 480) == 14551915228366851806640int && table_digits(457, 480));
    assert(table_nat(457, 481) == 145519152283668518066406int && table_digits(457, 481));
    assert(table_nat(457, 482) == 1455191522836685180664062int && table_digits(457, 482));
    assert(table_nat(457, 483) == 14551915228366851806640625int && table_digits(457, 483));
}

/// The digits of the powers of five from `5^37` to `5^44`, as the table
/// holds them.
proof fn lemma_digits_37_44()
    ensures
        table_nat(483, 509) == 72759576141834259033203125int,
        table_digits(483, 509),
        pow5_table()[483] != 0,
        pow5_table()[508] == 5,
        table_nat(509, 536) == 363797880709171295166015625int,
        table_digits(509, 536),
        pow5_table()[509] != 0,
        pow5_table()[535] == 5,
        table_nat(536, 564) == 1818989403545856475830078125int,
        table_digits(536, 564),
        pow5_table()[536] != 0,
        pow5_table()[563] == 5,
        table_nat(564, 592) == 9094947017729282379150390625int,
        table_digits(564, 592),
        pow5_table()[564] != 0,
        pow5_table()[591] == 5,
        table_nat(592, 621) == 45474735088646411895751953125int,
        table_digits(592, 621),
        pow5_table()[592] != 0,
        pow5_table()[620] == 5,
        table_nat(621, 651) == 227373675443232059478759765625int,
        table_digits(621, 651),
        pow5_table()[621] != 0,
        pow5_table()[650] == 5,
        table_nat(651, 682) == 1136868377216160297393798828125int,
        table_digits(651, 682),
        pow5_table()[651] != 0,
        pow5_table()[681] == 5,
        table_nat(682, 713) == 5684341886080801486968994140625int,
        table_digits(682, 713),
        pow5_table()[682] != 0,
        pow5_table()[712] == 5,
{
    assert(table_nat(483, 483) == 0 && table_digits(483, 483));
    assert(table_nat(483, 484) == 7int && table_digits(483, 484));
    assert(table_nat(483, 485) == 72int && table_digits(483, 485));
    assert(table_nat(483, 486) == 727int && table_digits(483, 486));
    assert(table_nat(483, 487) == 7275int && table_digits(483, 487));
    assert(table_nat(483, 488) == 72759int && table_digits(483, 488));
    assert(table_nat(483, 489) == 727595int && table_digits(483, 489));
    assert(table_nat(483, 490) == 7275957int && table_digits(483, 490));
    assert(table_nat(483, 491) == 72759576int && table_digits(483, 491));
    assert(table_nat(483, 492) == 727595761int && table_digits(483, 492));
    assert(table_nat(483, 493) == 7275957614int && table_digits(483, 493));
    assert(table_nat(483, 494) == 72759576141int && table_digits(483, 494));
    assert(table_nat(483, 495) == 727595761418int && table_digits(483, 495));
    assert(table_nat(483, 496) == 7275957614183int && table_digits(483, 496));
    assert(table_nat(483, 497) == 72759576141834int && table_digits(483, 497));
    assert(table_nat(483, 498) == 727595761418342int && table_digits(483, 498));
    assert(table_nat(483, 499) == 7275957614183425int && table_digits(483, 499));
    assert(table_nat(483, 500) == 72759576141834259int && table_digits(483, 500));
    assert(table_nat(483, 501) == 727595761418342590int && table_digits(483, 501));
    assert(table_nat(483, 502) == 7275957614183425903int && table_digits(483, 502));
    assert(table_nat(483, 503) == 72759576141834259033int && table_digits(483, 503));
    assert(table_nat(483, 504) == 727595761418342590332int && table_digits(483, 504));
    assert(table_nat(483, 505) == 7275957614183425903320int && table_digits(483, 505));
    assert(table_nat(483, 506) == 72759576141834259033203int && table_digits(483, 506));
    assert(table_nat(483, 507) == 727595761418342590332031int && table_digits(483, 507));
    assert(table_nat(483, 508) == 7275957614183425903320312int && table_digits(483, 508));
    assert(table_nat(483, 509) == 72759576141834259033203125int && table_digits(483, 509));
    assert(table_nat(509, 509) == 0 && table_digits(509, 509));
    assert(table_nat(509, 510) == 3int && table_digits(509, 510));
    assert(table_nat(509, 511) == 36int && table_digits(509, 511));
    assert(table_nat(509, 512) == 363int && table_digits(509, 512));
    assert(table_nat(509, 513) == 3637int && table_digits(509, 513));
    assert(table_nat(509, 514) == 36379int && table_digits(509, 514));
    assert(table_nat(509, 515) == 363797int && table_digits(509, 515));
    assert(table_nat(509, 516) == 3637978int && table_digits(509, 516));
    assert(table_nat(509, 517) == 36379788int && table_digits(509, 517));
    assert(table_nat(509, 518) == 363797880int && table_digits(509, 518));
    assert(table_nat(509, 519) == 3637978807int && table_digits(509, 519));
    assert(table_nat(509, 520) == 36379788070int && table_digits(509, 520));
    assert(table_nat(509, 521) == 363797880709int && table_digits(509, 521));
    assert(table_nat(509, 522) == 3637978807091int && table_digits(509, 522));
    assert(table_nat(509, 523) == 36379788070917int && table_digits(509, 523));
    assert(table_nat(509, 524) == 363797880709171int && table_digits(509, 524));
    assert(table_nat(509, 525) == 3637978807091712int && table_digits(509, 525));
    assert(table_nat(509, 526) == 36379788070917129int && table_digits(509, 526));
    assert(table_nat(509, 527) == 363797880709171295int && table_digits(509, 527));
    assert(table_nat(509, 528) == 3637978807091712951int && table_digits(509, 528));
    assert(table_nat(509, 529) == 36379788070917129516int && table_digits(509, 529));
    assert(table_nat(509, 530) == 363797880709171295166int && table_digits(509, 530));
    assert(table_nat(509, 531) == 3637978807091712951660int && table_digits(509, 531));
    assert(table_nat(509, 532) == 36379788070917129516601int && table_digits(509, 532));
    assert(table_nat(509, 533) == 363797880709171295166015int && table_digits(509, 533));
    assert(table_nat(509, 534) == 3637978807091712951660156int && table_digits(509, 534));
    assert(table_nat(509, 535) == 36379788070917129516601562int && table_digits(509, 535));
    assert(table_nat(509, 536) == 363797880709171295166015625int && table_digits(509, 536));
    assert(table_nat(536, 536) == 0 && table_digits(536, 536));
    assert(table_nat(536, 537) == 1int && table_digits(536, 537));
    assert(table_nat(536, 538) == 18int && table_digits(536, 538));
    assert(table_nat(536, 539) == 181int && table_digits(536, 539));
    assert(table_nat(536, 540) == 1818int && table_digits(536, 540));
    assert(table_nat(536, 541) == 18189int && table_digits(536, 541));
    assert(table_nat(536, 542) == 181898int && table_digits(536, 542));
    assert(table_nat(536, 543) == 1818989int && table_digits(536, 543));
    assert(table_nat(536, 544) == 18189894int && table_digits(536, 544));
    assert(table_nat(536, 545) == 181898940int && table_digits(536, 545));
    assert(table_nat(536, 546) == 1818989403int && table_digits(536, 546));
    assert(table_nat(536, 547) == 18189894035int && table_digits(536, 547));
    assert(table_nat(536, 548) == 181898940354int && table_digits(536, 548));
    assert(table_nat(536, 549) == 1818989403545int && table_digits(536, 549));
    assert(table_nat(536, 550) == 18189894035458int && table_digits(536, 550));
    assert(table_nat(536, 551) == 181898940354585int && table_digits(536, 551));
    assert(table_nat(536, 552) == 1818989403545856int && table_digits(536, 552));
    assert(table_nat(536, 553) == 18189894035458564int && table_digits(536, 553));
    assert(table_nat(536, 554) == 181898940354585647int && table_digits(536, 554));
    assert(table_nat(536, 555) == 1818989403545856475int && table_digits(536, 555));
    assert(table_nat(536, 556) == 18189894035458564758int && table_digits(536, 556));
    assert(table_nat(536, 557) == 181898940354585647583int && table_digits(536, 557));
    assert(table_nat(536, 558) == 1818989403545856475830int && table_digits(536, 558));
    assert(table_nat(536, 559) == 18189894035458564758300int && table_digits(536, 559));
    assert(table_nat(536, 560) == 181898940354585647583007int && table_digits(536, 560));
    assert(table_nat(536, 561) == 1818989403545856475830078int && table_digits(536, 561));
    assert(table_nat(536, 562) == 18189894035458564758300781int && table_digits(536, 562));
    assert(table_nat(536, 563) == 181898940354585647583007812int && table_digits(536, 563));
    assert(table_nat(536, 564) == 1818989403545856475830078125int && table_digits(536, 564));
    assert(table_nat(564, 564) == 0 && table_digits(564, 564));
    assert(table_nat(564, 565) == 9int && table_digits(564, 565));
    assert(table_nat(564, 566) == 90int && table_digits(564, 566));
    assert(table_nat(564, 567) == 909int && table_digits(564, 567));
    assert(table_nat(564, 568) == 9094int && table_digits(564, 568));
    assert(table_nat(564, 569) == 90949int && table_digits(564, 569));
    assert(table_nat(564, 570) == 909494int && table_digits(564, 570));
    assert(table_nat(564, 571) == 9094947int && table_digits(564, 571));
    assert(table_nat(564, 572) == 90949470int && table_digits(564, 572));
    assert(table_nat(564, 573) == 909494701int && table_digits(564, 573));
    assert(table_nat(564, 574) == 9094947017int && table_digits(564, 574));
    assert(table_nat(564, 575) == 90949470177int && table_digits(564, 575));
    assert(table_nat(564, 576) == 909494701772int && table_digits(564, 576));
    assert(table_nat(564, 577) == 9094947017729int && table_digits(564, 577));
    assert(table_nat(564, 578) == 90949470177292int && table_digits(564, 578));
    assert(table_nat(564, 579) == 909494701772928int && table_digits(564, 579));
    assert(table_nat(564, 580) == 9094947017729282int && table_digits(564, 580));
    assert(table_nat(564, 581) == 90949470177292823int && table_digits(564, 581));
    assert(table_nat(564, 582) == 909494701772928237int && table_digits(564, 582));
    assert(table_nat(564, 583) == 9094947017729282379int && table_digits(564, 583));
    assert(table_nat(564, 584) == 90949470177292823791int && table_digits(564, 584));
    assert(table_nat(564, 585) == 909494701772928237915int && table_digits(564, 585));
    assert(table_nat(564, 586) == 9094947017729282379150int && table_digits(564, 586));
    assert(table_nat(564, 587) == 90949470177292823791503int && table_digits(564, 587));
    assert(table_nat(564, 588) == 909494701772928237915039int && table_digits(564, 588));
    assert(table_nat(564, 589) == 9094947017729282379150390int && table_digits(564, 589));
    assert(table_nat(564, 590) == 90949470177292823791503906int && table_digits(564, 590));
    assert(table_nat(564, 591) == 909494701772928237915039062int && table_digits(564, 591));
    assert(table_nat(564, 592) == 9094947017729282379150390625int && table_digits(564, 592));
    assert(table_nat(592, 592) == 0 && table_digits(592, 592));
    assert(table_nat(592, 593) == 4int && table_digits(592, 593));
    assert(table_nat(592, 594) == 45int && table_digits(592, 594));
    assert(table_nat(592, 595) == 454int && table_digits(592, 595));
    assert(table_nat(592, 596) == 4547int && table_digits(592, 596));
    assert(table_nat(592, 597) == 45474int && table_digits(592, 597));
    assert(table_nat(592, 598) == 454747int && table_digits(592, 598));
    assert(table_nat(592, 599) == 4547473int && table_digits(592, 599));
    assert(table_nat(592, 600) == 45474735int && table_digits(592, 600));
    assert(table_nat(592, 601) == 454747350int && table_digits(592, 601));
    assert(table_nat(592, 602) == 4547473508int && table_digits(592, 602));
    assert(table_nat(592, 603) == 45474735088int && table_digits(592, 603));
    assert(table_nat(592, 604) == 454747350886int && table_digits(592, 604));
    assert(table_nat(592, 605) == 4547473508864int && table_digits(592, 605));
    assert(table_nat(592, 606) == 45474735088646int && table_digits(592, 606));
    assert(table_nat(592, 607) == 454747350886464int && table_digits(592, 607));
    assert(table_nat(592, 608) == 4547473508864641int && table_digits(592, 608));
    assert(table_nat(592, 609) == 45474735088646411int && table_digits(592, 609));
    assert(table_nat(592, 610) == 454747350886464118int && table_digits(592, 610));
    assert(table_nat(592, 611) == 4547473508864641189int && table_digits(592, 611));
    assert(table_nat(592, 612) == 45474735088646411895int && table_digits(592, 612));
    assert(table_nat(592, 613) == 454747350886464118957int && table_digits(592, 613));
    assert(table_nat(592, 614) == 4547473508864641189575int && table_digits(592, 614));
    assert(table_nat(592, 615) == 45474735088646411895751int && table_digits(592, 615));
    assert(table_nat(592, 616) == 454747350886464118957519int && table_digits(592, 616));
    assert(table_nat(592, 617) == 4547473508864641189575195int && table_digits(592, 617));
    assert(table_nat(592, 618) == 45474735088646411895751953int && table_digits(592, 618));
    assert(table_nat(592, 619) == 454747350886464118957519531int && table_digits(592, 619));
    assert(table_nat(592, 620) == 4547473508864641189575195312int && table_digits(592, 620));
    assert(table_nat(592, 621) == 45474735088646411895751953125int && table_digits(592, 621));
    assert(table_nat(621, 621) == 0 && table_digits(621, 621));
    assert(table_nat(621, 622) == 2int && table_digits(621, 622));
    assert(table_nat(621, 623) == 22int && table_digits(621, 623));
    assert(table_nat(621, 624) == 227int && table_digits(621, 624));
    assert(table_nat(621, 625) == 2273int && table_digits(621, 625));
    assert(table_nat(621, 626) == 22737int && table_digits(621, 626));
    assert(table_nat(621, 627) == 227373int && table_digits(621, 627));
    assert(table_nat(621, 628) == 2273736int && table_digits(621, 628));
    assert(table_nat(621, 629) == 22737367int && table_digits(621, 629));
    assert(table_nat(621, 630) == 227373675int && table_digits(621, 630));
    assert(table_nat(621, 631) == 2273736754int && table_digits(621, 631));
    assert(table_nat(621, 632) == 22737367544int && table_digits(621, 632));
    assert(table_nat(621, 633) == 227373675443int && table_digits(621, 633));
    assert(table_nat(621, 634) == 2273736754432int && table_digits(621, 634));
    assert(table_nat(621, 635) == 22737367544323int && table_digits(621, 635));
    assert(table_nat(621, 636) == 227373675443232int && table_digits(621, 636));
    assert(table_nat(621, 637) == 2273736754432320int && table_digits(621, 637));
    assert(table_nat(621, 638) == 22737367544323205int && table_digits(621, 638));
    assert(table_nat(621, 639) == 227373675443232059int && table_digits(621, 639));
    assert(table_nat(621, 640) == 2273736754432320594int && table_digits(621, 640));
    assert(table_nat(621, 641) == 22737367544323205947int && table_digits(621, 641));
    assert(table_nat(621, 642) == 227373675443232059478int && table_digits(621, 642));
    assert(table_nat(621, 643) == 2273736754432320594787int && table_digits(621, 643));
    assert(table_nat(621, 644) == 22737367544323205947875int && table_digits(621, 644));
    assert(table_nat(621, 645) == 227373675443232059478759int && table_digits(621, 645));
    assert(table_nat(621, 646) == 2273736754432320594787597int && table_digits(621, 646));
    assert(table_nat(621, 647) == 22737367544323205947875976int && table_digits(621, 647));
    assert(table_nat(621, 648) == 227373675443232059478759765int && table_digits(621, 648));
    assert(table_nat(621, 649) == 2273736754432320594787597656int && table_digits(621, 649));
    assert(table_nat(621, 650) == 22737367544323205947875976562int && table_digits(621, 650));
    assert(table_nat(621, 651) == 227373675443232059478759765625int && table_digits(621, 651));
    assert(table_nat(651, 651) == 0 && table_digits(651, 651));
    assert(table_nat(651, 652) == 1int && table_digits(651, 652));
    assert(table_nat(651, 653) == 11int && table_digits(651, 653));
    assert(table_nat(651, 654) == 113int && table_digits(651, 654));
    assert(table_nat(651, 655) == 1136int && table_digits(651, 655));
    assert(table_nat(651, 656) == 11368int && table_digits(651, 656));
    assert(table_nat(651, 657) == 113686int && table_digits(651, 657));
    assert(table_nat(651, 658) == 1136868int && table_digits(651, 658));
    assert(table_nat(651, 659) == 11368683int && table_digits(651, 659));
    assert(table_nat(651, 660) == 113686837int && table_digits(651, 660));
    assert(table_nat(651, 661) == 1136868377int && table_digits(651, 661));
    assert(table_nat(651, 662) == 11368683772int && table_digits(651, 662));
    assert(table_nat(651, 663) == 113686837721int && table_digits(651, 663));
    assert(table_nat(651, 664) == 1136868377216int && table_digits(651, 664));
    assert(table_nat(651, 665) == 11368683772161int && table_digits(651, 665));
    assert(table_nat(651, 666) == 113686837721616int && table_digits(651, 666));
    assert(table_nat(651, 667) == 1136868377216160int && table_digits(651, 667));
    assert(table_nat(651, 668) == 11368683772161602int && table_digits(651, 668));
    assert(table_nat(651, 669) == 113686837721616029int && table_digits(651, 669));
    assert(table_nat(651, 670) == 1136868377216160297int && table_digits(651, 670));
    assert(table_nat(651, 671) == 11368683772161602973int && table_digits(651, 671));
    assert(table_nat(651, 672) == 113686837721616029739int && table_digits(651, 672));
    assert(table_nat(651, 673) == 1136868377216160297393int && table_digits(651, 673));
    assert(table_nat(651, 674) == 11368683772161602973937int && table_digits(651, 674));
    assert(table_nat(651, 675) == 113686837721616029739379int && table_digits(651, 675));
    assert(table_nat(651, 676) == 1136868377216160297393798int && table_digits(651, 676));
    assert(table_nat(651, 677) == 11368683772161602973937988int && table_digits(651, 677));
    assert(table_nat(651, 678) == 113686837721616029739379882int && table_digits(651, 678));
    assert(table_nat(651, 679) == 1136868377216160297393798828int && table_digits(651, 679));
    assert(table_nat(651, 680) == 11368683772161602973937988281int && table_digits(651, 680));
    assert(table_nat(651, 681) == 113686837721616029739379882812int && table_digits(651, 681));
    assert(table_nat(651, 682) == 1136868377216160297393798828125int && table_digits(651, 682));
    assert(table_nat(682, 682) == 0 && table_digits(682, 682));
    assert(table_nat(682, 683) == 5int && table_digits(682, 683));
    assert(table_nat(682, 684) == 56int && table_digits(682, 684));
    assert(table_nat(682, 685) == 568int && table_digits(682, 685));
    assert(table_nat(682, 686) == 5684int && table_digits(682, 686));
    assert(table_nat(682, 687) == 56843int && table_digits(682, 687));
    assert(table_nat(682, 688) == 568434int && table_digits(682, 688));
    assert(table_nat(682, 689) == 5684341int && table_digits(682, 689));
    assert(table_nat(682, 690) == 56843418int && table_digits(682, 690));
    assert(table_nat(682, 691) == 568434188int && table_digits(682, 691));
    assert(table_nat(682, 692) == 5684341886int && table_digits(682, 692));
    assert(table_nat(682, 693) == 56843418860int && table_digits(682, 693));
    assert(table_nat(682, 694) == 568434188608int && table_digits(682, 694));
    assert(table_nat(682, 695) == 5684341886080int && table_digits(682, 695));
    assert(table_nat(682, 696) == 56843418860808int && table_digits(682, 696));
    assert(table_nat(682, 697) == 568434188608080int && table_digits(682, 697));
    assert(table_nat(682, 698) == 5684341886080801int && table_digits(682, 698));
    assert(table_nat(682, 699) == 56843418860808014int && table_digits(682, 699));
    assert(table_nat(682, 700) == 568434188608080148int && table_digits(682, 700));
    assert(table_nat(682, 701) == 5684341886080801486int && table_digits(682, 701));
    assert(table_nat(682, 702) == 56843418860808014869int && table_digits(682, 702));
    assert(table_nat(682, 703) == 568434188608080148696int && table_digits(682, 703));
    assert(table_nat(682, 704) == 5684341886080801486968int && table_digits(682, 704));
    assert(table_nat(682, 705) == 56843418860808014869689int && table_digits(682, 705));
    assert(table_nat(682, 706) == 568434188608080148696899int && table_digits(682, 706));
    assert(table_nat(682, 707) == 5684341886080801486968994int && table_digits(682, 707));
    assert(table_nat(682, 708) == 56843418860808014869689941int && table_digits(682, 708));
    assert(table_nat(682, 709) == 568434188608080148696899414int && table_digits(682, 709));
    assert(table_nat(682, 710) == 5684341886080801486968994140int && table_digits(682, 710));
    assert(table_nat(682, 711) == 56843418860808014869689941406int && table_digits(682, 711));
    assert(table_nat(682, 712) == 568434188608080148696899414062int && table_digits(682, 712));
    assert(table_nat(682, 713) == 5684341886080801486968994140625int && table_digits(682, 713));
}

/// The digits of the powers of five from `5^45` to `5^52`, as the table
/// holds them.
proof fn lemma_digits_45_52()
    ensures
        table_nat(713, 745) == 28421709430404007434844970703125int,
        table_digits(713, 745),
        pow5_table()[713] != 0,
        pow5_table()[744] == 5,
        table_nat(745, 778) == 142108547152020037174224853515625int,
        table_digits(745, 778),
        pow5_table()[745] != 0,
        pow5_table()[777] == 5,
        table_nat(778, 811) == 710542735760100185871124267578125int,
        table_digits(778, 811),
        pow5_table()[778] != 0,
        pow5_table()[810] == 5,
        table_nat(811, 845) == 3552713678800500929355621337890625int,
        table_digits(811, 845),
        pow5_table()[811] != 0,
        pow5_table()[844] == 5,
        table_nat(845, 880) == 17763568394002504646778106689453125int,
        table_digits(845, 880),
        pow5_table()[845] != 0,
        pow5_table()[879] == 5,
        table_nat(880, 915) == 88817841970012523233890533447265625int,
        table_digits(880, 915),
        pow5_table()[880] != 0,
        pow5_table()[914] == 5,
        table_nat(915, 951) == 444089209850062616169452667236328125int,
        table_digits(915, 951),
        pow5_table()[915] != 0,
        pow5_table()[950] == 5,
        table_nat(951, 988) == 2220446049250313080847263336181640625int,
        table_digits(951, 988),
        pow5_table()[951] != 0,
        pow5_table()[987] == 5,
{
    assert(table_nat(713, 713) == 0 && table_digits(713, 713));
    assert(table_nat(713, 714) == 2int && table_digits(713, 714));
    assert(table_nat(713, 715) == 28int && table_digits(713, 715));
    assert(table_nat(713, 716) == 284int && table_digits(713, 716));
    assert(table_nat(713, 717) == 2842int && table_digits(713, 717));
    assert(table_nat(713, 718) == 28421int && table_digits(713, 718));
    assert(table_nat(713, 719) == 284217int && table_digits(713, 719));
    assert(table_nat(713, 720) == 2842170int && table_digits(713, 720));
    assert(table_nat(713, 721) == 28421709int && table_digits(713, 721));
    assert(table_nat(713, 722) == 284217094int && table_digits(713, 722));
    assert(table_nat(713, 723) == 2842170943int && table_digits(713, 723));
    assert(table_nat(713, 724) == 28421709430int && table_digits(713, 724));
    assert(table_nat(713, 725) == 284217094304int && table_digits(713, 725));
    assert(table_nat(713, 726) == 2842170943040int && table_digits(713, 726));
    assert(table_nat(713, 727) == 28421709430404int && table_digits(713, 727));
    assert(table_nat(713, 728) == 284217094304040int && table_digits(713, 728));
    assert(table_nat(713, 729) == 2842170943040400int && table_digits(713, 729));
    assert(table_nat(713, 730) == 28421709430404007int && table_digits(713, 730));
    assert(table_nat(713, 731) == 284217094304040074int && table_digits(713, 731));
    assert(table_nat(713, 732) == 2842170943040400743int && table_digits(713, 732));
    assert(table_nat(713, 733) == 28421709430404007434int && table_digits(713, 733));
    assert(table_nat(713, 734) == 284217094304040074348int && table_digits(713, 734));
    assert(table_nat(713, 735) == 2842170943040400743484int && table_digits(713, 735));
    assert(table_nat(713, 736) == 28421709430404007434844int && table_digits(713, 736));
    assert(table_nat(713, 737) == 284217094304040074348449int && table_digits(713, 737));
    assert(table_nat(713, 738) == 2842170943040400743484497int && table_digits(713, 738));
    assert(table_nat(713, 739) == 28421709430404007434844970int && table_digits(713, 739));
    assert(table_nat(713, 740) == 284217094304040074348449707int && table_digits(713, 740));
    assert(table_nat(713, 741) == 2842170943040400743484497070int && table_digits(713, 741));
    assert(table_nat(713, 742) == 28421709430404007434844970703int && table_digits(713, 742));
    assert(table_nat(713, 743) == 284217094304040074348449707031int && table_digits(713, 743));
    assert(table_nat(713, 744) == 2842170943040400743484497070312int && table_digits(713, 744));
    assert(table_nat(713, 745) == 28421709430404007434844970703125int && table_digits(713, 745));
    assert(table_nat(745, 745) == 0 && table_digits(745, 745));
    assert(table_nat(745, 746) == 1int && table_digits(745, 746));
    assert(table_nat(745, 747) == 14int && table_digits(745, 747));
    assert(table_nat(745, 748) == 142int && table_digits(745, 748));
    assert(table_nat(745, 749) == 1421int && table_digits(745, 749));
    assert(table_nat(745, 750) == 14210int && table_digits(745, 750));
    assert(table_nat(745, 751) == 142108int && table_digits(745, 751));
    assert(table_nat(745, 752) == 1421085int && table_digits(745, 752));
    assert(table_nat(745, 753) == 14210854int && table_digits(745, 753));
    assert(table_nat(745, 754) == 142108547int && table_digits(745, 754));
    assert(table_nat(745, 755) == 1421085471int && table_digits(745, 755));
    assert(table_nat(745, 756) == 14210854715int && table_digits(745, 756));
    assert(table_nat(745, 757) == 142108547152int && table_digits(745, 757));
    assert(table_nat(745, 758) == 1421085471520int && table_digits(745, 758));
    assert(table_nat(745, 759) == 14210854715202int && table_digits(745, 759));
    assert(table_nat(745, 760) == 142108547152020int && table_digits(745, 760));
    assert(table_nat(745, 761) == 1421085471520200int && table_digits(745, 761));
    assert(table_nat(745, 762) == 14210854715202003int && table_digits(745, 762));
    assert(table_nat(745, 763) == 142108547152020037int && table_digits(745, 763));
    assert(table_nat(745, 764) == 1421085471520200371int && table_digits(745, 764));
    assert(table_nat(745, 765) == 14210854715202003717int && table_digits(745, 765));
    assert(table_nat(745, 766) == 142108547152020037174int && table_digits(745, 766));
    assert(table_nat(745, 767) == 1421085471520200371742int && table_digits(745, 767));
    assert(table_nat(745, 768) == 14210854715202003717422int && table_digits(745, 768));
    assert(table_nat(745, 769) == 142108547152020037174224int && table_digits(745, 769));
    assert(table_nat(745, 770) == 1421085471520200371742248int && table_digits(745, 770));
    assert(table_nat(745, 771) == 14210854715202003717422485int && table_digits(745, 771));
    assert(table_nat(745, 772) == 142108547152020037174224853int && table_digits(745, 772));
    assert(table_nat(745, 773) == 1421085471520200371742248535int && table_digits(745, 773));
    assert(table_nat(745, 774) == 14210854715202003717422485351int && table_digits(745, 774));
    assert(table_nat(745, 775) == 142108547152020037174224853515int && table_digits(745, 775));
    assert(table_nat(745, 776) == 1421085471520200371742248535156int && table_digits(745, 776));
    assert(table_nat(745, 777) == 14210854715202003717422485351562int && table_digits(745, 777));
    assert(table_nat(745, 778) == 142108547152020037174224853515625int && table_digits(745, 778));
    assert(table_nat(778, 778) == 0 && table_digits(778, 778));
    assert(table_nat(778, 779) == 7int && table_digits(778, 779));
    assert(table_nat(778, 780) == 71int && table_digits(778, 780));
    assert(table_nat(778, 781) == 710int && table_digits(778, 781));
    assert(table_nat(778, 782) == 7105int && table_digits(778, 782));
    assert(table_nat(778, 783) == 71054int && table_digits(778, 783));
    assert(table_nat(778, 784) == 710542int && table_digits(778, 784));
    assert(table_nat(778, 785) == 7105427int && table_digits(778, 785));
    assert(table_nat(778, 786) == 71054273int && table_digits(778, 786));
    assert(table_nat(778, 787) == 710542735int && table_digits(778, 787));
    assert(table_nat(778, 788) == 7105427357int && table_digits(778, 788));
    assert(table_nat(778, 789) == 71054273576int && table_digits(778, 789));
    assert(table_nat(778, 790) == 710542735760int && table_digits(778, 790));
    assert(table_nat(778, 791) == 7105427357601int && table_digits(778, 791));
    assert(table_nat(778, 792) == 71054273576010int && table_digits(778, 792));
    assert(table_nat(778, 793) == 710542735760100int && table_digits(778, 793));
    assert(table_nat(778, 794) == 7105427357601001int && table_digits(778, 794));
    assert(table_nat(778, 795) == 71054273576010018int && table_digits(778, 795));
    assert(table_nat(778, 796) == 710542735760100185int && table_digits(778, 796));
    assert(table_nat(778, 797) == 7105427357601001858int && table_digits(778, 797));
    assert(table_nat(778, 798) == 71054273576010018587int && table_digits(778, 798));
    assert(table_nat(778, 799) == 710542735760100185871int && table_digits(778, 799));
    assert(table_nat(778, 800) == 7105427357601001858711int && table_digits(778, 800));
    assert(table_nat(778, 801) == 71054273576010018587112int && table_digits(778, 801));
    assert(table_nat(778, 802) == 710542735760100185871124int && table_digits(778, 802));
    assert(table_nat(778, 803) == 7105427357601001858711242int && table_digits(778, 803));
    assert(table_nat(778, 804) == 71054273576010018587112426int && table_digits(778, 804));
    assert(table_nat(778, 805) == 710542735760100185871124267int && table_digits(778, 805));
    assert(table_nat(778, 806) == 7105427357601001858711242675int && table_digits(778, 806));
    assert(table_nat(778, 807) == 71054273576010018587112426757int && table_digits(778, 807));
    assert(table_nat(778, 808) == 710542735760100185871124267578int && table_digits(778, 808));
    assert(table_nat(778, 809) == 7105427357601001858711242675781int && table_digits(778, 809));
    assert(table_nat(778, 810) == 71054273576010018587112426757812int && table_digits(778, 810));
    assert(table_nat(778, 811) == 710542735760100185871124267578125int && table_digits(778, 811));
    assert(table_nat(811, 811) == 0 && table_digits(811, 811));
    assert(table_nat(811, 812) == 3int && table_digits(811, 812));
    assert(table_nat(811, 813) == 35int && table_digits(811, 813));
    assert(table_nat(811, 814) == 355int && table_digits(811, 814));
    assert(table_nat(811, 815) == 3552int && table_digits(811, 815));
    assert(table_nat(811, 816) == 35527int && table_digits(811, 816));
    assert(table_nat(811, 817) == 355271int && table_digits(811, 817));
    assert(table_nat(811, 818) == 3552713int && table_digits(811, 818));
    assert(table_nat(811, 819) == 35527136int && table_digits(811, 819));
    assert(table_nat(811, 820) == 355271367int && table_digits(811, 820));
    assert(table_nat(811, 821) == 3552713678int && table_digits(811, 821));
    assert(table_nat(811, 822) == 35527136788int && table_digits(811, 822));
    assert(table_nat(811, 823) == 355271367880int && table_digits(811, 823));
    assert(table_nat(811, 824) == 3552713678800int && table_digits(811, 824));
    assert(table_nat(811, 825) == 35527136788005int && table_digits(811, 825));
    assert(table_nat(811, 826) == 355271367880050int && table_digits(811, 826));
    assert(table_nat(811, 827) == 3552713678800500int && table_digits(811, 827));
    assert(table_nat(811, 828) == 35527136788005009int && table_digits(811, 828));
    assert(table_nat(811, 829) == 355271367880050092int && table_digits(811, 829));
    assert(table_nat(811, 830) == 3552713678800500929int && table_digits(811, 830));
    assert(table_nat(811, 831) == 35527136788005009293int && table_digits(811, 831));
    assert(table_nat(811, 832) == 355271367880050092935int && table_digits(811, 832));
    assert(table_nat(811, 833) == 3552713678800500929355int && table_digits(811, 833));
    assert(table_nat(811, 834) == 35527136788005009293556int && table_digits(811, 834));
    assert(table_nat(811, 835) == 355271367880050092935562int && table_digits(811, 835));
    assert(table_nat(811, 836) == 3552713678800500929355621int && table_digits(811, 836));
    assert(table_nat(811, 837) == 35527136788005009293556213int && table_digits(811, 837));
    assert(table_nat(811, 838) == 355271367880050092935562133int && table_digits(811, 838));
    assert(table_nat(811, 839) == 3552713678800500929355621337int && table_digits(811, 839));
    assert(table_nat(811, 840) == 35527136788005009293556213378int && table_digits(811, 840));
    assert(table_nat(811, 841) == 355271367880050092935562133789int && table_digits(811, 841));
    assert(table_nat(811, 842) == 3552713678800500929355621337890int && table_digits(811, 842));
    assert(table_nat(811, 843) == 35527136788005009293556213378906int && table_digits(811, 843));
    assert(table_nat(811, 844) == 355271367880050092935562133789062int && table_digits(811, 844));
    assert(table_nat(811, 845) == 3552713678800500929355621337890625int && table_digits(811, 845));
    assert(table_nat(845, 845) == 0 && table_digits(845, 845));
    assert(table_nat(845, 846) == 1int && table_digits(845, 846));
    assert(table_nat(845, 847) == 17int && table_digits(845, 847));
    assert(table_nat(845, 848) == 177int && table_digits(845, 848));
    assert(table_nat(845, 849) == 1776int && table_digits(845, 849));
    assert(table_nat(845, 850) == 17763int && table_digits(845, 850));
    assert(table_nat(845, 851) == 177635int && table_digits(845, 851));
    assert(table_nat(845, 852) == 1776356int && table_digits(845, 852));
    assert(table_nat(845, 853) == 17763568int && table_digits(845, 853));
    assert(table_nat(845, 854) == 177635683int && table_digits(845, 854));
    assert(table_nat(845, 855) == 1776356839int && table_digits(845, 855));
    assert(table_nat(845, 856) == 17763568394int && table_digits(845, 856));
    assert(table_nat(845, 857) == 177635683940int && table_digits(845, 857));
    assert(table_nat(845, 858) == 1776356839400int && table_digits(845, 858));
    assert(table_nat(845, 859) == 17763568394002int && table_digits(845, 859));
    assert(table_nat(845, 860) == 177635683940025int && table_digits(845, 860));
    assert(table_nat(845, 861) == 1776356839400250int && table_digits(845, 861));
    assert(table_nat(845, 862) == 17763568394002504int && table_digits(845, 862));
    assert(table_nat(845, 863) == 177635683940025046int && table_digits(845, 863));
    assert(table_nat(845, 864) == 1776356839400250464int && table_digits(845, 864));
    assert(table_nat(845, 865) == 17763568394002504646int && table_digits(845, 865));
    assert(table_nat(845, 866) == 177635683940025046467int && table_digits(845, 866));
    assert(table_nat(845, 867) == 1776356839400250464677int && table_digits(845, 867));
    assert(table_nat(845, 868) == 17763568394002504646778int && table_digits(845, 868));
    assert(table_nat(845, 869) == 177635683940025046467781int && table_digits(845, 869));
    assert(table_nat(845, 870) == 1776356839400250464677810int && table_digits(845, 870));
    assert(table_nat(845, 871) == 17763568394002504646778106int && table_digits(845, 871));
    assert(table_nat(845, 872) == 177635683940025046467781066int && table_digits(845, 872));
    assert(table_nat(845, 873) == 1776356839400250464677810668int && table_digits(845, 873));
    assert(table_nat(845, 874) == 17763568394002504646778106689int && table_digits(845, 874));
    assert(table_nat(845, 875) == 177635683940025046467781066894int && table_digits(845, 875));
    assert(table_nat(845, 876) == 1776356839400250464677810668945int && table_digits(845, 876));
    assert(table_nat(845, 877) == 17763568394002504646778106689453int && table_digits(845, 877));
    assert(table_nat(845, 878) == 177635683940025046467781066894531int && table_digits(845, 878));
    assert(table_nat(845, 879) == 1776356839400250464677810668945312int && table_digits(845, 879));
    assert(table_nat(845, 880) == 17763568394002504646778106689453125int && table_digits(845, 880));
    assert(table_nat(880, 880) == 0 && table_digits(880, 880));
    assert(table_nat(880, 881) == 8int && table_digits(880, 881));
    assert(table_nat(880, 882) == 88int && table_digits(880, 882));
    assert(table_nat(880, 883) == 888int && table_digits(880, 883));
    assert(table_nat(880, 884) == 8881int && table_digits(880, 884));
    assert(table_nat(880, 885) == 88817int && table_digits(880, 885));
    assert(table_nat(880, 886) == 888178int && table_digits(880, 886));
    assert(table_nat(880, 887) == 8881784int && table_digits(880, 887));
    assert(table_nat(880, 888) == 88817841int && table_digits(880, 888));
    assert(table_nat(880, 889) == 888178419int && table_digits(880, 889));
    assert(table_nat(880, 890) == 8881784197int && table_digits(880, 890));
    assert(table_nat(880, 891) == 88817841970int && table_digits(880, 891));
    assert(table_nat(880, 892) == 888178419700int && table_digits(880, 892));
    assert(table_nat(880, 893) == 8881784197001int && table_digits(880, 893));
    assert(table_nat(880, 894) == 88817841970012int && table_digits(880, 894));
    assert(table_nat(880, 895) == 888178419700125int && table_digits(880, 895));
    assert(table_nat(880, 896) == 8881784197001252int && table_digits(880, 896));
    assert(table_nat(880, 897) == 88817841970012523int && table_digits(880, 897));
    assert(table_nat(880, 898) == 888178419700125232int && table_digits(880, 898));
    assert(table_nat(880, 899) == 8881784197001252323int && table_digits(880, 899));
    assert(table_nat(880, 900) == 88817841970012523233int && table_digits(880, 900));
    assert(table_nat(880, 901) == 888178419700125232338int && table_digits(880, 901));
    assert(table_nat(880, 902) == 8881784197001252323389int && table_digits(880, 902));
    assert(table_nat(880, 903) == 88817841970012523233890int && table_digits(880, 903));
    assert(table_nat(880, 904) == 888178419700125232338905int && table_digits(880, 904));
    assert(table_nat(880, 905) == 8881784197001252323389053int && table_digits(880, 905));
    assert(table_nat(880, 906) == 88817841970012523233890533int && table_digits(880, 906));
    assert(table_nat(880, 907) == 888178419700125232338905334int && table_digits(880, 907));
    assert(table_nat(880, 908) == 8881784197001252323389053344int && table_digits(880, 908));
    assert(table_nat(880, 909) == 88817841970012523233890533447int && table_digits(880, 909));
    assert(table_nat(880, 910) == 888178419700125232338905334472int && table_digits(880, 910));
    assert(table_nat(880, 911) == 8881784197001252323389053344726int && table_digits(880, 911));
    assert(table_nat(880, 912) == 88817841970012523233890533447265int && table_digits(880, 912));
    assert(table_nat(880, 913) == 888178419700125232338905334472656int && table_digits(880, 913));
    assert(table_nat(880, 914) == 8881784197001252323389053344726562int && table_digits(880, 914));
    assert(table_nat(880, 915) == 88817841970012523233890533447265625int && table_digits(880, 915));
    assert(table_nat(915, 915) == 0 && table_digits(915, 915));
    assert(table_nat(915, 916) == 4int && table_digits(915, 916));
    assert(table_nat(915, 917) == 44int && table_digits(915, 917));
    assert(table_nat(915, 918) == 444int && table_digits(915, 918));
    assert(table_nat(915, 919) == 4440int && table_digits(915, 919));
    assert(table_nat(915, 920) == 44408int && table_digits(915, 920));
    assert(table_nat(915, 921) == 444089int && table_digits(915, 921));
    assert(table_nat(915, 922) == 4440892int && table_digits(915, 922));
    assert(table_nat(915, 923) == 44408920int && table_digits(915, 923));
    assert(table_nat(915, 924) == 444089209int && table_digits(915, 924));
    assert(table_nat(915, 925) == 4440892098int && table_digits(915, 925));
    assert(table_nat(915, 926) == 44408920985int && table_digits(915, 926));
    assert(table_nat(915, 927) == 444089209850int && table_digits(915, 927));
    assert(table_nat(915, 928) == 4440892098500int && table_digits(915, 928));
    assert(table_nat(915, 929) == 44408920985006int && table_digits(915, 929));
    assert(table_nat(915, 930) == 444089209850062int && table_digits(915, 930));
    assert(table_nat(915, 931) == 4440892098500626int && table_digits(915, 931));
    assert(table_nat(915, 932) == 44408920985006261int && table_digits(915, 932));
    assert(table_nat(915, 933) == 444089209850062616int && table_digits(915, 933));
    assert(table_nat(915, 934) == 4440892098500626161int && table_digits(915, 934));
    assert(table_nat(915, 935) == 44408920985006261616int && table_digits(915, 935));
    assert(table_nat(915, 936) == 444089209850062616169int && table_digits(915, 936));
    assert(table_nat(915, 937) == 4440892098500626161694int && table_digits(915, 937));
    assert(table_nat(915, 938) == 44408920985006261616945int && table_digits(915, 938));
    assert(table_nat(915, 939) == 444089209850062616169452int && table_digits(915, 939));
    assert(table_nat(915, 940) == 4440892098500626161694526int && table_digits(915, 940));
    assert(table_nat(915, 941) == 44408920985006261616945266int && table_digits(915, 941));
    assert(table_nat(915, 942) == 444089209850062616169452667int && table_digits(915, 942));
    assert(table_nat(915, 943) == 4440892098500626161694526672int && table_digits(915, 943));
    assert(table_nat(915, 944) == 44408920985006261616945266723int && table_digits(915, 944));
    assert(table_nat(915, 945) == 444089209850062616169452667236int && table_digits(915, 945));
    assert(table_nat(915, 946) == 4440892098500626161694526672363int && table_digits(915, 946));
    assert(table_nat(915, 947) == 44408920985006261616945266723632int && table_digits(915, 947));
    assert(table_nat(915, 948) == 444089209850062616169452667236328int && table_digits(915, 948));
    assert(table_nat(915, 949) == 4440892098500626161694526672363281int && table_digits(915, 949));
    assert(table_nat(915, 950) == 44408920985006261616945266723632812int && table_digits(915, 950));
    assert(table_nat(915, 951) == 444089209850062616169452667236328125int && table_digits(915, 951));
    assert(table_nat(951, 951) == 0 && table_digits(951, 951));
    assert(table_nat(951, 952) == 2int && table_digits(951, 952));
    assert(table_nat(951, 953) == 22int && table_digits(951, 953));
    assert(table_nat(951, 954) == 222int && table_digits(951, 954));
    assert(table_nat(951, 955) == 2220int && table_digits(951, 955));
    assert(table_nat(951, 956) == 22204int && table_digits(951, 956));
    assert(table_nat(951, 957) == 222044int && table_digits(951, 957));
    assert(table_nat(951, 958) == 2220446int && table_digits(951, 958));
    assert(table_nat(951, 959) == 22204460int && table_digits(951, 959));
    assert(table_nat(951, 960) == 222044604int && table_digits(951, 960));
    assert(table_nat(951, 961) == 2220446049int && table_digits(951, 961));
    assert(table_nat(951, 962) == 22204460492int && table_digits(951, 962));
    assert(table_nat(951, 963) == 222044604925int && table_digits(951, 963));
    assert(table_nat(951, 964) == 2220446049250int && table_digits(951, 964));
    assert(table_nat(951, 965) == 22204460492503int && table_digits(951, 965));
    assert(table_nat(951, 966) == 222044604925031int && table_digits(951, 966));
    assert(table_nat(951, 967) == 2220446049250313int && table_digits(951, 967));
    assert(table_nat(951, 968) == 22204460492503130int && table_digits(951, 968));
    assert(table_nat(951, 969) == 222044604925031308int && table_digits(951, 969));
    assert(table_nat(951, 970) == 2220446049250313080int && table_digits(951, 970));
    assert(table_nat(951, 971) == 22204460492503130808int && table_digits(951, 971));
    assert(table_nat(951, 972) == 222044604925031308084int && table_digits(951, 972));
    assert(table_nat(951, 973) == 2220446049250313080847int && table_digits(951, 973));
    assert(table_nat(951, 974) == 22204460492503130808472int && table_digits(951, 974));
    assert(table_nat(951, 975) == 222044604925031308084726int && table_digits(951, 975));
    assert(table_nat(951, 976) == 2220446049250313080847263int && table_digits(951, 976));
    assert(table_nat(951, 977) == 22204460492503130808472633int && table_digits(951, 977));
    assert(table_nat(951, 978) == 222044604925031308084726333int && table_digits(951, 978));
    assert(table_nat(951, 979) == 2220446049250313080847263336int && table_digits(951, 979));
    assert(table_nat(951, 980) == 22204460492503130808472633361int && table_digits(951, 980));
    assert(table_nat(951, 981) == 222044604925031308084726333618int && table_digits(951, 981));
    assert(table_nat(951, 982) == 2220446049250313080847263336181int && table_digits(951, 982));
    assert(table_nat(951, 983) == 22204460492503130808472633361816int && table_digits(951, 983));
    assert(table_nat(951, 984) == 222044604925031308084726333618164int && table_digits(951, 984));
    assert(table_nat(951, 985) == 2220446049250313080847263336181640int && table_digits(951, 985));
    assert(table_nat(951, 986) == 22204460492503130808472633361816406int && table_digits(951, 986));
    assert(table_nat(951, 987) == 222044604925031308084726333618164062int && table_digits(951, 987));
    assert(table_nat(951, 988) == 2220446049250313080847263336181640625int && table_digits(951, 988));
}

/// The digits of the powers of five from `5^53` to `5^60`, as the table
/// holds them.
proof fn lemma_digits_53_60()
    ensures
        table_nat(988, 1026) == 11102230246251565404236316680908203125int,
        table_digits(988, 1026),
        pow5_table()[988] != 0,
        pow5_table()[1025] == 5,
        table_nat(1026, 1064) == 55511151231257827021181583404541015625int,
        table_digits(1026, 1064),
        pow5_table()[1026] != 0,
        pow5_table()[1063] == 5,
        table_nat(1064, 1103) == 277555756156289135105907917022705078125int,
        table_digits(1064, 1103),
        pow5_table()[1064] != 0,
        pow5_table()[1102] == 5,
        table_nat(1103, 1143) == 1387778780781445675529539585113525390625int,
        table_digits(1103, 1143),
        pow5_table()[1103] != 0,
        pow5_table()[1142] == 5,
        table_nat(1143, 1183) == 6938893903907228377647697925567626953125int,
        table_digits(1143, 1183),
        pow5_table()[1143] != 0,
        pow5_table()[1182] == 5,
        table_nat(1183, 1224) == 34694469519536141888238489627838134765625int,
        table_digits(1183, 1224),
        pow5_table()[1183] != 0,
        pow5_table()[1223] == 5,
        table_nat(1224, 1266) == 173472347597680709441192448139190673828125int,
        table_digits(1224, 1266),
        pow5_table()[1224] != 0,
        pow5_table()[1265] == 5,
        table_nat(1266, 1308) == 867361737988403547205962240695953369140625int,
        table_digits(1266, 1308),
        pow5_table()[1266] != 0,
        pow5_table()[1307] == 5,
{
    assert(table_nat(988, 988) == 0 && table_digits(988, 988));
    assert(table_nat(988, 989) == 1int && table_digits(988, 989));
    assert(table_nat(988, 990) == 11int && table_digits(988, 990));
    assert(table_nat(988, 991) == 111int && table_digits(988, 991));
    assert(table_nat(988, 992) == 1110int && table_digits(988, 992));
    assert(table_nat(988, 993) == 11102int && table_digits(988, 993));
    assert(table_nat(988, 994) == 111022int && table_digits(988, 994));
    assert(table_nat(988, 995) == 1110223int && table_digits(988, 995));
    assert(table_nat(988, 996) == 11102230int && table_digits(988, 996));
    assert(table_nat(988, 997) == 111022302int && table_digits(988, 997));
    assert(table_nat(988, 998) == 1110223024int && table_digits(988, 998));
    assert(table_nat(988, 999) == 11102230246int && table_digits(988, 999));
    assert(table_nat(988, 1000) == 111022302462int && table_digits(988, 1000));
    assert(table_nat(988, 1001) == 1110223024625int && table_digits(988, 1001));
    assert(table_nat(988, 1002) == 11102230246251int && table_digits(988, 1002));
    assert(table_nat(988, 1003) == 111022302462515int && table_digits(988, 1003));
    assert(table_nat(988, 1004) == 1110223024625156int && table_digits(988, 1004));
    assert(table_nat(988, 1005) == 11102230246251565int && table_digits(988, 1005));
    assert(table_nat(988, 1006) == 111022302462515654int && table_digits(988, 1006));
    assert(table_nat(988, 1007) == 1110223024625156540int && table_digits(988, 1007));
    assert(table_nat(988, 1008) == 11102230246251565404int && table_digits(988, 1008));
    assert(table_nat(988, 1009) == 111022302462515654042int && table_digits(988, 1009));
    assert(table_nat(988, 1010) == 1110223024625156540423int && table_digits(988, 1010));
    assert(table_nat(988, 1011) == 11102230246251565404236int && table_digits(988, 1011));
    assert(table_nat(988, 1012) == 111022302462515654042363int && table_digits(988, 1012));
    assert(table_nat(988, 1013) == 1110223024625156540423631int && table_digits(988, 1013));
    assert(table_nat(988, 1014) == 11102230246251565404236316int && table_digits(988, 1014));
    assert(table_nat(988, 1015) == 111022302462515654042363166int && table_digits(988, 1015));
    assert(table_nat(988, 1016) == 1110223024625156540423631668int && table_digits(988, 1016));
    assert(table_nat(988, 1017) == 11102230246251565404236316680int && table_digits(988, 1017));
    assert(table_nat(988, 1018) == 111022302462515654042363166809int && table_digits(988, 1018));
    assert(table_nat(988, 1019) == 1110223024625156540423631668090int && table_digits(988, 1019));
    assert(table_nat(988, 1020) == 11102230246251565404236316680908int && table_digits(988, 1020));
    assert(table_nat(988, 1021) == 111022302462515654042363166809082int && table_digits(988, 1021));
    assert(table_nat(988, 1022) == 1110223024625156540423631668090820int && table_digits(988, 1022));
    assert(table_nat(988, 1023) == 11102230246251565404236316680908203int && table_digits(988, 1023));
    assert(table_nat(988, 1024) == 111022302462515654042363166809082031int && table_digits(988, 1024));
    assert(table_nat(988, 1025) == 1110223024625156540423631668090820312int && table_digits(988, 1025));
    assert(table_nat(988, 1026) == 11102230246251565404236316680908203125int && table_digits(988, 1026));
    assert(table_nat(1026, 1026) == 0 && table_digits(1026, 1026));
    assert(table_nat(1026, 1027) == 5int && table_digits(1026, 1027));
    assert(table_nat(1026, 1028) == 55int && table_digits(1026, 1028));
    assert(table_nat(1026, 1029) == 555int && table_digits(1026, 1029));
    assert(table_nat(1026, 1030) == 5551int && table_digits(1026, 1030));
    assert(table_nat(1026, 1031) == 55511int && table_digits(1026, 1031));
    assert(table_nat(1026, 1032) == 555111int && table_digits(1026, 1032));
    assert(table_nat(1026, 1033) == 5551115int && table_digits(1026, 1033));
    assert(table_nat(1026, 1034) == 55511151int && table_digits(1026, 1034));
    assert(table_nat(1026, 1035) == 555111512int && table_digits(1026, 1035));
    assert(table_nat(1026, 1036) == 5551115123int && table_digits(1026, 1036));
    assert(table_nat(1026, 1037) == 55511151231int && table_digits(1026, 1037));
    assert(table_nat(1026, 1038) == 555111512312int && table_digits(1026, 1038));
    assert(table_nat(1026, 1039) == 5551115123125int && table_digits(1026, 1039));
    assert(table_nat(1026, 1040) == 55511151231257int && table_digits(1026, 1040));
    assert(table_nat(1026, 1041) == 555111512312578int && table_digits(1026, 1041));
    assert(table_nat(1026, 1042) == 5551115123125782int && table_digits(1026, 1042));
    assert(table_nat(1026, 1043) == 55511151231257827int && table_digits(1026, 1043));
    assert(table_nat(1026, 1044) == 555111512312578270int && table_digits(1026, 1044));
    assert(table_nat(1026, 1045) == 5551115123125782702int && table_digits(1026, 1045));
    assert(table_nat(1026, 1046) == 55511151231257827021int && table_digits(1026, 1046));
    assert(table_nat(1026, 1047) == 555111512312578270211int && table_digits(1026, 1047));
    assert(table_nat(1026, 1048) == 5551115123125782702118int && table_digits(1026, 1048));
    assert(table_nat(1026, 1049) == 55511151231257827021181int && table_digits(1026, 1049));
    assert(table_nat(1026, 1050) == 555111512312578270211815int && table_digits(1026, 1050));
    assert(table_nat(1026, 1051) == 5551115123125782702118158int && table_digits(1026, 1051));
    assert(table_nat(1026, 1052) == 55511151231257827021181583int && table_digits(1026, 1052));
    assert(table_nat(1026, 1053) == 555111512312578270211815834int && table_digits(1026, 1053));
    assert(table_nat(1026, 1054) == 5551115123125782702118158340int && table_digits(1026, 1054));
    assert(table_nat(1026, 1055) == 55511151231257827021181583404int && table_digits(1026, 1055));
    assert(table_nat(1026, 1056) == 555111512312578270211815834045int && table_digits(1026, 1056));
    assert(table_nat(1026, 1057) == 5551115123125782702118158340454int && table_digits(1026, 1057));
    assert(table_nat(1026, 1058) == 55511151231257827021181583404541int && table_digits(1026, 1058));
    assert(table_nat(1026, 1059) == 555111512312578270211815834045410int && table_digits(1026, 1059));
    assert(table_nat(1026, 1060) == 5551115123125782702118158340454101int && table_digits(1026, 1060));
    assert(table_nat(1026, 1061) == 55511151231257827021181583404541015int && table_digits(1026, 1061));
    assert(table_nat(1026, 1062) == 555111512312578270211815834045410156int && table_digits(1026, 1062));
    assert(table_nat(1026, 1063) == 5551115123125782702118158340454101562int && table_digits(1026, 1063));
    assert(table_nat(1026, 1064) == 55511151231257827021181583404541015625int && table_digits(1026, 1064));
    assert(table_nat(1064, 1064) == 0 && table_digits(1064, 1064));
    assert(table_nat(1064, 1065) == 2int && table_digits(1064, 1065));
    assert(table_nat(1064, 1066) == 27int && table_digits(1064, 1066));
    assert(table_nat(1064, 1067) == 277int && table_digits(1064, 1067));
    assert(table_nat(1064, 1068) == 2775int && table_digits(1064, 1068));
    assert(table_nat(1064, 1069) == 27755int && table_digits(1064, 1069));
    assert(table_nat(1064, 1070) == 277555int && table_digits(1064, 1070));
    assert(table_nat(1064, 1071) == 2775557int && table_digits(1064, 1071));
    assert(table_nat(1064, 1072) == 27755575int && table_digits(1064, 1072));
    assert(table_nat(1064, 1073) == 277555756int && table_digits(1064, 1073));
    assert(table_nat(1064, 1074) == 2775557561int && table_digits(1064, 1074));
    assert(table_nat(1064, 1075) == 27755575615int && table_digits(1064, 1075));
    assert(table_nat(1064, 1076) == 277555756156int && table_digits(1064, 1076));
    assert(table_nat(1064, 1077) == 2775557561562int && table_digits(1064, 1077));
    assert(table_nat(1064, 1078) == 27755575615628int && table_digits(1064, 1078));
    assert(table_nat(1064, 1079) == 277555756156289int && table_digits(1064, 1079));
    assert(table_nat(1064, 1080) == 2775557561562891int && table_digits(1064, 1080));
    assert(table_nat(1064, 1081) == 27755575615628913int && table_digits(1064, 1081));
    assert(table_nat(1064, 1082) == 277555756156289135int && table_digits(1064, 1082));
    assert(table_nat(1064, 1083) == 2775557561562891351int && table_digits(1064, 1083));
    assert(table_nat(1064, 1084) == 27755575615628913510int && table_digits(1064, 1084));
    assert(table_nat(1064, 1085) == 277555756156289135105int && table_digits(1064, 1085));
    assert(table_nat(1064, 1086) == 2775557561562891351059int && table_digits(1064, 1086));
    assert(table_nat(1064, 1087) == 27755575615628913510590int && table_digits(1064, 1087));
    assert(table_nat(1064, 1088) == 277555756156289135105907int && table_digits(1064, 1088));
    assert(table_nat(1064, 1089) == 2775557561562891351059079int && table_digits(1064, 1089));
    assert(table_nat(1064, 1090) == 27755575615628913510590791int && table_digits(1064, 1090));
    assert(table_nat(1064, 1091) == 277555756156289135105907917int && table_digits(1064, 1091));
    assert(table_nat(1064, 1092) == 2775557561562891351059079170int && table_digits(1064, 1092));
    assert(table_nat(1064, 1093) == 27755575615628913510590791702int && table_digits(1064, 1093));
    assert(table_nat(1064, 1094) == 277555756156289135105907917022int && table_digits(1064, 1094));
    assert(table_nat(1064, 1095) == 2775557561562891351059079170227int && table_digits(1064, 1095));
    assert(table_nat(1064, 1096) == 27755575615628913510590791702270int && table_digits(1064, 1096));
    assert(table_nat(1064, 1097) == 277555756156289135105907917022705int && table_digits(1064, 1097));
    assert(table_nat(1064, 1098) == 2775557561562891351059079170227050int && table_digits(1064, 1098));
    assert(table_nat(1064, 1099) == 27755575615628913510590791702270507int && table_digits(1064, 1099));
    assert(table_nat(1064, 1100) == 277555756156289135105907917022705078int && table_digits(1064, 1100));
    assert(table_nat(1064, 1101) == 2775557561562891351059079170227050781int && table_digits(1064, 1101));
    assert(table_nat(1064, 1102) == 27755575615628913510590791702270507812int && table_digits(1064, 1102));
    assert(table_nat(1064, 1103) == 277555756156289135105907917022705078125int && table_digits(1064, 1103));
    assert(table_nat(1103, 1103) == 0 && table_digits(1103, 1103));
    assert(table_nat(1103, 1104) == 1int && table_digits(1103, 1104));
    assert(table_nat(1103, 1105) == 13int && table_digits(1103, 1105));
    assert(table_nat(1103, 1106) == 138int && table_digits(1103, 1106));
    assert(table_nat(1103, 1107) == 1387int && table_digits(1103, 1107));
    assert(table_nat(1103, 1108) == 13877int && table_digits(1103, 1108));
    assert(table_nat(1103, 1109) == 138777int && table_digits(1103, 1109));
    assert(table_nat(1103, 1110) == 1387778int && table_digits(1103, 1110));
    assert(table_nat(1103, 1111) == 13877787int && table_digits(1103, 1111));
    assert(table_nat(1103, 1112) == 138777878int && table_digits(1103, 1112));
    assert(table_nat(1103, 1113) == 1387778780int && table_digits(1103, 1113));
    assert(table_nat(1103, 1114) == 13877787807int && table_digits(1103, 1114));
    assert(table_nat(1103, 1115) == 138777878078int && table_digits(1103, 1115));
    assert(table_nat(1103, 1116) == 1387778780781int && table_digits(1103, 1116));
    assert(table_nat(1103, 1117) == 13877787807814int && table_digits(1103, 1117));
    assert(table_nat(1103, 1118) == 138777878078144int && table_digits(1103, 1118));
    assert(table_nat(1103, 1119) == 1387778780781445int && table_digits(1103, 1119));
    assert(table_nat(1103, 1120) == 13877787807814456int && table_digits(1103, 1120));
    assert(table_nat(1103, 1121) == 138777878078144567int && table_digits(1103, 1121));
    assert(table_nat(1103, 1122) == 1387778780781445675int && table_digits(1103, 1122));
    assert(table_nat(1103, 1123) == 13877787807814456755int && table_digits(1103, 1123));
    assert(table_nat(1103, 1124) == 138777878078144567552int && table_digits(1103, 1124));
    assert(table_nat(1103, 1125) == 1387778780781445675529int && table_digits(1103, 1125));
    assert(table_nat(1103, 1126) == 13877787807814456755295int && table_digits(1103, 1126));
    assert(table_nat(1103, 1127) == 138777878078144567552953int && table_digits(1103, 1127));
    assert(table_nat(1103, 1128) == 1387778780781445675529539int && table_digits(1103, 1128));
    assert(table_nat(1103, 1129) == 13877787807814456755295395int && table_digits(1103, 1129));
    assert(table_nat(1103, 1130) == 138777878078144567552953958int && table_digits(1103, 1130));
    assert(table_nat(1103, 1131) == 1387778780781445675529539585int && table_digits(1103, 1131));
    assert(table_nat(1103, 1132) == 13877787807814456755295395851int && table_digits(1103, 1132));
    assert(table_nat(1103, 1133) == 138777878078144567552953958511int && table_digits(1103, 1133));
    assert(table_nat(1103, 1134) == 1387778780781445675529539585113int && table_digits(1103, 1134));
    assert(table_nat(1103, 1135) == 13877787807814456755295395851135int && table_digits(1103, 1135));
    assert(table_nat(1103, 1136) == 138777878078144567552953958511352int && table_digits(1103, 1136));
    assert(table_nat(1103, 1137) == 1387778780781445675529539585113525int && table_digits(1103, 1137));
    assert(table_nat(1103, 1138) == 13877787807814456755295395851135253int && table_digits(1103, 1138));
    assert(table_nat(1103, 1139) == 138777878078144567552953958511352539int && table_digits(1103, 1139));
    assert(table_nat(1103, 1140) == 1387778780781445675529539585113525390int && table_digits(1103, 1140));
    assert(table_nat(1103, 1141) == 13877787807814456755295395851135253906int && table_digits(1103, 1141));
    assert(table_nat(1103, 1142) == 138777878078144567552953958511352539062int && table_digits(1103, 1142));
    assert(table_nat(1103, 1143) == 1387778780781445675529539585113525390625int && table_digits(1103, 1143));
    assert(table_nat(1143, 1143) == 0 && table_digits(1143, 1143));
    assert(table_nat(1143, 1144) == 6int && table_digits(1143, 1144));
    assert(table_nat(1143, 1145) == 69int && table_digits(1143, 1145));
    assert(table_nat(1143, 1146) == 693int && table_digits(1143, 1146));
    assert(table_nat(1143, 1147) == 6938int && table_digits(1143, 1147));
    assert(table_nat(1143, 1148) == 69388int && table_digits(1143, 1148));
    assert(table_nat(1143, 1149) == 693889int && table_digits(1143, 1149));
    assert(table_nat(1143, 1150) == 6938893int && table_digits(1143, 1150));
    assert(table_nat(1143, 1151) == 69388939int && table_digits(1143, 1151));
    assert(table_nat(1143, 1152) == 693889390int && table_digits(1143, 1152));
    assert(table_nat(1143, 1153) == 6938893903int && table_digits(1143, 1153));
    assert(table_nat(1143, 1154) == 69388939039int && table_digits(1143, 1154));
    assert(table_nat(1143, 1155) == 693889390390int && table_digits(1143, 1155));
    assert(table_nat(1143, 1156) == 6938893903907int && table_digits(1143, 1156));
    assert(table_nat(1143, 1157) == 69388939039072int && table_digits(1143, 1157));
    assert(table_nat(1143, 1158) == 693889390390722int && table_digits(1143, 1158));
    assert(table_nat(1143, 1159) == 6938893903907228int && table_digits(1143, 1159));
    assert(table_nat(1143, 1160) == 69388939039072283int && table_digits(1143, 1160));
    assert(table_nat(1143, 1161) == 693889390390722837int && table_digits(1143, 1161));
    assert(table_nat(1143, 1162) == 6938893903907228377int && table_digits(1143, 1162));
    assert(table_nat(1143, 1163) == 69388939039072283776int && table_digits(1143, 1163));
    assert(table_nat(1143, 1164) == 693889390390722837764int && table_digits(1143, 1164));
    assert(table_nat(1143, 1165) == 6938893903907228377647int && table_digits(1143, 1165));
    assert(table_nat(1143, 1166) == 69388939039072283776476int && table_digits(1143, 1166));
    assert(table_nat(1143, 1167) == 693889390390722837764769int && table_digits(1143, 1167));
    assert(table_nat(1143, 1168) == 6938893903907228377647697int && table_digits(1143, 1168));
    assert(table_nat(1143, 1169) == 69388939039072283776476979int && table_digits(1143, 1169));
    assert(table_nat(1143, 1170) == 693889390390722837764769792int && table_digits(1143, 1170));
    assert(table_nat(1143, 1171) == 6938893903907228377647697925int && table_digits(1143, 1171));
    assert(table_nat(1143, 1172) == 69388939039072283776476979255int && table_digits(1143, 1172));
    assert(table_nat(1143, 1173) == 693889390390722837764769792556int && table_digits(1143, 1173));
    assert(table_nat(1143, 1174) == 6938893903907228377647697925567int && table_digits(1143, 1174));
    assert(table_nat(1143, 1175) == 69388939039072283776476979255676int && table_digits(1143, 1175));
    assert(table_nat(1143, 1176) == 693889390390722837764769792556762int && table_digits(1143, 1176));
    assert(table_nat(1143, 1177) == 6938893903907228377647697925567626int && table_digits(1143, 1177));
    assert(table_nat(1143, 1178) == 69388939039072283776476979255676269int && table_digits(1143, 1178));
    assert(table_nat(1143, 1179) == 693889390390722837764769792556762695int && table_digits(1143, 1179));
    assert(table_nat(1143, 1180) == 6938893903907228377647697925567626953int && table_digits(1143, 1180));
    assert(table_nat(1143, 1181) == 69388939039072283776476979255676269531int && table_digits(1143, 1181));
    assert(table_nat(1143, 1182) == 693889390390722837764769792556762695312int && table_digits(1143, 1182));
    assert(table_nat(1143, 1183) == 6938893903907228377647697925567626953125int && table_digits(1143, 1183));
    assert(table_nat(1183, 1183) == 0 && table_digits(1183, 1183));
    assert(table_nat(1183, 1184) == 3int && table_digits(1183, 1184));
    assert(table_nat(1183, 1185) == 34int && table_digits(1183, 1185));
    assert(table_nat(1183, 1186) == 346int && table_digits(1183, 1186));
    assert(table_nat(1183, 1187) == 3469int && table_digits(1183, 1187));
    assert(table_nat(1183, 1188) == 34694int && table_digits(1183, 1188));
    assert(table_nat(1183, 1189) == 346944int && table_digits(1183, 1189));
    assert(table_nat(1183, 1190) == 3469446int && table_digits(1183, 1190));
    assert(table_nat(1183, 1191) == 34694469int && table_digits(1183, 1191));
    assert(table_nat(1183, 1192) == 346944695int && table_digits(1183, 1192));
    assert(table_nat(1183, 1193) == 3469446951int && table_digits(1183, 1193));
    assert(table_nat(1183, 1194) == 34694469519int && table_digits(1183, 1194));
    assert(table_nat(1183, 1195) == 346944695195int && table_digits(1183, 1195));
    assert(table_nat(1183, 1196) == 3469446951953int && table_digits(1183, 1196));
    assert(table_nat(1183, 1197) == 34694469519536int && table_digits(1183, 1197));
    assert(table_nat(1183, 1198) == 346944695195361int && table_digits(1183, 1198));
    assert(table_nat(1183, 1199) == 3469446951953614int && table_digits(1183, 1199));
    assert(table_nat(1183, 1200) == 34694469519536141int && table_digits(1183, 1200));
    assert(table_nat(1183, 1201) == 346944695195361418int && table_digits(1183, 1201));
    assert(table_nat(1183, 1202) == 3469446951953614188int && table_digits(1183, 1202));
    assert(table_nat(1183, 1203) == 34694469519536141888int && table_digits(1183, 1203));
    assert(table_nat(1183, 1204) == 346944695195361418882int && table_digits(1183, 1204));
    assert(table_nat(1183, 1205) == 3469446951953614188823int && table_digits(1183, 1205));
    assert(table_nat(1183, 1206) == 34694469519536141888238int && table_digits(1183, 1206));
    assert(table_nat(1183, 1207) == 346944695195361418882384int && table_digits(1183, 1207));
    assert(table_nat(1183, 1208) == 3469446951953614188823848int && table_digits(1183, 1208));
    assert(table_nat(1183, 1209) == 34694469519536141888238489int && table_digits(1183, 1209));
    assert(table_nat(1183, 1210) == 346944695195361418882384896int && table_digits(1183, 1210));
    assert(table_nat(1183, 1211) == 3469446951953614188823848962int && table_digits(1183, 1211));
    assert(table_nat(1183, 1212) == 34694469519536141888238489627int && table_digits(1183, 1212));
    assert(table_nat(1183, 1213) == 346944695195361418882384896278int && table_digits(1183, 1213));
    assert(table_nat(1183, 1214) == 3469446951953614188823848962783int && table_digits(1183, 1214));
    assert(table_nat(1183, 1215) == 34694469519536141888238489627838int && table_digits(1183, 1215));
    assert(table_nat(1183, 1216) == 346944695195361418882384896278381int && table_digits(1183, 1216));
    assert(table_nat(1183, 1217) == 3469446951953614188823848962783813int && table_digits(1183, 1217));
    assert(table_nat(1183, 1218) == 34694469519536141888238489627838134int && table_digits(1183, 1218));
    assert(table_nat(1183, 1219) == 346944695195361418882384896278381347int && table_digits(1183, 1219));
    assert(table_nat(1183, 1220) == 3469446951953614188823848962783813476int && table_digits(1183, 1220));
    assert(table_nat(1183, 1221) == 34694469519536141888238489627838134765int && table_digits(1183, 1221));
    assert(table_nat(1183, 1222) == 346944695195361418882384896278381347656int && table_digits(1183, 1222));
    assert(table_nat(1183, 1223) == 3469446951953614188823848962783813476562int && table_digits(1183, 1223));
    assert(table_nat(1183, 1224) == 34694469519536141888238489627838134765625int && table_digits(1183, 1224));
    assert(table_nat(1224, 1224) == 0 && table_digits(1224, 1224));
    assert(table_nat(1224, 1225) == 1int && table_digits(1224, 1225));
    assert(table_nat(1224, 1226) == 17int && table_digits(1224, 1226));
    assert(table_nat(1224, 1227) == 173int && table_digits(1224, 1227));
    assert(table_nat(1224, 1228) == 1734int && table_digits(1224, 1228));
    assert(table_nat(1224, 1229) == 17347int && table_digits(1224, 1229));
    assert(table_nat(1224, 1230) == 173472int && table_digits(1224, 1230));
    assert(table_nat(1224, 1231) == 1734723int && table_digits(1224, 1231));
    assert(table_nat(1224, 1232) == 17347234int && table_digits(1224, 1232));
    assert(table_nat(1224, 1233) == 173472347int && table_digits(1224, 1233));
    assert(table_nat(1224, 1234) == 1734723475int && table_digits(1224, 1234));
    assert(table_nat(1224, 1235) == 17347234759int && table_digits(1224, 1235));
    assert(table_nat(1224, 1236) == 173472347597int && table_digits(1224, 1236));
    assert(table_nat(1224, 1237) == 1734723475976int && table_digits(1224, 1237));
    assert(table_nat(1224, 1238) == 17347234759768int && table_digits(1224, 1238));
    assert(table_nat(1224, 1239) == 173472347597680int && table_digits(1224, 1239));
    assert(table_nat(1224, 1240) == 1734723475976807int && table_digits(1224, 1240));
    assert(table_nat(1224, 1241) == 17347234759768070int && table_digits(1224, 1241));
    assert(table_nat(1224, 1242) == 173472347597680709int && table_digits(1224, 1242));
    assert(table_nat(1224, 1243) == 1734723475976807094int && table_digits(1224, 1243));
    assert(table_nat(1224, 1244) == 17347234759768070944int && table_digits(1224, 1244));
    assert(table_nat(1224, 1245) == 173472347597680709441int && table_digits(1224, 1245));
    assert(table_nat(1224, 1246) == 1734723475976807094411int && table_digits(1224, 1246));
    assert(table_nat(1224, 1247) == 17347234759768070944119int && table_digits(1224, 1247));
    assert(table_nat(1224, 1248) == 173472347597680709441192int && table_digits(1224, 1248));
    assert(table_nat(1224, 1249) == 1734723475976807094411924int && table_digits(1224, 1249));
    assert(table_nat(1224, 1250) == 17347234759768070944119244int && table_digits(1224, 1250));
    assert(table_nat(1224, 1251) == 173472347597680709441192448int && table_digits(1224, 1251));
    assert(table_nat(1224, 1252) == 1734723475976807094411924481int && table_digits(1224, 1252));
    assert(table_nat(1224, 1253) == 17347234759768070944119244813int && table_digits(1224, 1253));
    assert(table_nat(1224, 1254) == 173472347597680709441192448139int && table_digits(1224, 1254));
    assert(table_nat(1224, 1255) == 1734723475976807094411924481391int && table_digits(1224, 1255));
    assert(table_nat(1224, 1256) == 17347234759768070944119244813919int && table_digits(1224, 1256));
    assert(table_nat(1224, 1257) == 173472347597680709441192448139190int && table_digits(1224, 1257));
    assert(table_nat(1224, 1258) == 1734723475976807094411924481391906int && table_digits(1224, 1258));
    assert(table_nat(1224, 1259) == 17347234759768070944119244813919067int && table_digits(1224, 1259));
    assert(table_nat(1224, 1260) == 173472347597680709441192448139190673int && table_digits(1224, 1260));
    assert(table_nat(1224, 1261) == 1734723475976807094411924481391906738int && table_digits(1224, 1261));
    assert(table_nat(1224, 1262) == 17347234759768070944119244813919067382int && table_digits(1224, 1262));
    assert(table_nat(1224, 1263) == 173472347597680709441192448139190673828int && table_digits(1224, 1263));
    assert(table_nat(1224, 1264) == 1734723475976807094411924481391906738281int && table_digits(1224, 1264));
    assert(table_nat(1224, 1265) == 17347234759768070944119244813919067382812int && table_digits(1224, 1265));
    assert(table_nat(1224, 1266) == 173472347597680709441192448139190673828125int && table_digits(1224, 1266));
    assert(table_nat(1266, 1266) == 0 && table_digits(1266, 1266));
    assert(table_nat(1266, 1267) == 8int && table_digits(1266, 1267));
    assert(table_nat(1266, 1268) == 86int && table_digits(1266, 1268));
    assert(table_nat(1266, 1269) == 867int && table_digits(1266, 1269));
    assert(table_nat(1266, 1270) == 8673int && table_digits(1266, 1270));
    assert(table_nat(1266, 1271) == 86736int && table_digits(1266, 1271));
    assert(table_nat(1266, 1272) == 867361int && table_digits(1266, 1272));
    assert(table_nat(1266, 1273) == 8673617int && table_digits(1266, 1273));
    assert(table_nat(1266, 1274) == 86736173int && table_digits(1266, 1274));
    assert(table_nat(1266, 1275) == 867361737int && table_digits(1266, 1275));
    assert(table_nat(1266, 1276) == 8673617379int && table_digits(1266, 1276));
    assert(table_nat(1266, 1277) == 86736173798int && table_digits(1266, 1277));
    assert(table_nat(1266, 1278) == 867361737988int && table_digits(1266, 1278));
    assert(table_nat(1266, 1279) == 8673617379884int && table_digits(1266, 1279));
    assert(table_nat(1266, 1280) == 86736173798840int && table_digits(1266, 1280));
    assert(table_nat(1266, 1281) == 867361737988403int && table_digits(1266, 1281));
    assert(table_nat(1266, 1282) == 8673617379884035int && table_digits(1266, 1282));
    assert(table_nat(1266, 1283) == 86736173798840354int && table_digits(1266, 1283));
    assert(table_nat(1266, 1284) == 867361737988403547int && table_digits(1266, 1284));
    assert(table_nat(1266, 1285) == 8673617379884035472int && table_digits(1266, 1285));
    assert(table_nat(1266, 1286) == 86736173798840354720int && table_digits(1266, 1286));
    assert(table_nat(1266, 1287) == 867361737988403547205int && table_digits(1266, 1287));
    assert(table_nat(1266, 1288) == 8673617379884035472059int && table_digits(1266, 1288));
    assert(table_nat(1266, 1289) == 86736173798840354720596int && table_digits(1266, 1289));
    assert(table_nat(1266, 1290) == 867361737988403547205962int && table_digits(1266, 1290));
    assert(table_nat(1266, 1291) == 8673617379884035472059622int && table_digits(1266, 1291));
    assert(table_nat(1266, 1292) == 86736173798840354720596224int && table_digits(1266, 1292));
    assert(table_nat(1266, 1293) == 867361737988403547205962240int && table_digits(1266, 1293));
    assert(table_nat(1266, 1294) == 8673617379884035472059622406int && table_digits(1266, 1294));
    assert(table_nat(1266, 1295) == 86736173798840354720596224069int && table_digits(1266, 1295));
    assert(table_nat(1266, 1296) == 867361737988403547205962240695int && table_digits(1266, 1296));
    assert(table_nat(1266, 1297) == 8673617379884035472059622406959int && table_digits(1266, 1297));
    assert(table_nat(1266, 1298) == 86736173798840354720596224069595int && table_digits(1266, 1298));
    assert(table_nat(1266, 1299) == 867361737988403547205962240695953int && table_digits(1266, 1299));
    assert(table_nat(1266, 1300) == 8673617379884035472059622406959533int && table_digits(1266, 1300));
    assert(table_nat(1266, 1301) == 86736173798840354720596224069595336int && table_digits(1266, 1301));
    assert(table_nat(1266, 1302) == 867361737988403547205962240695953369int && table_digits(1266, 1302));
    assert(table_nat(1266, 1303) == 8673617379884035472059622406959533691int && table_digits(1266, 1303));
    assert(table_nat(1266, 1304) == 86736173798840354720596224069595336914int && table_digits(1266, 1304));
    assert(table_nat(1266, 1305) == 867361737988403547205962240695953369140int && table_digits(1266, 1305));
    assert(table_nat(1266, 1306) == 8673617379884035472059622406959533691406int && table_digits(1266, 1306));
    assert(table_nat(1266, 1307) == 86736173798840354720596224069595336914062int && table_digits(1266, 1307));
    assert(table_nat(1266, 1308) == 867361737988403547205962240695953369140625int && table_digits(1266, 1308));
}

/// What the tables hold for the shift `s`: the digits of `5^s`, and the
/// number of digits of `2^s`, which with those of `5^s` make `s + 1`.
pub proof fn lemma_left_shift_table(s: nat)
    requires
        1 <= s <= 60,
    ensures
        pow5_table().len() == 1308,
        0 <= pow5_offset(s as int) < pow5_offset(s as int + 1) <= 1308,
        pow5_digits(s as int).len() == pow5_offset(s as int + 1) - pow5_offset(s as int),
        digits_nat(pow5_digits(s as int)) == pow5(s),
        all_digits(pow5_digits(s as int)),
        pow5_digits(s as int)[0] != 0,
        pow5_digits(s as int).last() == 5,
        new_digits_entry(s as int) + pow5_digits(s as int).len() == s + 1,
        new_digits_entry(s as int) >= 1,
        pow10((new_digits_entry(s as int) - 1) as nat) <= pow2(s) < pow10(
            new_digits_entry(s as int) as nat,
        ),
{
    lemma_pow5_values();
    lemma_pow10_values();
    lemma2_to64();
    lemma2_to64_rest();
    lemma_entries();
    if s < 16 {
        lemma_digits_1_15();
        lemma_table_range(pow5_offset(s as int), pow5_offset(s as int + 1));
    } else if s < 28 {
        lemma_digits_16_27();
        lemma_table_range(pow5_offset(s as int), pow5_offset(s as int + 1));
    } else if s < 37 {
        lemma_digits_28_36();
        lemma_table_range(pow5_offset(s as int), pow5_offset(s as int + 1));
    } else if s < 45 {
        lemma_digits_37_44();
        lemma_table_range(pow5_offset(s as int), pow5_offset(s as int + 1));
    } else if s < 53 {
        lemma_digits_45_52();
        lemma_table_range(pow5_offset(s as int), pow5_offset(s as int + 1));
    } else if s < 61 {
        lemma_digits_53_60();
        lemma_table_range(pow5_offset(s as int), pow5_offset(s as int + 1));
    }
}

/// What the tables hold for the shift zero: no digits.
pub proof fn lemma_left_shift_table_zero()
    ensures
        new_digits_entry(0) == 0,
        pow5_offset(0) == 0,
        pow5_offset(1) == 0,
{
    lemma_entries();
}

/// The two numbers that [`LEFT_SHIFT_TABLE`] holds for `shift`: the number
/// of digits of `2^shift`, and where the digits of `5^shift` start.
pub fn left_shift_entry(shift: usize) -> (r: (usize, usize))
    requires
        shift <= 61,
    ensures
        r.0 == new_digits_entry(shift as int),
        r.1 == pow5_offset(shift as int),
        r.1 <= 1308,
{
    let x = LEFT_SHIFT_TABLE[shift];
    assert(x >> 11 == x / 2048) by (bit_vector);
    assert(0x7FF & x == x % 2048) by (bit_vector);
    proof {
        lemma_entries();
    }
    ((x >> 11) as usize, (0x7FF & x) as usize)
}

/// The digit at `index` of [`LEFT_SHIFT_POW5`].
pub fn pow5_digit(index: usize) -> (r: u8)
    requires
        index < 1308,
    ensures
        r == pow5_table()[index as int],
{
    LEFT_SHIFT_POW5[index]
}

} // verus!
