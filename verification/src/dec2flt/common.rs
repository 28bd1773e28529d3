//! Shared helpers: byte cursors and the biased representation of a result.

use crate::dec2flt::parse::{digit_values, digits_end, is_digit, lemma_digits_end, NINE, ZERO};
use vstd::prelude::*;
use vstd::slice::slice_subrange;

verus! {

/// A significand with a biased binary exponent: `mantissa` goes into the
/// significand field of the encoding and `power2` into its exponent field.
///
/// A negative `power2` is not an exponent: it marks a result that could not
/// be determined.
#[derive(Debug, Copy, Clone, PartialEq, Eq, Structural)]
pub struct Fp {
    pub mantissa: u64,
    pub power2: i32,
}

impl Fp {
    /// The value with a zero significand and the biased exponent `power2`.
    pub fn zero_pow2(power2: i32) -> (r: Self)
        ensures
            r == (Fp { mantissa: 0, power2 }),
    {
        Self { mantissa: 0, power2 }
    }
}

/// The number that eight bytes denote in little-endian order.
pub open spec fn le_u64(s: Seq<u8>) -> nat {
    (s[0] as nat) + (s[1] as nat) * 0x100 + (s[2] as nat) * 0x1_0000 + (s[3] as nat) * 0x100_0000
        + (s[4] as nat) * 0x1_0000_0000 + (s[5] as nat) * 0x100_0000_0000 + (s[6] as nat)
        * 0x1_0000_0000_0000 + (s[7] as nat) * 0x100_0000_0000_0000
}

/// The byte of `v` at the place `i`, counted from the least significant.
pub open spec fn byte_at(v: u64, i: int) -> u64 {
    (v >> (8 * i)) & 0xFF
}

/// `r` is what `f` makes of `init` and the digits, taken one after the
/// other from the left: each call takes what the call before has returned.
pub open spec fn folds_to<T, F: Fn(T, u8) -> T>(f: F, init: T, digits: Seq<u8>, r: T) -> bool
    decreases digits.len(),
{
    if digits.len() == 0 {
        r == init
    } else {
        exists|mid: T|
            folds_to(f, init, digits.drop_last(), mid) && #[trigger] call_ensures(
                f,
                (mid, digits.last()),
                r,
            )
    }
}

/// One more digit for [`folds_to`].
pub proof fn lemma_folds_step<T, F: Fn(T, u8) -> T>(f: F, init: T, digits: Seq<u8>, mid: T, r: T)
    requires
        digits.len() > 0,
        folds_to(f, init, digits.drop_last(), mid),
        call_ensures(f, (mid, digits.last()), r),
    ensures
        folds_to(f, init, digits, r),
{
}

/// A cursor into a byte string: the bytes that are left to read.
#[derive(Debug, Clone, Copy)]
pub struct AsciiStr<'a> {
    bytes: &'a [u8],
    pos: usize,
}

impl<'a> AsciiStr<'a> {
    /// The cursor stands within the string, or at its end.
    #[verifier::type_invariant]
    spec fn wf(&self) -> bool {
        self.pos <= self.bytes@.len()
    }

    /// The bytes that are left.
    pub closed spec fn view(&self) -> Seq<u8> {
        self.bytes@.skip(self.pos as int)
    }

    /// The number of bytes that the cursor has gone past.
    pub closed spec fn consumed(&self) -> nat {
        self.pos as nat
    }

    /// The bytes that the cursor was made for.
    pub closed spec fn source(&self) -> Seq<u8> {
        self.bytes@
    }

    /// A cursor at the start of `s`.
    pub fn new(s: &'a [u8]) -> (r: Self)
        ensures
            r@ == s@,
            r.source() == s@,
            r.consumed() == 0,
    {
        Self { bytes: s, pos: 0 }
    }

    /// Advance the view by n, advancing it in-place to (n..).
    pub fn step_by(&mut self, n: usize) -> (r: &mut Self)
        requires
            n <= old(self)@.len(),
        ensures
            r@ == old(self)@.skip(n as int),
            r.consumed() == old(self).consumed() + n,
            r.source() == old(self).source(),
            *final(r) == *final(self),
    {
        let total = self.bytes.len();
        proof {
            use_type_invariant(&*self);
            assert(self.bytes@.skip(self.pos as int).len() == total - self.pos);
            assert(self.bytes@.skip(self.pos as int).skip(n as int) =~= self.bytes@.skip(
                self.pos + n,
            ));
        }
        self.pos = self.pos + n;
        self
    }

    /// Advance the view by n, advancing it in-place to (1..).
    pub fn step(&mut self) -> (r: &mut Self)
        requires
            old(self)@.len() > 0,
        ensures
            r@ == old(self)@.skip(1),
            r.consumed() == old(self).consumed() + 1,
            r.source() == old(self).source(),
            *final(r) == *final(self),
    {
        self.step_by(1)
    }

    /// Get if the slice contains no elements.
    pub fn is_empty(&self) -> (r: bool)
        ensures
            r == (self@.len() == 0),
    {
        proof {
            use_type_invariant(self);
        }
        self.pos == self.bytes.len()
    }

    /// Get the first element in the slice.
    pub fn first(&self) -> (r: u8)
        requires
            self@.len() > 0,
        ensures
            r == self@[0],
    {
        proof {
            use_type_invariant(self);
        }
        self.bytes[self.pos]
    }

    /// Check if the first character in the slice is equal to c.
    pub fn first_is(&self, c: u8) -> (r: bool)
        requires
            self@.len() > 0,
        ensures
            r == (self@[0] == c),
    {
        self.first() == c
    }

    /// Check if the first character in the slice is equal to c1 or c2.
    pub fn first_either(&self, c1: u8, c2: u8) -> (r: bool)
        requires
            self@.len() > 0,
        ensures
            r == (self@[0] == c1 || self@[0] == c2),
    {
        let c = self.first();
        c == c1 || c == c2
    }

    /// Bounds-checked test if the first character in the slice is equal to c.
    pub fn check_first(&self, c: u8) -> (r: bool)
        ensures
            r == (self@.len() > 0 && self@[0] == c),
    {
        !self.is_empty() && self.first() == c
    }

    /// Bounds-checked test if the first character in the slice is equal to c1 or c2.
    pub fn check_first_either(&self, c1: u8, c2: u8) -> (r: bool)
        ensures
            r == (self@.len() > 0 && (self@[0] == c1 || self@[0] == c2)),
    {
        !self.is_empty() && (self.first() == c1 || self.first() == c2)
    }

    /// Bounds-checked test if the first character in the slice is a digit.
    pub fn check_first_digit(&self) -> (r: bool)
        ensures
            r == (self@.len() > 0 && is_digit(self@[0])),
    {
        !self.is_empty() && self.first() >= ZERO && self.first() <= NINE
    }

    /// Iteratively parse and consume digits from bytes: `func` takes what
    /// it has made of the digits so far, starting with `init`, and the value
    /// of the next digit.
    pub fn parse_digits<T, F: Fn(T, u8) -> T>(&mut self, init: T, func: F) -> (r: T)
        requires
            forall|acc: T, digit: u8| digit <= 9 ==> call_requires(func, (acc, digit)),
        ensures
            final(self)@ == old(self)@.skip(digits_end(old(self)@, 0)),
            final(self).consumed() == old(self).consumed() + digits_end(old(self)@, 0),
            final(self).source() == old(self).source(),
            folds_to(func, init, digit_values(old(self)@, 0, digits_end(old(self)@, 0)), r),
    {
        let ghost start = self@;
        let ghost end = digits_end(start, 0);
        let ghost all = digit_values(start, 0, end);
        let ghost count: int = 0;
        let mut acc = init;
        proof {
            lemma_digits_end(start, 0);
            assert(all.take(0).len() == 0);
            assert(start.skip(0) =~= start);
        }
        while !self.is_empty() && self.first() >= ZERO && self.first() <= NINE
            invariant
                forall|acc: T, digit: u8| digit <= 9 ==> call_requires(func, (acc, digit)),
                0 <= count <= end <= start.len(),
                end == digits_end(start, 0),
                end == digits_end(start, count),
                all == digit_values(start, 0, end),
                self@ == start.skip(count),
                self.consumed() == old(self).consumed() + count,
                self.source() == old(self).source(),
                folds_to(func, init, all.take(count), acc),
            decreases start.len() - count,
        {
            proof {
                lemma_digits_end(start, count + 1);
                assert(self@[0] == start[count]);
            }
            let digit = self.first() - ZERO;
            let ghost before = acc;
            acc = func(acc, digit);
            self.step();
            proof {
                let t = all.take(count + 1);
                assert(t.drop_last() =~= all.take(count));
                assert(t.last() == digit);
                assert(start.skip(count).skip(1) =~= start.skip(count + 1));
                assert(folds_to(func, init, t.drop_last(), before) && call_ensures(
                    func,
                    (before, t.last()),
                    acc,
                ));
                lemma_folds_step(func, init, t, before, acc);
                count = count + 1;
            }
        }
        proof {
            assert(all.take(count) =~= all);
        }
        acc
    }

    /// Check if the slice at least `n` length.
    pub fn check_len(&self, n: usize) -> (r: bool)
        ensures
            r == (n <= self@.len()),
    {
        proof {
            use_type_invariant(self);
        }
        n <= self.bytes.len() - self.pos
    }

    /// Try to read the next 8 bytes from the slice.
    pub fn try_read_u64(&self) -> (r: Option<u64>)
        ensures
            r.is_some() == (self@.len() >= 8),
            r matches Some(v) ==> v == le_u64(self@),
    {
        if self.check_len(8) {
            Some(self.read_u64())
        } else {
            None
        }
    }

    /// Read 8 bytes as a 64-bit integer in little-endian order.
    pub fn read_u64(&self) -> (r: u64)
        requires
            self@.len() >= 8,
        ensures
            r == le_u64(self@),
    {
        proof {
            use_type_invariant(self);
        }
        let p = self.pos;
        let s = self.bytes;
        (s[p] as u64) + (s[p + 1] as u64) * 0x100 + (s[p + 2] as u64) * 0x1_0000 + (s[p + 3] as u64)
            * 0x100_0000 + (s[p + 4] as u64) * 0x1_0000_0000 + (s[p + 5] as u64) * 0x100_0000_0000
            + (s[p + 6] as u64) * 0x1_0000_0000_0000 + (s[p + 7] as u64) * 0x100_0000_0000_0000
    }

    /// How far this cursor is ahead of `other`: the difference of what the
    /// two have consumed. (Of cursors beyond `isize::MAX`, which no slice
    /// has room for, the difference is wrapped.)
    pub fn offset_from(&self, other: &Self) -> (r: isize)
        ensures
            self.consumed() <= isize::MAX && other.consumed() <= isize::MAX ==> r
                == self.consumed() - other.consumed(),
    {
        let here = #[verifier::truncate]
        (self.pos as isize);
        let there = #[verifier::truncate]
        (other.pos as isize);
        here.wrapping_sub(there)
    }
}

/// Two bytes that differ in nothing but the bit `0x20`, which tells the
/// upper case from the lower case of an ASCII letter.
pub open spec fn same_letter(a: u8, b: u8) -> bool {
    a ^ b == 0 || a ^ b == 0x20
}

/// `s` starts with `word`, but for the case of its letters.
pub open spec fn starts_with_ignore_case(s: Seq<u8>, word: Seq<u8>) -> bool {
    &&& word.len() <= s.len()
    &&& forall|i: int| 0 <= i < word.len() ==> same_letter(#[trigger] s[i], word[i])
}

/// Where the run of bytes equal to `c1` or `c2` ends that starts at `i`.
pub open spec fn run_end(s: Seq<u8>, c1: u8, c2: u8, i: int) -> int
    decreases s.len() - i,
{
    if 0 <= i < s.len() && (s[i] == c1 || s[i] == c2) {
        run_end(s, c1, c2, i + 1)
    } else {
        i
    }
}

/// The run of [`run_end`] ends within the string.
pub proof fn lemma_run_end(s: Seq<u8>, c1: u8, c2: u8, i: int)
    requires
        0 <= i <= s.len(),
    ensures
        i <= run_end(s, c1, c2, i) <= s.len(),
    decreases s.len() - i,
{
    if i < s.len() && (s[i] == c1 || s[i] == c2) {
        lemma_run_end(s, c1, c2, i + 1);
    }
}

/// Every byte of `v` is an ASCII digit.
pub open spec fn all_digit_bytes(v: u64) -> bool {
    forall|i: int| 0 <= i < 8 ==> ZERO <= #[trigger] byte_at(v, i) <= NINE
}

/// Operations on a string of bytes.
pub trait ByteSlice {
    /// The bytes.
    spec fn bytes(&self) -> Seq<u8>;

    /// The byte at `i`.
    fn get_at(&self, i: usize) -> (r: u8)
        requires
            i < self.bytes().len(),
        ensures
            r == self.bytes()[i as int],
    ;

    /// The first byte.
    fn get_first(&self) -> (r: u8)
        requires
            self.bytes().len() > 0,
        ensures
            r == self.bytes()[0],
    ;

    /// Check if the first character in the slice is equal to c.
    fn check_first(&self, c: u8) -> (r: bool)
        ensures
            r == (self.bytes().len() > 0 && self.bytes()[0] == c),
    ;

    /// Check if the first character in the slice is equal to c1 or c2.
    fn check_first2(&self, c1: u8, c2: u8) -> (r: bool)
        ensures
            r == (self.bytes().len() > 0 && (self.bytes()[0] == c1 || self.bytes()[0] == c2)),
    ;

    /// Check if self starts with u with a case-insensitive comparison.
    fn eq_ignore_case(&self, u: &[u8]) -> (r: bool)
        requires
            self.bytes().len() >= u@.len(),
        ensures
            r == starts_with_ignore_case(self.bytes(), u@),
    ;

    /// Get the remaining slice after the first N elements.
    fn advance(&self, n: usize) -> (r: &[u8])
        requires
            n <= self.bytes().len(),
        ensures
            r@ == self.bytes().skip(n as int),
    ;

    /// Get the slice after skipping all leading characters equal c.
    fn skip_chars(&self, c: u8) -> (r: &[u8])
        ensures
            r@ == self.bytes().skip(run_end(self.bytes(), c, c, 0)),
    ;

    /// Get the slice after skipping all leading characters equal c1 or c2.
    fn skip_chars2(&self, c1: u8, c2: u8) -> (r: &[u8])
        ensures
            r@ == self.bytes().skip(run_end(self.bytes(), c1, c2, 0)),
    ;

    /// Read 8 bytes as a 64-bit integer in little-endian order.
    fn read_u64(&self) -> (r: u64)
        requires
            self.bytes().len() >= 8,
        ensures
            r == le_u64(self.bytes()),
    ;

    /// Write a 64-bit integer as 8 bytes in little-endian order.
    fn write_u64(&mut self, value: u64)
        requires
            old(self).bytes().len() >= 8,
        ensures
            final(self).bytes().len() == old(self).bytes().len(),
            le_u64(final(self).bytes()) == value,
            final(self).bytes().skip(8) == old(self).bytes().skip(8),
    ;
}

impl ByteSlice for [u8] {
    open spec fn bytes(&self) -> Seq<u8> {
        self@
    }

    fn get_at(&self, i: usize) -> (r: u8) {
        self[i]
    }

    fn get_first(&self) -> (r: u8) {
        self.get_at(0)
    }

    fn check_first(&self, c: u8) -> (r: bool) {
        !self.is_empty() && self.get_first() == c
    }

    fn check_first2(&self, c1: u8, c2: u8) -> (r: bool) {
        !self.is_empty() && (self.get_first() == c1 || self.get_first() == c2)
    }

    fn eq_ignore_case(&self, u: &[u8]) -> (r: bool) {
        let mut d: u8 = 0;
        let mut i: usize = 0;
        while i < u.len()
            invariant
                i <= u@.len() <= self@.len(),
                (d == 0 || d == 0x20) <==> forall|j: int|
                    0 <= j < i ==> same_letter(#[trigger] self@[j], u@[j]),
            decreases u@.len() - i,
        {
            let x = self.get_at(i) ^ u.get_at(i);
            assert(((d | x) == 0 || (d | x) == 0x20) <==> ((d == 0 || d == 0x20) && (x == 0 || x
                == 0x20))) by (bit_vector);
            proof {
                if !(x == 0 || x == 0x20) {
                    assert(!same_letter(self@[i as int], u@[i as int]));
                }
            }
            d = d | x;
            i += 1;
        }
        d == 0 || d == 32
    }

    fn advance(&self, n: usize) -> (r: &[u8]) {
        slice_subrange(self, n, self.len())
    }

    fn skip_chars(&self, c: u8) -> (r: &[u8]) {
        self.skip_chars2(c, c)
    }

    fn skip_chars2(&self, c1: u8, c2: u8) -> (r: &[u8]) {
        let mut i: usize = 0;
        while i < self.len() && (self[i] == c1 || self[i] == c2)
            invariant
                i <= self@.len(),
                run_end(self@, c1, c2, 0) == run_end(self@, c1, c2, i as int),
            decreases self@.len() - i,
        {
            i += 1;
        }
        self.advance(i)
    }

    fn read_u64(&self) -> (r: u64) {
        (self[0] as u64) + (self[1] as u64) * 0x100 + (self[2] as u64) * 0x1_0000 + (
        self[3] as u64) * 0x100_0000 + (self[4] as u64) * 0x1_0000_0000 + (self[5] as u64)
            * 0x100_0000_0000 + (self[6] as u64) * 0x1_0000_0000_0000 + (self[7] as u64)
            * 0x100_0000_0000_0000
    }

    fn write_u64(&mut self, value: u64) {
        let ghost before = self@;
        let mut rest = value;
        self[0] = (rest % 0x100) as u8;
        rest = rest / 0x100;
        self[1] = (rest % 0x100) as u8;
        rest = rest / 0x100;
        self[2] = (rest % 0x100) as u8;
        rest = rest / 0x100;
        self[3] = (rest % 0x100) as u8;
        rest = rest / 0x100;
        self[4] = (rest % 0x100) as u8;
        rest = rest / 0x100;
        self[5] = (rest % 0x100) as u8;
        rest = rest / 0x100;
        self[6] = (rest % 0x100) as u8;
        rest = rest / 0x100;
        self[7] = (rest % 0x100) as u8;
        proof {
            assert(self@.skip(8) =~= before.skip(8));
        }
    }
}

/// Determine if 8 bytes, loaded in LE-order, are all decimal digits.
pub fn is_8digits(v: u64) -> (r: bool)
    ensures
        r == all_digit_bytes(v),
{
    let a = v.wrapping_add(0x4646_4646_4646_4646);
    let b = v.wrapping_sub(0x3030_3030_3030_3030);
    let ghost wide = v as u128;
    let ghost sum = (((wide + 0x4646_4646_4646_4646u128) as u128) % 0x1_0000_0000_0000_0000u128) as u64;
    let ghost difference = (((wide + 0xCFCF_CFCF_CFCF_CFD0u128) as u128) % 0x1_0000_0000_0000_0000u128) as u64;
    assert(a == sum);
    assert(b == difference);
    assert(((sum | difference) & 0x8080_8080_8080_8080u64 == 0) <==> ({
        &&& 0x30u64 <= (v >> 0u64) & 0xFFu64 && (v >> 0u64) & 0xFFu64 <= 0x39u64
        &&& 0x30u64 <= (v >> 8u64) & 0xFFu64 && (v >> 8u64) & 0xFFu64 <= 0x39u64
        &&& 0x30u64 <= (v >> 16u64) & 0xFFu64 && (v >> 16u64) & 0xFFu64 <= 0x39u64
        &&& 0x30u64 <= (v >> 24u64) & 0xFFu64 && (v >> 24u64) & 0xFFu64 <= 0x39u64
        &&& 0x30u64 <= (v >> 32u64) & 0xFFu64 && (v >> 32u64) & 0xFFu64 <= 0x39u64
        &&& 0x30u64 <= (v >> 40u64) & 0xFFu64 && (v >> 40u64) & 0xFFu64 <= 0x39u64
        &&& 0x30u64 <= (v >> 48u64) & 0xFFu64 && (v >> 48u64) & 0xFFu64 <= 0x39u64
        &&& 0x30u64 <= (v >> 56u64) & 0xFFu64 && (v >> 56u64) & 0xFFu64 <= 0x39u64
    })) by (bit_vector)
        requires
            wide == v as u128,
            sum == (((wide + 0x4646_4646_4646_4646u128) as u128) % 0x1_0000_0000_0000_0000u128) as u64,
            difference == (((wide + 0xCFCF_CFCF_CFCF_CFD0u128) as u128) % 0x1_0000_0000_0000_0000u128) as u64,
    ;
    proof {
        assert(byte_at(v, 0) == (v >> 0) & 0xFF);
        assert(byte_at(v, 1) == (v >> 8) & 0xFF);
        assert(byte_at(v, 2) == (v >> 16) & 0xFF);
        assert(byte_at(v, 3) == (v >> 24) & 0xFF);
        assert(byte_at(v, 4) == (v >> 32) & 0xFF);
        assert(byte_at(v, 5) == (v >> 40) & 0xFF);
        assert(byte_at(v, 6) == (v >> 48) & 0xFF);
        assert(byte_at(v, 7) == (v >> 56) & 0xFF);
    }
    (a | b) & 0x8080_8080_8080_8080 == 0
}

/// Iteratively parse and consume digits from bytes: `f` takes what it has
/// made of the digits so far, starting with `init`, and the value of the
/// next digit.
pub fn parse_digits<'a, T, F: Fn(T, u8) -> T>(s: &mut &'a [u8], init: T, f: F) -> (r: T)
    requires
        forall|acc: T, digit: u8| digit <= 9 ==> call_requires(f, (acc, digit)),
    ensures
        final(s)@ == old(s)@.skip(digits_end(old(s)@, 0)),
        folds_to(f, init, digit_values(old(s)@, 0, digits_end(old(s)@, 0)), r),
{
    let ghost start = s@;
    let ghost end = digits_end(start, 0);
    let ghost all = digit_values(start, 0, end);
    let ghost count: int = 0;
    let mut acc = init;
    proof {
        lemma_digits_end(start, 0);
        assert(all.take(0).len() == 0);
        assert(start.skip(0) =~= start);
    }
    while !s.is_empty()
        invariant
            forall|acc: T, digit: u8| digit <= 9 ==> call_requires(f, (acc, digit)),
            0 <= count <= end <= start.len(),
            end == digits_end(start, 0),
            end == digits_end(start, count),
            all == digit_values(start, 0, end),
            s@ == start.skip(count),
            folds_to(f, init, all.take(count), acc),
        ensures
            count == end,
            s@ == start.skip(count),
            folds_to(f, init, all.take(count), acc),
        decreases start.len() - count,
    {
        proof {
            lemma_digits_end(start, count + 1);
            assert(s@[0] == start[count]);
        }
        let c = s.get_first().wrapping_sub(ZERO);
        if c < 10 {
            let ghost before = acc;
            acc = f(acc, c);
            *s = s.advance(1);
            proof {
                let t = all.take(count + 1);
                assert(t.drop_last() =~= all.take(count));
                assert(t.last() == c);
                assert(start.skip(count).skip(1) =~= start.skip(count + 1));
                lemma_folds_step(f, init, t, before, acc);
                count = count + 1;
            }
        } else {
            break ;
        }
    }
    proof {
        assert(all.take(count) =~= all);
    }
    acc
}

} // verus!
