//! Decimal digit strings as natural numbers.

use vstd::arithmetic::power::{lemma_pow_adds, lemma_pow_increases, lemma_pow_positive, pow};
use vstd::prelude::*;

verus! {

/// `10^n`.
pub open spec fn pow10(n: nat) -> nat {
    pow(10, n) as nat
}

/// `5^n`.
pub open spec fn pow5(n: nat) -> nat {
    pow(5, n) as nat
}

/// The number that a string of decimal digits denotes, the most significant
/// digit first.
pub open spec fn digits_nat(s: Seq<u8>) -> nat
    decreases s.len(),
{
    if s.len() == 0 {
        0
    } else {
        digits_nat(s.drop_last()) * 10 + s.last() as nat
    }
}

/// The number of decimal digits of `x`, none for zero.
pub open spec fn digit_count(x: nat) -> nat
    decreases x,
{
    if x == 0 {
        0
    } else {
        1 + digit_count(x / 10)
    }
}

/// `x` without its trailing decimal zeros.
pub open spec fn strip_zeros(x: nat) -> nat
    decreases x,
{
    if x != 0 && x % 10 == 0 {
        strip_zeros(x / 10)
    } else {
        x
    }
}

/// Every element is a decimal digit.
pub open spec fn all_digits(s: Seq<u8>) -> bool {
    forall|i: int| 0 <= i < s.len() ==> #[trigger] s[i] <= 9
}

/// The powers of ten are positive, begin with one and ten, and each is ten
/// times the one before.
pub proof fn lemma_pow10(n: nat)
    ensures
        pow10(0) == 1,
        pow10(1) == 10,
        pow10(n) > 0,
        pow10(n + 1) == 10 * pow10(n),
{
    reveal(pow);
    lemma_pow_positive(10, n);
    lemma_pow_positive(10, n + 1);
    assert(pow(10, 1) == 10 * pow(10, 0));
}

/// The powers of ten that fit into a `u64`.
pub proof fn lemma_pow10_values()
    ensures
        pow10(0) == 1,
        pow10(1) == 10,
        pow10(2) == 100,
        pow10(3) == 1000,
        pow10(4) == 10000,
        pow10(5) == 100000,
        pow10(6) == 1000000,
        pow10(7) == 10000000,
        pow10(8) == 100000000,
        pow10(9) == 1000000000,
        pow10(10) == 10000000000,
        pow10(11) == 100000000000,
        pow10(12) == 1000000000000,
        pow10(13) == 10000000000000,
        pow10(14) == 100000000000000,
        pow10(15) == 1000000000000000,
        pow10(16) == 10000000000000000,
        pow10(17) == 100000000000000000,
        pow10(18) == 1000000000000000000,
        pow10(19) == 10000000000000000000,
{
    lemma_pow10(0);
    lemma_pow10(1);
    lemma_pow10(2);
    lemma_pow10(3);
    lemma_pow10(4);
    lemma_pow10(5);
    lemma_pow10(6);
    lemma_pow10(7);
    lemma_pow10(8);
    lemma_pow10(9);
    lemma_pow10(10);
    lemma_pow10(11);
    lemma_pow10(12);
    lemma_pow10(13);
    lemma_pow10(14);
    lemma_pow10(15);
    lemma_pow10(16);
    lemma_pow10(17);
    lemma_pow10(18);
}

/// The powers of five are positive, begin with one, and each is five times
/// the one before.
pub proof fn lemma_pow5(n: nat)
    ensures
        pow5(0) == 1,
        pow5(n) > 0,
        pow5(n + 1) == 5 * pow5(n),
{
    reveal(pow);
    lemma_pow_positive(5, n);
    lemma_pow_positive(5, n + 1);
}

/// Powers of ten multiply as their exponents add.
pub proof fn lemma_pow10_adds(a: nat, b: nat)
    ensures
        pow10(a + b) == pow10(a) * pow10(b),
{
    lemma_pow_adds(10, a, b);
    lemma_pow_positive(10, a);
    lemma_pow_positive(10, b);
    lemma_pow_positive(10, a + b);
}

/// The powers of ten are ordered as their exponents are.
pub proof fn lemma_pow10_increases(a: nat, b: nat)
    requires
        a <= b,
    ensures
        pow10(a) <= pow10(b),
        a < b ==> 10 * pow10(a) <= pow10(b),
{
    lemma_pow_positive(10, a);
    lemma_pow_positive(10, b);
    lemma_pow_increases(10, a, b);
    if a < b {
        lemma_pow10(a);
        lemma_pow_positive(10, a + 1);
        lemma_pow_increases(10, a + 1, b);
    }
}

/// A string of `n` digits denotes a number below `10^n`.
pub proof fn lemma_digits_nat_bound(s: Seq<u8>)
    requires
        all_digits(s),
    ensures
        digits_nat(s) < pow10(s.len()),
    decreases s.len(),
{
    if s.len() == 0 {
        lemma_pow10(0);
    } else {
        lemma_digits_nat_bound(s.drop_last());
        lemma_pow10((s.len() - 1) as nat);
        assert(s.last() <= 9);
    }
}

/// A string that starts with a non-zero digit denotes a number with as many
/// digits as the string has.
pub proof fn lemma_digits_nat_lower(s: Seq<u8>)
    requires
        s.len() > 0,
        s[0] != 0,
    ensures
        digits_nat(s) >= pow10((s.len() - 1) as nat),
    decreases s.len(),
{
    if s.len() == 1 {
        lemma_pow10(0);
        assert(s.drop_last().len() == 0);
        assert(digits_nat(s.drop_last()) == 0);
    } else {
        lemma_digits_nat_lower(s.drop_last());
        lemma_pow10((s.len() - 2) as nat);
    }
}

/// The number of a concatenation.
pub proof fn lemma_digits_nat_concat(a: Seq<u8>, b: Seq<u8>)
    ensures
        digits_nat(a + b) == digits_nat(a) * pow10(b.len()) + digits_nat(b),
    decreases b.len(),
{
    if b.len() == 0 {
        assert(a + b =~= a);
        lemma_pow10(0);
        assert(digits_nat(a) * 1 == digits_nat(a));
    } else {
        let p = pow10((b.len() - 1) as nat);
        let x = digits_nat(a);
        let y = digits_nat(b.drop_last());
        assert((a + b).drop_last() =~= a + b.drop_last());
        assert((a + b).last() == b.last());
        lemma_digits_nat_concat(a, b.drop_last());
        lemma_pow10((b.len() - 1) as nat);
        assert(digits_nat(a + b) == (x * p + y) * 10 + b.last() as nat);
        assert((x * p + y) * 10 == x * (10 * p) + y * 10) by (nonlinear_arith);
    }
}

/// The number of a prefix and of the rest, for a string cut at `k`.
pub proof fn lemma_digits_nat_split(s: Seq<u8>, k: int)
    requires
        0 <= k <= s.len(),
    ensures
        digits_nat(s) == digits_nat(s.take(k)) * pow10((s.len() - k) as nat) + digits_nat(
            s.skip(k),
        ),
{
    assert(s =~= s.take(k) + s.skip(k));
    lemma_digits_nat_concat(s.take(k), s.skip(k));
}

/// The last digit is the remainder modulo ten.
pub proof fn lemma_digits_nat_last(s: Seq<u8>)
    requires
        s.len() > 0,
        s.last() <= 9,
    ensures
        digits_nat(s) % 10 == s.last(),
        digits_nat(s) / 10 == digits_nat(s.drop_last()),
{
}

/// A string of zeros denotes zero, and no other string does.
pub proof fn lemma_digits_nat_zero(s: Seq<u8>)
    ensures
        digits_nat(s) == 0 <==> (forall|i: int| 0 <= i < s.len() ==> #[trigger] s[i] == 0),
    decreases s.len(),
{
    if s.len() > 0 {
        lemma_digits_nat_zero(s.drop_last());
        if digits_nat(s) == 0 {
            assert forall|i: int| 0 <= i < s.len() implies #[trigger] s[i] == 0 by {
                if i < s.len() - 1 {
                    assert(s.drop_last()[i] == s[i]);
                }
            }
        } else {
            if forall|i: int| 0 <= i < s.len() ==> #[trigger] s[i] == 0 {
                assert forall|i: int| 0 <= i < s.drop_last().len() implies #[trigger] s.drop_last()[i]
                    == 0 by {
                    assert(s.drop_last()[i] == s[i]);
                }
                assert(s.last() == s[s.len() - 1]);
                assert(false);
            }
        }
    }
}

/// Appending the digit `d` to `v`: the digit count grows by one, unless both
/// are zero.
pub proof fn lemma_append_digit(v: nat, d: nat)
    requires
        d <= 9,
    ensures
        v == 0 && d == 0 ==> digit_count(10 * v + d) == 0,
        v > 0 || d > 0 ==> digit_count(10 * v + d) == digit_count(v) + 1,
{
    if v > 0 || d > 0 {
        assert((10 * v + d) / 10 == v);
    }
}

/// Appending the digit `d` to `v`, where the last `k` digits of `v` are cut
/// off: as many digits and one are cut off `10 * v + d`, and the same
/// number stays.
pub proof fn lemma_append_cut(v: nat, d: nat, k: nat)
    requires
        d <= 9,
    ensures
        (10 * v + d) / pow10(k + 1) == v / pow10(k),
        (10 * v + d) % pow10(k + 1) == 10 * (v % pow10(k)) + d,
{
    let p = pow10(k);
    lemma_pow10(k);
    vstd::arithmetic::div_mod::lemma_fundamental_div_mod(v as int, p as int);
    vstd::arithmetic::div_mod::lemma_mod_bound(v as int, p as int);
    let q = v / p;
    let r = v % p;
    assert(10 * v + d == (10 * p) * q + (10 * r + d)) by (nonlinear_arith)
        requires
            v == p * q + r,
    ;
    vstd::arithmetic::div_mod::lemma_fundamental_div_mod_converse(
        (10 * v + d) as int,
        (10 * p) as int,
        q as int,
        (10 * r + d) as int,
    );
}

/// A positive number lies between the powers of ten that its digit count
/// names.
pub proof fn lemma_digit_count_bounds(x: nat)
    requires
        x > 0,
    ensures
        digit_count(x) >= 1,
        pow10((digit_count(x) - 1) as nat) <= x < pow10(digit_count(x)),
    decreases x,
{
    if x < 10 {
        assert(digit_count(x / 10) == 0);
        lemma_pow10(0);
    } else {
        lemma_digit_count_bounds(x / 10);
        lemma_pow10((digit_count(x / 10) - 1) as nat);
        lemma_pow10(digit_count(x / 10));
    }
}

/// The digit count is the one `k` with `10^(k-1) <= x < 10^k`.
pub proof fn lemma_digit_count_unique(x: nat, k: nat)
    requires
        k >= 1,
        pow10((k - 1) as nat) <= x < pow10(k),
    ensures
        digit_count(x) == k,
{
    lemma_pow10((k - 1) as nat);
    lemma_digit_count_bounds(x);
    let c = digit_count(x);
    if c < k {
        lemma_pow10_increases(c, (k - 1) as nat);
    } else if c > k {
        lemma_pow10_increases(k, (c - 1) as nat);
    }
}

/// The digit count does not decrease with the number.
pub proof fn lemma_digit_count_increases(x: nat, y: nat)
    requires
        x <= y,
    ensures
        digit_count(x) <= digit_count(y),
{
    if x > 0 {
        lemma_digit_count_bounds(x);
        lemma_digit_count_bounds(y);
        if digit_count(x) > digit_count(y) {
            lemma_pow10_increases(digit_count(y), (digit_count(x) - 1) as nat);
        }
    }
}

/// A string without a leading zero has as many digits as its number.
pub proof fn lemma_digits_nat_count(s: Seq<u8>)
    requires
        all_digits(s),
        s.len() > 0 ==> s[0] != 0,
    ensures
        digit_count(digits_nat(s)) == s.len(),
{
    if s.len() > 0 {
        lemma_digits_nat_bound(s);
        lemma_digits_nat_lower(s);
        lemma_digit_count_unique(digits_nat(s), s.len());
    }
}

/// A number times a power of ten: the digit count grows by the exponent.
pub proof fn lemma_digit_count_shift(x: nat, k: nat)
    requires
        x > 0,
    ensures
        digit_count(x * pow10(k)) == digit_count(x) + k,
{
    lemma_digit_count_bounds(x);
    let c = digit_count(x);
    lemma_pow10_adds((c - 1) as nat, k);
    lemma_pow10_adds(c, k);
    lemma_pow10(k);
    assert(pow10((c - 1) as nat) * pow10(k) <= x * pow10(k)) by (nonlinear_arith)
        requires
            pow10((c - 1) as nat) <= x,
    ;
    assert(x * pow10(k) < pow10(c) * pow10(k)) by (nonlinear_arith)
        requires
            x < pow10(c),
            pow10(k) > 0,
    ;
    lemma_digit_count_unique(x * pow10(k), c + k);
}

/// Trailing zeros do not matter to `strip_zeros`.
pub proof fn lemma_strip_zeros_shift(x: nat, k: nat)
    ensures
        strip_zeros(x * pow10(k)) == strip_zeros(x),
    decreases k,
{
    if k == 0 {
        lemma_pow10(0);
        assert(x * pow10(0) == x);
    } else if x == 0 {
        assert(x * pow10(k) == 0);
    } else {
        lemma_pow10((k - 1) as nat);
        let y = x * pow10((k - 1) as nat);
        assert(x * pow10(k) == y * 10) by (nonlinear_arith)
            requires
                pow10(k) == 10 * pow10((k - 1) as nat),
                y == x * pow10((k - 1) as nat),
        ;
        assert(y > 0) by (nonlinear_arith)
            requires
                y == x * pow10((k - 1) as nat),
                x > 0,
                pow10((k - 1) as nat) > 0,
        ;
        assert((y * 10) % 10 == 0 && (y * 10) / 10 == y);
        lemma_strip_zeros_shift(x, (k - 1) as nat);
    }
}

/// What `strip_zeros` yields is zero or does not end in a zero, and has the
/// leading digits of its argument.
pub proof fn lemma_strip_zeros(x: nat)
    ensures
        strip_zeros(x) == 0 <==> x == 0,
        x != 0 ==> strip_zeros(x) % 10 != 0,
        strip_zeros(x) <= x,
        exists|k: nat| x == strip_zeros(x) * #[trigger] pow10(k),
    decreases x,
{
    if x != 0 && x % 10 == 0 {
        lemma_strip_zeros(x / 10);
        let k = choose|k: nat| x / 10 == strip_zeros(x / 10) * #[trigger] pow10(k);
        lemma_pow10(k);
        assert(x == strip_zeros(x) * pow10(k + 1)) by (nonlinear_arith)
            requires
                x == (x / 10) * 10,
                x / 10 == strip_zeros(x) * pow10(k),
                pow10(k + 1) == 10 * pow10(k),
        ;
    } else {
        lemma_pow10(0);
        assert(x == strip_zeros(x) * pow10(0));
    }
}

} // verus!
