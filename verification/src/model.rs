//! The mathematical model of radix parsing: what a digit byte is worth, what a
//! run of digits denotes, how fixed-width wraparound arithmetic folds a value
//! into a type's range, and how many digits a bounded range can always absorb.
//!
//! Every public parsing contract of the crate is stated over these functions.

use vstd::prelude::*;

verus! {

use vstd::arithmetic::div_mod::*;
use vstd::arithmetic::mul::*;
use vstd::arithmetic::power::*;

use crate::fixed::FixedInt;

/// `v` reduced into the interval `[lo, hi]` modulo the interval's width: the
/// value that wraparound arithmetic on a type with range `[lo, hi]` yields
/// for the exact result `v`.
pub open spec fn wrap_to(v: int, lo: int, hi: int) -> int {
    lo + (v - lo) % (hi + 1 - lo)
}

/// Division truncating toward zero, as machine division of signed integers
/// rounds (spec `/` rounds toward negative infinity instead).
pub open spec fn trunc_div(a: int, b: int) -> int {
    if a >= 0 {
        a / b
    } else {
        -((-a) / b)
    }
}

/// Whether byte `b` is a digit of the given base. Base 10 accepts `'0'`
/// through `'9'`; base 16 additionally accepts `'a'`-`'f'` and `'A'`-`'F'`.
pub open spec fn is_radix_digit(b: u8, base: int) -> bool {
    (48 <= b <= 57) || (base == 16 && (97 <= b <= 102 || 65 <= b <= 70))
}

/// The numeric value of a digit byte, and 0 for bytes that are no digit.
pub open spec fn radix_digit_value(b: u8, base: int) -> int {
    if 48 <= b <= 57 {
        b - 48
    } else if base == 16 && 97 <= b <= 102 {
        b - 97 + 10
    } else if base == 16 && 65 <= b <= 70 {
        b - 65 + 10
    } else {
        0
    }
}

/// Length of the leading run of digit bytes of `s`.
pub open spec fn digit_run_len(s: Seq<u8>, base: int) -> nat
    decreases s.len(),
{
    if s.len() == 0 || !is_radix_digit(s[0], base) {
        0
    } else {
        1 + digit_run_len(s.skip(1), base)
    }
}

/// The number denoted by the bytes of `s` read as digits in the given base,
/// most significant digit first.
pub open spec fn radix_value(s: Seq<u8>, base: int) -> int
    decreases s.len(),
{
    if s.len() == 0 {
        0
    } else {
        radix_value(s.drop_last(), base) * base + radix_digit_value(s.last(), base)
    }
}

/// Whether byte `b` is a sign byte (`'+'` or `'-'`).
pub open spec fn is_sign_byte(b: u8) -> bool {
    b == 43 || b == 45
}

/// How many leading bytes of `s` a sign occupies: 1 if `s` starts with a
/// sign byte, otherwise 0.
pub open spec fn sign_offset(s: Seq<u8>) -> int {
    if s.len() > 0 && is_sign_byte(s[0]) {
        1
    } else {
        0
    }
}

/// Whether `s` starts with a minus sign.
pub open spec fn begins_minus(s: Seq<u8>) -> bool {
    s.len() > 0 && s[0] == 45
}

/// How many digit bytes follow the optional sign of `s`.
pub open spec fn signed_digit_count(s: Seq<u8>, base: int) -> nat {
    digit_run_len(s.skip(sign_offset(s)), base)
}

/// How many bytes a signed parse of `s` consumes: sign plus digits, and 0
/// when no digit follows the optional sign (a lone sign is no number).
pub open spec fn signed_consumed(s: Seq<u8>, base: int) -> int {
    if signed_digit_count(s, base) == 0 {
        0
    } else {
        sign_offset(s) + signed_digit_count(s, base)
    }
}

/// The exact (unbounded) value a signed parse of `s` denotes: the value of
/// the digits after the optional sign, negated after a minus sign.
pub open spec fn signed_value(s: Seq<u8>, base: int) -> int {
    let mag = radix_value(
        s.skip(sign_offset(s)).take(signed_digit_count(s, base) as int),
        base,
    );
    if begins_minus(s) {
        -mag
    } else {
        mag
    }
}

/// How often `v` can be divided by `radix` until it reaches 0: the number of
/// digits of `v` in that base, for nonnegative `v`.
pub open spec fn num_digits_pos(v: int, radix: int) -> nat
    decreases v,
    when v >= 0 && radix >= 2
{
    if v <= 0 {
        0
    } else {
        proof {
            lemma_div_decreases(v, radix);
            lemma_div_pos_is_pos(v, radix);
        }
        1 + num_digits_pos(v / radix, radix)
    }
}

/// How often a nonpositive `v` can be divided (truncating toward zero) by
/// `radix` until it reaches 0: the number of digits of its magnitude.
pub open spec fn num_digits_neg(v: int, radix: int) -> nat
    decreases -v,
    when v <= 0 && radix >= 2
{
    if v >= 0 {
        0
    } else {
        proof {
            lemma_div_decreases(-v, radix);
            lemma_div_pos_is_pos(-v, radix);
        }
        1 + num_digits_neg(trunc_div(v, radix), radix)
    }
}

/// A value already inside `[lo, hi]` wraps to itself.
pub proof fn lemma_wrap_in_range(v: int, lo: int, hi: int)
    requires
        lo <= v <= hi,
    ensures
        wrap_to(v, lo, hi) == v,
{
    lemma_small_mod((v - lo) as nat, (hi + 1 - lo) as nat);
}

/// Shifting a value by a multiple of the interval's width does not change
/// what it wraps to.
pub proof fn lemma_wrap_shift(v: int, k: int, lo: int, hi: int)
    requires
        lo <= hi,
    ensures
        wrap_to(v + k * (hi + 1 - lo), lo, hi) == wrap_to(v, lo, hi),
{
    let r = hi + 1 - lo;
    assert(v + k * r - lo == r * k + (v - lo)) by {
        lemma_mul_is_commutative(k, r);
    }
    lemma_mod_multiples_vanish(k, v - lo, r);
}

/// A value just above the interval wraps to itself minus the interval's
/// width.
pub proof fn lemma_wrap_above(v: int, lo: int, hi: int)
    requires
        lo <= hi,
        hi < v <= hi + (hi + 1 - lo),
    ensures
        wrap_to(v, lo, hi) == v - (hi + 1 - lo),
{
    let r = hi + 1 - lo;
    lemma_wrap_shift(v - r, 1, lo, hi);
    lemma_wrap_in_range(v - r, lo, hi);
}

/// A value just below the interval wraps to itself plus the interval's
/// width.
pub proof fn lemma_wrap_below(v: int, lo: int, hi: int)
    requires
        lo <= hi,
        lo - (hi + 1 - lo) <= v < lo,
    ensures
        wrap_to(v, lo, hi) == v + (hi + 1 - lo),
{
    let r = hi + 1 - lo;
    lemma_wrap_shift(v, 1, lo, hi);
    lemma_wrap_in_range(v + r, lo, hi);
}

/// Wrapping into a two's-complement range `[-hi - 1, hi]`, written with the
/// euclidean remainder: the form in which the standard library's wrapping
/// multiplication of signed integers is specified.
pub proof fn lemma_wrap_two_complement(p: int, hi: int)
    requires
        hi >= 1,
    ensures
        wrap_to(p, -hi - 1, hi) == if p % (2 * (hi + 1)) > hi {
            p % (2 * (hi + 1)) - 2 * (hi + 1)
        } else {
            p % (2 * (hi + 1))
        },
{
    let lo = -hi - 1;
    let r = 2 * (hi + 1);
    let q = p % r;
    lemma_mod_bound(p, r);
    lemma_fundamental_div_mod(p, r);
    assert(p == q + (p / r) * r) by {
        lemma_mul_is_commutative(p / r, r);
    }
    assert(wrap_to(q + (p / r) * r, lo, hi) == wrap_to(q, lo, hi)) by {
        lemma_wrap_shift(q, p / r, lo, hi);
    }
    if q > hi {
        lemma_wrap_above(q, lo, hi);
    } else {
        lemma_wrap_in_range(q, lo, hi);
    }
}

/// Folding one more digit commutes with wrapping: wrapping the accumulator
/// first and then folding gives the same wrapped result as folding the exact
/// value. This is why the wraparound digit loop computes the wrapped value of
/// the whole digit run.
pub proof fn lemma_wrap_fold(v: int, b: int, d: int, lo: int, hi: int)
    requires
        lo <= hi,
    ensures
        wrap_to(wrap_to(v, lo, hi) * b + d, lo, hi) == wrap_to(v * b + d, lo, hi),
{
    let r = hi + 1 - lo;
    let q = (v - lo) / r;
    lemma_fundamental_div_mod(v - lo, r);
    assert(wrap_to(v, lo, hi) == v - r * q);
    assert((v - r * q) * b == v * b - (r * q) * b) by {
        lemma_mul_is_distributive_sub_other_way(b, v, r * q);
    }
    assert((r * q) * b == (q * b) * r) by {
        lemma_mul_is_associative(r, q, b);
        lemma_mul_is_commutative(r, q * b);
    }
    lemma_wrap_shift(v * b + d, -(q * b), lo, hi);
    assert(v * b + d + -(q * b) * r == v * b + d - (q * b) * r) by {
        lemma_mul_is_distributive_sub_other_way(r, 0, q * b);
        lemma_mul_basics(r);
    }
}

/// The leading digit run is no longer than the input, consists of digits, and
/// ends at the input's end or at the first byte that is no digit.
pub proof fn lemma_digit_run_len_facts(s: Seq<u8>, base: int)
    ensures
        digit_run_len(s, base) <= s.len(),
        forall|j: int| 0 <= j < digit_run_len(s, base) ==> is_radix_digit(#[trigger] s[j], base),
        digit_run_len(s, base) < s.len() ==> !is_radix_digit(s[digit_run_len(s, base) as int], base),
    decreases s.len(),
{
    if s.len() == 0 || !is_radix_digit(s[0], base) {
    } else {
        lemma_digit_run_len_facts(s.skip(1), base);
        assert forall|j: int| 0 <= j < digit_run_len(s, base) implies is_radix_digit(
            #[trigger] s[j],
            base,
        ) by {
            if j > 0 {
                assert(s.skip(1)[j - 1] == s[j]);
            }
        }
    }
}

/// The leading digit run has length `n` exactly when the first `n` bytes are
/// digits and the input ends there or continues with a byte that is no digit.
pub proof fn lemma_digit_run_len_is(s: Seq<u8>, base: int, n: int)
    requires
        0 <= n <= s.len(),
        forall|j: int| 0 <= j < n ==> is_radix_digit(#[trigger] s[j], base),
        n == s.len() || !is_radix_digit(s[n], base),
    ensures
        digit_run_len(s, base) == n,
    decreases s.len(),
{
    if n == 0 {
    } else {
        assert(is_radix_digit(s[0], base));
        assert forall|j: int| 0 <= j < n - 1 implies is_radix_digit(
            #[trigger] s.skip(1)[j],
            base,
        ) by {
            assert(s.skip(1)[j] == s[j + 1]);
        }
        if n < s.len() {
            assert(s.skip(1)[n - 1] == s[n]);
        }
        lemma_digit_run_len_is(s.skip(1), base, n - 1);
    }
}

/// The value of a digit run is nonnegative and below `base ^ length`.
pub proof fn lemma_radix_value_bounds(s: Seq<u8>, base: int)
    requires
        base == 10 || base == 16,
    ensures
        0 <= radix_value(s, base) < pow(base, s.len()),
    decreases s.len(),
{
    if s.len() == 0 {
        lemma_pow0(base);
    } else {
        let front = s.drop_last();
        lemma_radix_value_bounds(front, base);
        let p = pow(base, front.len());
        assert(pow(base, s.len()) == p * base) by {
            lemma_pow1(base);
            lemma_pow_adds(base, front.len(), 1);
        }
        assert(radix_value(front, base) * base <= (p - 1) * base) by {
            lemma_mul_inequality(radix_value(front, base), p - 1, base);
        }
        assert((p - 1) * base == p * base - base) by {
            broadcast use group_mul_properties;

        }
        assert(radix_value(front, base) * base >= 0) by {
            lemma_mul_nonnegative(radix_value(front, base), base);
        }
        assert(radix_digit_value(s.last(), base) < base);
    }
}

/// Appending one digit multiplies the run's value by the base and adds the
/// digit.
pub proof fn lemma_radix_value_step(s: Seq<u8>, base: int, i: int)
    requires
        0 <= i < s.len(),
    ensures
        radix_value(s.take(i + 1), base) == radix_value(s.take(i), base) * base
            + radix_digit_value(s[i], base),
{
    assert(s.take(i + 1).drop_last() =~= s.take(i));
    assert(s.take(i + 1).last() == s[i]);
}

/// A nonnegative value with `d` digits in some base is at least `base^(d-1)`.
pub proof fn lemma_num_digits_pos_lower(v: int, radix: int)
    requires
        radix >= 2,
        v >= 1,
    ensures
        pow(radix, (num_digits_pos(v, radix) - 1) as nat) <= v,
    decreases v,
{
    lemma_div_pos_is_pos(v, radix);
    let q = v / radix;
    assert(num_digits_pos(v, radix) == 1 + num_digits_pos(q, radix));
    if q == 0 {
        assert(num_digits_pos(0, radix) == 0);
        lemma_pow0(radix);
    } else {
        lemma_div_decreases(v, radix);
        lemma_num_digits_pos_lower(q, radix);
        assert(num_digits_pos(q, radix) == 1 + num_digits_pos(q / radix, radix));
        let e = (num_digits_pos(q, radix) - 1) as nat;
        assert(pow(radix, e + 1) == pow(radix, e) * radix) by {
            lemma_pow1(radix);
            lemma_pow_adds(radix, e, 1);
        }
        assert(pow(radix, e) * radix <= q * radix) by {
            lemma_mul_inequality(pow(radix, e), q, radix);
        }
        assert(q * radix <= v) by {
            lemma_fundamental_div_mod(v, radix);
            lemma_mod_bound(v, radix);
            lemma_mul_is_commutative(q, radix);
        }
    }
}

/// A value below `2^k` has at most `k` digits in any base of at least 2.
pub proof fn lemma_num_digits_pos_bound(v: int, radix: int, k: nat)
    requires
        radix >= 2,
        0 <= v,
        v < pow(2, k),
    ensures
        num_digits_pos(v, radix) <= k,
    decreases v,
{
    if v > 0 {
        assert(k >= 1) by {
            if k == 0 {
                lemma_pow0(2);
            }
        }
        let q = v / radix;
        lemma_div_pos_is_pos(v, radix);
        lemma_div_decreases(v, radix);
        assert(q < pow(2, (k - 1) as nat)) by {
            let p = pow(2, (k - 1) as nat);
            assert(pow(2, k) == p * 2) by {
                lemma_pow1(2);
                lemma_pow_adds(2, (k - 1) as nat, 1);
            }
            assert(v / 2 <= p - 1) by {
                lemma_div_is_ordered(v, 2 * p - 1, 2);
                lemma_fundamental_div_mod_converse(2 * p - 1, 2, p - 1, 1);
            }
            lemma_div_is_ordered_by_denominator(v, 2, radix);
        }
        lemma_num_digits_pos_bound(q, radix, (k - 1) as nat);
    }
}

/// The digit count of a nonpositive value is the digit count of its
/// magnitude.
pub proof fn lemma_num_digits_neg_is_pos(v: int, radix: int)
    requires
        radix >= 2,
        v <= 0,
    ensures
        num_digits_neg(v, radix) == num_digits_pos(-v, radix),
    decreases -v,
{
    if v < 0 {
        lemma_div_pos_is_pos(-v, radix);
        lemma_div_decreases(-v, radix);
        lemma_num_digits_neg_is_pos(trunc_div(v, radix), radix);
    }
}

/// Any digit run strictly shorter than the digit count of `bound` denotes a
/// value of at most `bound`: the overflow-free prefix of the checked parse.
pub proof fn lemma_safe_prefix(s: Seq<u8>, base: int, bound: int)
    requires
        base == 10 || base == 16,
        bound >= 1,
        s.len() < num_digits_pos(bound, base),
    ensures
        0 <= radix_value(s, base) < bound,
{
    lemma_radix_value_bounds(s, base);
    lemma_num_digits_pos_lower(bound, base);
    let d = num_digits_pos(bound, base);
    assert(pow(base, s.len()) <= pow(base, (d - 1) as nat)) by {
        lemma_pow_increases(base as nat, s.len(), (d - 1) as nat);
    }
}

/// A value that fits 128 bits has at most 128 digits in any base of at
/// least 2, so a digit counter never overflows a `usize`.
pub proof fn lemma_num_digits_fits(v: int, radix: int)
    requires
        radix >= 2,
        0 <= v <= 0xffff_ffff_ffff_ffff_ffff_ffff_ffff_ffff,
    ensures
        num_digits_pos(v, radix) <= 128,
{
    assert(pow(2, 128) == 0x1_0000_0000_0000_0000_0000_0000_0000_0000int) by {
        vstd::arithmetic::power2::lemma2_to64();
        vstd::arithmetic::power2::lemma2_to64_rest();
        vstd::arithmetic::power2::lemma_pow2_adds(64, 64);
        vstd::arithmetic::power2::lemma_pow2(128);
    }
    lemma_num_digits_pos_bound(v, radix, 128);
}

/// The decimal text of a nonnegative number, most significant digit first,
/// with no leading zeros except for the number 0 itself.
pub open spec fn decimal_digits(n: int) -> Seq<u8>
    decreases n,
    when n >= 0
{
    if n <= 9 {
        seq![(48 + n) as u8]
    } else {
        proof {
            lemma_div_decreases(n, 10);
            lemma_div_pos_is_pos(n, 10);
        }
        decimal_digits(n / 10).push((48 + n % 10) as u8)
    }
}

/// The decimal text of any integer: the text of its magnitude, preceded by a
/// minus sign for negative numbers.
pub open spec fn signed_decimal_digits(n: int) -> Seq<u8> {
    if n < 0 {
        seq![45u8].add(decimal_digits(-n))
    } else {
        decimal_digits(n)
    }
}

/// The decimal text of a nonnegative number consists of digit bytes and
/// denotes that number.
pub proof fn lemma_decimal_digits_value(n: int)
    requires
        n >= 0,
    ensures
        decimal_digits(n).len() >= 1,
        forall|j: int| 0 <= j < decimal_digits(n).len() ==> 48 <= #[trigger] decimal_digits(n)[j]
            <= 57,
        radix_value(decimal_digits(n), 10) == n,
    decreases n,
{
    let s = decimal_digits(n);
    if n <= 9 {
        assert(s.drop_last() =~= Seq::<u8>::empty());
        assert(radix_value(Seq::<u8>::empty(), 10) == 0);
    } else {
        lemma_div_decreases(n, 10);
        lemma_div_pos_is_pos(n, 10);
        lemma_decimal_digits_value(n / 10);
        let front = decimal_digits(n / 10);
        assert(s.drop_last() =~= front);
        assert(s.last() == (48 + n % 10) as u8);
        assert(0 <= n % 10 < 10) by {
            lemma_mod_bound(n, 10);
        }
        assert(radix_value(s, 10) == (n / 10) * 10 + n % 10);
        assert((n / 10) * 10 + n % 10 == n) by {
            lemma_fundamental_div_mod(n, 10);
            lemma_mul_is_commutative(n / 10, 10);
        }
        assert forall|j: int| 0 <= j < s.len() implies 48 <= #[trigger] s[j] <= 57 by {
            if j < s.len() - 1 {
                assert(s[j] == front[j]);
            }
        }
    }
}

/// Round trip without a sign: for every `n` in `[0, I::max_spec()]`, the
/// decimal text of `n` is one unbroken digit run denoting `n`, and folding
/// it with `I`'s wraparound arithmetic leaves it unchanged. Together with
/// the `ensures` of `from_radix_10` this says that parsing the decimal text
/// of `n` yields `(n, len(text))`.
pub proof fn lemma_round_trip_radix_10<I: FixedInt>(n: int)
    requires
        0 <= n <= I::max_spec(),
    ensures
        digit_run_len(decimal_digits(n), 10) == decimal_digits(n).len(),
        wrap_to(
            radix_value(decimal_digits(n).take(decimal_digits(n).len() as int), 10),
            I::min_spec(),
            I::max_spec(),
        ) == n,
{
    let t = decimal_digits(n);
    lemma_decimal_digits_value(n);
    lemma_digit_run_len_is(t, 10, t.len() as int);
    assert(t.take(t.len() as int) =~= t);
    I::range_facts();
    lemma_wrap_in_range(n, I::min_spec(), I::max_spec());
}

/// Round trip with a sign: for every `n` in `[I::min_spec(),
/// I::max_spec()]`, the signed decimal text of `n` is consumed whole by a
/// signed parse and denotes exactly `n`, and folding it with `I`'s
/// wraparound arithmetic leaves it unchanged. Together with the `ensures`
/// of `from_radix_10_signed` this says that parsing the signed decimal text
/// of `n` yields `(n, len(text))`.
pub proof fn lemma_round_trip_radix_10_signed<I: FixedInt>(n: int)
    requires
        I::min_spec() <= n <= I::max_spec(),
    ensures
        signed_consumed(signed_decimal_digits(n), 10) == signed_decimal_digits(n).len(),
        wrap_to(
            signed_value(signed_decimal_digits(n), 10),
            I::min_spec(),
            I::max_spec(),
        ) == n,
{
    let t = signed_decimal_digits(n);
    I::range_facts();
    lemma_wrap_in_range(n, I::min_spec(), I::max_spec());
    if n >= 0 {
        lemma_decimal_digits_value(n);
        assert(sign_offset(t) == 0);
        assert(t.skip(0) =~= t);
        lemma_digit_run_len_is(t, 10, t.len() as int);
        assert(t.skip(0).take(t.len() as int) =~= t);
        assert(!begins_minus(t));
    } else {
        let m = decimal_digits(-n);
        lemma_decimal_digits_value(-n);
        assert(t[0] == 45 && is_sign_byte(t[0]));
        assert(sign_offset(t) == 1);
        assert(t.skip(1) =~= m);
        lemma_digit_run_len_is(m, 10, m.len() as int);
        assert(t.skip(1).take(m.len() as int) =~= m);
        assert(begins_minus(t));
    }
}

} // verus!
