//! The generic parsing engine: digit decoding, the wraparound and checked
//! digit-accumulation loops, and the per-range digit thresholds, all written
//! once over [`FixedInt`] and verified against the model.

use vstd::prelude::*;

verus! {

use vstd::arithmetic::mul::{
    lemma_mul_increases,
    lemma_mul_is_commutative,
    lemma_mul_nonnegative,
    lemma_mul_unary_negation,
};
use vstd::slice::slice_subrange;

use crate::fixed::FixedInt;
use crate::model::{
    begins_minus,
    digit_run_len,
    is_radix_digit,
    lemma_digit_run_len_facts,
    lemma_digit_run_len_is,
    lemma_num_digits_fits,
    lemma_num_digits_neg_is_pos,
    lemma_radix_value_bounds,
    lemma_radix_value_step,
    lemma_safe_prefix,
    lemma_wrap_fold,
    lemma_wrap_in_range,
    num_digits_neg,
    num_digits_pos,
    radix_digit_value,
    radix_value,
    sign_offset,
    wrap_to,
};
use crate::{
    FromRadix10,
    FromRadix10Checked,
    FromRadix10Signed,
    FromRadix10SignedChecked,
    FromRadix16,
    FromRadix16Checked,
    MaxNumDigits,
    Sign,
};

/// Decodes one ASCII byte to its digit value in the given base, or `None`
/// for bytes that are no digit. A dense comparison chain, as the hot loops
/// want it.
pub(crate) fn decode_digit(b: u8, base: u8) -> (r: Option<u8>)
    requires
        base == 10 || base == 16,
    ensures
        r.is_some() <==> is_radix_digit(b, base as int),
        r.is_some() ==> r.unwrap() as int == radix_digit_value(b, base as int),
        r.is_some() ==> r.unwrap() < base,
{
    if b >= 48 && b <= 57 {
        Some(b - 48)
    } else if base == 16 && b >= 97 && b <= 102 {
        Some(b - 97 + 10)
    } else if base == 16 && b >= 65 && b <= 70 {
        Some(b - 65 + 10)
    } else {
        None
    }
}

/// Folds the leading digit run of `text` into a value of `I` with
/// wraparound arithmetic, subtracting each digit instead of adding it when
/// `minus` is set. Returns the value and the number of bytes consumed.
fn accumulate_wrapping<I: FixedInt>(text: &[u8], base: u8, minus: bool) -> (r: (I, usize))
    requires
        base == 10 || base == 16,
    ensures
        r.1 == digit_run_len(text@, base as int),
        r.0.as_int() == wrap_to(
            if minus {
                -radix_value(text@.take(r.1 as int), base as int)
            } else {
                radix_value(text@.take(r.1 as int), base as int)
            },
            I::min_spec(),
            I::max_spec(),
        ),
{
    let mut index: usize = 0;
    let mut number: I = I::zero();
    let base_v: I = I::from_small(base);
    proof {
        I::range_facts();
        assert(radix_value(text@.take(0), base as int) == 0);
        lemma_wrap_in_range(0, I::min_spec(), I::max_spec());
    }
    if minus {
        loop
            invariant
                base == 10 || base == 16,
                base_v.as_int() == base as int,
                index <= text@.len(),
                forall|j: int| 0 <= j < index ==> is_radix_digit(#[trigger] text@[j], base as int),
                number.as_int() == wrap_to(
                    -radix_value(text@.take(index as int), base as int),
                    I::min_spec(),
                    I::max_spec(),
                ),
            ensures
                index <= text@.len(),
                forall|j: int| 0 <= j < index ==> is_radix_digit(#[trigger] text@[j], base as int),
                index == text@.len() || !is_radix_digit(text@[index as int], base as int),
                number.as_int() == wrap_to(
                    -radix_value(text@.take(index as int), base as int),
                    I::min_spec(),
                    I::max_spec(),
                ),
            decreases text@.len() - index,
        {
            if index == text.len() {
                break;
            }
            let b = text[index];
            match decode_digit(b, base) {
                Some(d) => {
                    let dv: I = I::from_small(d);
                    proof {
                        I::range_facts();
                        let bi: int = base as int;
                        let v: int = radix_value(text@.take(index as int), bi);
                        lemma_radix_value_step(text@, bi, index as int);
                        lemma_mul_unary_negation(v, bi);
                        lemma_wrap_fold(-v, bi, 0, I::min_spec(), I::max_spec());
                        lemma_wrap_fold(
                            -(v * bi),
                            1,
                            -(d as int),
                            I::min_spec(),
                            I::max_spec(),
                        );
                    }
                    number = number.wrap_mul(base_v).wrap_sub(dv);
                    index += 1;
                },
                None => {
                    break;
                },
            }
        }
    } else {
        loop
            invariant
                base == 10 || base == 16,
                base_v.as_int() == base as int,
                index <= text@.len(),
                forall|j: int| 0 <= j < index ==> is_radix_digit(#[trigger] text@[j], base as int),
                number.as_int() == wrap_to(
                    radix_value(text@.take(index as int), base as int),
                    I::min_spec(),
                    I::max_spec(),
                ),
            ensures
                index <= text@.len(),
                forall|j: int| 0 <= j < index ==> is_radix_digit(#[trigger] text@[j], base as int),
                index == text@.len() || !is_radix_digit(text@[index as int], base as int),
                number.as_int() == wrap_to(
                    radix_value(text@.take(index as int), base as int),
                    I::min_spec(),
                    I::max_spec(),
                ),
            decreases text@.len() - index,
        {
            if index == text.len() {
                break;
            }
            let b = text[index];
            match decode_digit(b, base) {
                Some(d) => {
                    let dv: I = I::from_small(d);
                    proof {
                        I::range_facts();
                        let bi: int = base as int;
                        let v: int = radix_value(text@.take(index as int), bi);
                        lemma_radix_value_step(text@, bi, index as int);
                        lemma_wrap_fold(v, bi, 0, I::min_spec(), I::max_spec());
                        lemma_wrap_fold(v * bi, 1, d as int, I::min_spec(), I::max_spec());
                    }
                    number = number.wrap_mul(base_v).wrap_add(dv);
                    index += 1;
                },
                None => {
                    break;
                },
            }
        }
    }
    proof {
        lemma_digit_run_len_is(text@, base as int, index as int);
    }
    (number, index)
}

/// Folds the leading digit run of `text` into a value of `I` with overflow
/// detection, subtracting each digit instead of adding it when `minus` is
/// set.
///
/// Two phases: a prefix strictly shorter than the active range's digit
/// count is folded with the wraparound loop, which provably cannot
/// overflow there; every further digit goes through checked arithmetic.
/// After an overflow the remaining digits are still consumed and counted,
/// but the result stays `None`.
fn accumulate_checked<I: FixedInt>(text: &[u8], base: u8, minus: bool) -> (r: (Option<I>, usize))
    requires
        base == 10 || base == 16,
    ensures
        r.1 == digit_run_len(text@, base as int),
        ({
            let val = if minus {
                -radix_value(text@.take(r.1 as int), base as int)
            } else {
                radix_value(text@.take(r.1 as int), base as int)
            };
            &&& (r.0.is_some() <==> I::min_spec() <= val <= I::max_spec())
            &&& (r.0.is_some() ==> r.0.unwrap().as_int() == val)
        }),
{
    let base_v: I = I::from_small(base);
    let threshold: usize = if minus {
        max_digits_neg::<I>(base_v)
    } else {
        max_digits_pos::<I>(base_v)
    };
    let safe: usize = if threshold >= 1 {
        threshold - 1
    } else {
        0
    };
    let limit: usize = if text.len() < safe {
        text.len()
    } else {
        safe
    };
    let mut index: usize = 0;
    let mut number: I = I::zero();
    proof {
        I::range_facts();
        assert(radix_value(text@.take(0), base as int) == 0);
    }
    loop
        invariant
            base == 10 || base == 16,
            base_v.as_int() == base as int,
            threshold == if minus {
                num_digits_neg(I::min_spec(), base as int)
            } else {
                num_digits_pos(I::max_spec(), base as int)
            },
            safe == if threshold >= 1 {
                (threshold - 1) as int
            } else {
                0
            },
            limit <= safe,
            limit <= text@.len(),
            index <= limit,
            forall|j: int| 0 <= j < index ==> is_radix_digit(#[trigger] text@[j], base as int),
            number.as_int() == (if minus {
                -radix_value(text@.take(index as int), base as int)
            } else {
                radix_value(text@.take(index as int), base as int)
            }),
        ensures
            index <= text@.len(),
            forall|j: int| 0 <= j < index ==> is_radix_digit(#[trigger] text@[j], base as int),
            number.as_int() == (if minus {
                -radix_value(text@.take(index as int), base as int)
            } else {
                radix_value(text@.take(index as int), base as int)
            }),
        decreases limit - index,
    {
        if index == limit {
            break;
        }
        let b = text[index];
        match decode_digit(b, base) {
            Some(d) => {
                let dv: I = I::from_small(d);
                proof {
                    I::range_facts();
                    let bi: int = base as int;
                    let v: int = radix_value(text@.take(index as int), bi);
                    lemma_radix_value_step(text@, bi, index as int);
                    lemma_radix_value_bounds(text@.take(index as int), bi);
                    lemma_mul_nonnegative(v, bi);
                    if minus {
                        assert(I::min_spec() < 0) by {
                            if I::min_spec() >= 0 {
                                assert(num_digits_neg(I::min_spec(), bi) == 0);
                            }
                        }
                        lemma_num_digits_neg_is_pos(I::min_spec(), bi);
                        lemma_safe_prefix(text@.take(index + 1), bi, -I::min_spec());
                        lemma_mul_unary_negation(v, bi);
                        lemma_wrap_in_range(-(v * bi), I::min_spec(), I::max_spec());
                        lemma_wrap_in_range(
                            -(v * bi) - d as int,
                            I::min_spec(),
                            I::max_spec(),
                        );
                    } else {
                        lemma_safe_prefix(text@.take(index + 1), bi, I::max_spec());
                        lemma_wrap_in_range(v * bi, I::min_spec(), I::max_spec());
                        lemma_wrap_in_range(v * bi + d as int, I::min_spec(), I::max_spec());
                    }
                }
                number = if minus {
                    number.wrap_mul(base_v).wrap_sub(dv)
                } else {
                    number.wrap_mul(base_v).wrap_add(dv)
                };
                index += 1;
            },
            None => {
                break;
            },
        }
    }
    let mut result: Option<I> = Some(number);
    proof {
        number.value_in_range();
    }
    loop
        invariant
            base == 10 || base == 16,
            base_v.as_int() == base as int,
            index <= text@.len(),
            forall|j: int| 0 <= j < index ==> is_radix_digit(#[trigger] text@[j], base as int),
            ({
                let val = if minus {
                    -radix_value(text@.take(index as int), base as int)
                } else {
                    radix_value(text@.take(index as int), base as int)
                };
                &&& (result.is_some() <==> I::min_spec() <= val <= I::max_spec())
                &&& (result.is_some() ==> result.unwrap().as_int() == val)
            }),
        ensures
            index <= text@.len(),
            forall|j: int| 0 <= j < index ==> is_radix_digit(#[trigger] text@[j], base as int),
            index == text@.len() || !is_radix_digit(text@[index as int], base as int),
            ({
                let val = if minus {
                    -radix_value(text@.take(index as int), base as int)
                } else {
                    radix_value(text@.take(index as int), base as int)
                };
                &&& (result.is_some() <==> I::min_spec() <= val <= I::max_spec())
                &&& (result.is_some() ==> result.unwrap().as_int() == val)
            }),
        decreases text@.len() - index,
    {
        if index == text.len() {
            break;
        }
        let b = text[index];
        match decode_digit(b, base) {
            Some(d) => {
                let dv: I = I::from_small(d);
                proof {
                    I::range_facts();
                    let bi: int = base as int;
                    let v: int = radix_value(text@.take(index as int), bi);
                    lemma_radix_value_step(text@, bi, index as int);
                    lemma_radix_value_bounds(text@.take(index as int), bi);
                    lemma_mul_nonnegative(v, bi);
                    lemma_mul_unary_negation(v, bi);
                    if result.is_none() {
                        lemma_mul_increases(bi, v);
                        lemma_mul_is_commutative(bi, v);
                    }
                }
                result = match result {
                    Some(n) => match n.mul_checked(base_v) {
                        Some(nb) => if minus {
                            nb.sub_checked(dv)
                        } else {
                            nb.add_checked(dv)
                        },
                        None => None,
                    },
                    None => None,
                };
                index += 1;
            },
            None => {
                break;
            },
        }
    }
    proof {
        lemma_digit_run_len_is(text@, base as int, index as int);
    }
    (result, index)
}

/// Counts how many digits in the given base the nonnegative range of `I`
/// can hold, by repeated division of the largest value.
pub(crate) fn max_digits_pos<I: FixedInt>(radix: I) -> (d: usize)
    requires
        2 <= radix.as_int() <= 16,
    ensures
        d == num_digits_pos(I::max_spec(), radix.as_int()),
{
    let mut cur: I = I::max_value();
    let mut d: usize = 0;
    proof {
        I::range_facts();
        lemma_num_digits_fits(I::max_spec(), radix.as_int());
    }
    loop
        invariant
            2 <= radix.as_int() <= 16,
            0 <= cur.as_int(),
            num_digits_pos(I::max_spec(), radix.as_int()) == d + num_digits_pos(
                cur.as_int(),
                radix.as_int(),
            ),
            d + num_digits_pos(cur.as_int(), radix.as_int()) <= 128,
        ensures
            d == num_digits_pos(I::max_spec(), radix.as_int()),
        decreases cur.as_int(),
    {
        if !cur.is_pos() {
            proof {
                assert(num_digits_pos(cur.as_int(), radix.as_int()) == 0);
            }
            break;
        }
        proof {
            let r: int = radix.as_int();
            vstd::arithmetic::div_mod::lemma_div_pos_is_pos(cur.as_int(), r);
            vstd::arithmetic::div_mod::lemma_div_decreases(cur.as_int(), r);
            assert(num_digits_pos(cur.as_int(), r) == 1 + num_digits_pos(cur.as_int() / r, r));
        }
        cur = cur.div_radix(radix);
        d += 1;
    }
    d
}

/// Counts how many digits in the given base the negative range of `I` can
/// hold, by repeated division of the smallest value; 0 for unsigned types,
/// whose range has no negative side.
pub(crate) fn max_digits_neg<I: FixedInt>(radix: I) -> (d: usize)
    requires
        2 <= radix.as_int() <= 16,
    ensures
        d == num_digits_neg(I::min_spec(), radix.as_int()),
{
    let mut cur: I = I::min_value();
    let mut d: usize = 0;
    proof {
        I::range_facts();
        lemma_num_digits_neg_is_pos(I::min_spec(), radix.as_int());
        lemma_num_digits_fits(-I::min_spec(), radix.as_int());
    }
    loop
        invariant
            2 <= radix.as_int() <= 16,
            cur.as_int() <= 0,
            num_digits_neg(I::min_spec(), radix.as_int()) == d + num_digits_neg(
                cur.as_int(),
                radix.as_int(),
            ),
            d + num_digits_neg(cur.as_int(), radix.as_int()) <= 128,
        ensures
            d == num_digits_neg(I::min_spec(), radix.as_int()),
        decreases -cur.as_int(),
    {
        if !cur.is_neg() {
            proof {
                assert(num_digits_neg(cur.as_int(), radix.as_int()) == 0);
            }
            break;
        }
        proof {
            let r: int = radix.as_int();
            vstd::arithmetic::div_mod::lemma_div_pos_is_pos(-cur.as_int(), r);
            vstd::arithmetic::div_mod::lemma_div_decreases(-cur.as_int(), r);
            assert(num_digits_neg(cur.as_int(), r) == 1 + num_digits_neg(
                crate::model::trunc_div(cur.as_int(), r),
                r,
            ));
        }
        cur = cur.div_radix(radix);
        d += 1;
    }
    d
}

/// Wrapper which implements the parsing traits once, generically, for any
/// [`FixedInt`]. The native integer types forward to it.
#[derive(Clone, Copy)]
pub struct Integer<I>(pub I);

impl<I: FixedInt> FixedInt for Integer<I> {
    open spec fn as_int(self) -> int {
        self.0.as_int()
    }

    open spec fn min_spec() -> int {
        I::min_spec()
    }

    open spec fn max_spec() -> int {
        I::max_spec()
    }

    proof fn range_facts() {
        I::range_facts();
    }

    proof fn value_in_range(self) {
        self.0.value_in_range();
    }

    fn zero() -> (r: Self) {
        Integer(I::zero())
    }

    fn from_small(d: u8) -> (r: Self) {
        Integer(I::from_small(d))
    }

    fn max_value() -> (r: Self) {
        Integer(I::max_value())
    }

    fn min_value() -> (r: Self) {
        Integer(I::min_value())
    }

    fn is_pos(self) -> (r: bool) {
        self.0.is_pos()
    }

    fn is_neg(self) -> (r: bool) {
        self.0.is_neg()
    }

    fn wrap_mul(self, rhs: Self) -> (r: Self) {
        Integer(self.0.wrap_mul(rhs.0))
    }

    fn wrap_add(self, rhs: Self) -> (r: Self) {
        Integer(self.0.wrap_add(rhs.0))
    }

    fn wrap_sub(self, rhs: Self) -> (r: Self) {
        Integer(self.0.wrap_sub(rhs.0))
    }

    fn mul_checked(self, rhs: Self) -> (r: Option<Self>) {
        match self.0.mul_checked(rhs.0) {
            Some(v) => Some(Integer(v)),
            None => None,
        }
    }

    fn add_checked(self, rhs: Self) -> (r: Option<Self>) {
        match self.0.add_checked(rhs.0) {
            Some(v) => Some(Integer(v)),
            None => None,
        }
    }

    fn sub_checked(self, rhs: Self) -> (r: Option<Self>) {
        match self.0.sub_checked(rhs.0) {
            Some(v) => Some(Integer(v)),
            None => None,
        }
    }

    fn div_radix(self, radix: Self) -> (r: Self) {
        Integer(self.0.div_radix(radix.0))
    }
}

/// Reads the optional sign byte: whether it is a minus, and how many bytes
/// it occupies.
fn detect_sign(text: &[u8]) -> (r: (bool, usize))
    ensures
        r.1 == sign_offset(text@),
        r.0 == begins_minus(text@),
{
    if text.len() > 0 {
        match Sign::try_from(text[0]) {
            Some(Sign::Minus) => (true, 1),
            Some(Sign::Plus) => (false, 1),
            None => (false, 0),
        }
    } else {
        (false, 0)
    }
}

impl<I: FixedInt> FromRadix10 for Integer<I> {
    fn from_radix_10(text: &[u8]) -> (r: (Self, usize)) {
        let (v, n) = accumulate_wrapping::<I>(text, 10, false);
        (Integer(v), n)
    }
}

impl<I: FixedInt> FromRadix10Checked for Integer<I> {
    fn from_radix_10_checked(text: &[u8]) -> (r: (Option<Self>, usize)) {
        let (opt, n) = accumulate_checked::<I>(text, 10, false);
        proof {
            I::range_facts();
            lemma_radix_value_bounds(text@.take(n as int), 10);
        }
        (
            match opt {
                Some(v) => Some(Integer(v)),
                None => None,
            },
            n,
        )
    }
}

impl<I: FixedInt> FromRadix16 for Integer<I> {
    fn from_radix_16(text: &[u8]) -> (r: (Self, usize)) {
        let (v, n) = accumulate_wrapping::<I>(text, 16, false);
        (Integer(v), n)
    }
}

impl<I: FixedInt> FromRadix16Checked for Integer<I> {
    fn from_radix_16_checked(text: &[u8]) -> (r: (Option<Self>, usize)) {
        let (opt, n) = accumulate_checked::<I>(text, 16, false);
        proof {
            I::range_facts();
            lemma_radix_value_bounds(text@.take(n as int), 16);
        }
        (
            match opt {
                Some(v) => Some(Integer(v)),
                None => None,
            },
            n,
        )
    }
}

impl<I: FixedInt> FromRadix10Signed for Integer<I> {
    fn from_radix_10_signed(text: &[u8]) -> (r: (Self, usize)) {
        let (minus, offset) = detect_sign(text);
        let rest = slice_subrange(text, offset, text.len());
        let (v, n) = accumulate_wrapping::<I>(rest, 10, minus);
        proof {
            lemma_digit_run_len_facts(rest@, 10);
        }
        let consumed: usize = if n == 0 {
            0
        } else {
            offset + n
        };
        proof {
            assert(rest@ =~= text@.skip(sign_offset(text@)));
        }
        (Integer(v), consumed)
    }
}

impl<I: FixedInt> FromRadix10SignedChecked for Integer<I> {
    fn from_radix_10_signed_checked(text: &[u8]) -> (r: (Option<Self>, usize)) {
        let (minus, offset) = detect_sign(text);
        let rest = slice_subrange(text, offset, text.len());
        let (opt, n) = accumulate_checked::<I>(rest, 10, minus);
        proof {
            lemma_digit_run_len_facts(rest@, 10);
        }
        let consumed: usize = if n == 0 {
            0
        } else {
            offset + n
        };
        proof {
            assert(rest@ =~= text@.skip(sign_offset(text@)));
        }
        (
            match opt {
                Some(v) => Some(Integer(v)),
                None => None,
            },
            consumed,
        )
    }
}

impl<I: FixedInt> MaxNumDigits for Integer<I> {
    /// Returns the maximum number of digits a nonnegative representation
    /// can have depending on `radix`.
    fn max_num_digits(radix: Integer<I>) -> (d: usize) {
        max_digits_pos::<I>(radix.0)
    }

    /// Returns the maximum number of digits a negative representation can
    /// have depending on `radix`.
    fn max_num_digits_negative(radix: Integer<I>) -> (d: usize) {
        max_digits_neg::<I>(radix.0)
    }
}

} // verus!
