//! A library for parsing integers directly from ASCII (`[u8]`) without
//! decoding the bytes into a text encoding first. The name is inspired by the
//! famous C function.
//!
//! Parsing comes in an unchecked flavour, which folds digits with wraparound
//! arithmetic, and a checked flavour, which reports overflow instead. Base 10
//! and base 16 are supported, and for base 10 an optional leading sign.
//! Every parser returns the number of bytes it consumed; a count of 0 means
//! the slice did not start with a number.

use vstd::prelude::*;

mod builtin;
mod builtin_ints;
mod fixed;
mod integer;
pub mod model;

pub use fixed::FixedInt;
pub use integer::Integer;

verus! {

use crate::model::{
    digit_run_len,
    is_radix_digit,
    num_digits_neg,
    num_digits_pos,
    radix_digit_value,
    radix_value,
    signed_consumed,
    signed_digit_count,
    signed_value,
    wrap_to,
};

/// Parses an integer from a slice.
///
/// Contrary to its C counterpart, `atoi` is generic and will require a type
/// argument if type inference cannot determine its result. It checks for
/// overflow and underflow and allows for signs.
///
/// Returns `Some` number exactly when the slice starts with a number (an
/// optional sign followed by at least one decimal digit) that fits the
/// target type; bytes after the number are ignored. Returns `None` when no
/// digit follows the optional sign, or on overflow or underflow.
pub fn atoi<I: FromRadix10SignedChecked>(text: &[u8]) -> (r: Option<I>)
    ensures
        r.is_some() <==> (signed_digit_count(text@, 10) > 0 && I::min_spec() <= signed_value(
            text@,
            10,
        ) <= I::max_spec()),
        r.is_some() ==> r.unwrap().as_int() == signed_value(text@, 10),
{
    let (value, consumed) = I::from_radix_10_signed_checked(text);
    if consumed == 0 {
        None
    } else {
        value
    }
}

/// Types implementing this trait can be parsed from a positional numeral
/// system with radix 10.
pub trait FromRadix10: FixedInt {
    /// Parses an integer from the start of a slice, folding digits with
    /// wraparound arithmetic and stopping at the first byte that is no
    /// decimal digit. Signs are not accepted, not even for signed types.
    ///
    /// Returns the parsed value and the index of the byte right after the
    /// parsed number; `(0, 0)` if the slice does not start with a digit.
    fn from_radix_10(text: &[u8]) -> (r: (Self, usize))
        ensures
            r.1 == digit_run_len(text@, 10),
            r.0.as_int() == wrap_to(
                radix_value(text@.take(r.1 as int), 10),
                Self::min_spec(),
                Self::max_spec(),
            ),
    ;
}

/// Types implementing this trait can be parsed from a positional numeral
/// system with radix 10. Acts much like [`FromRadix10`], but performs
/// additional checks for overflow.
pub trait FromRadix10Checked: FixedInt {
    /// Parses an integer from the start of a slice, reporting overflow as
    /// `None`. The consumed count still covers the whole digit run, so a
    /// caller can skip past a number too large for the type.
    fn from_radix_10_checked(text: &[u8]) -> (r: (Option<Self>, usize))
        ensures
            r.1 == digit_run_len(text@, 10),
            r.0.is_some() <==> radix_value(text@.take(r.1 as int), 10) <= Self::max_spec(),
            r.0.is_some() ==> r.0.unwrap().as_int() == radix_value(text@.take(r.1 as int), 10),
    ;
}

/// Types implementing this trait can be parsed from a positional numeral
/// system with radix 16. Hex digits may be upper or lower case.
pub trait FromRadix16: FixedInt {
    /// Parses an integer from the start of a slice, folding hex digits with
    /// wraparound arithmetic and stopping at the first byte that is no hex
    /// digit.
    fn from_radix_16(text: &[u8]) -> (r: (Self, usize))
        ensures
            r.1 == digit_run_len(text@, 16),
            r.0.as_int() == wrap_to(
                radix_value(text@.take(r.1 as int), 16),
                Self::min_spec(),
                Self::max_spec(),
            ),
    ;
}

/// Types implementing this trait can be parsed from a positional numeral
/// system with radix 16. Acts much like [`FromRadix16`], but performs
/// additional checks for overflow.
pub trait FromRadix16Checked: FixedInt {
    /// Parses an integer from the start of a slice of hex digits, reporting
    /// overflow as `None` while still counting the whole digit run.
    fn from_radix_16_checked(text: &[u8]) -> (r: (Option<Self>, usize))
        ensures
            r.1 == digit_run_len(text@, 16),
            r.0.is_some() <==> radix_value(text@.take(r.1 as int), 16) <= Self::max_spec(),
            r.0.is_some() ==> r.0.unwrap().as_int() == radix_value(text@.take(r.1 as int), 16),
    ;
}

/// Types implementing this trait can be parsed from a positional numeral
/// system with radix 10. This trait allows for an additional sign character
/// (`+` or `-`) in front of the actual number, to allow parsing negative
/// values.
pub trait FromRadix10Signed: FixedInt {
    /// Parses an integer from the start of a slice: an optional sign byte,
    /// then decimal digits folded with wraparound arithmetic, each digit
    /// subtracted rather than added after a minus sign.
    ///
    /// A lone sign with no digit after it counts as no number at all: the
    /// result is then `(0, 0)`, and the sign byte is not consumed.
    fn from_radix_10_signed(text: &[u8]) -> (r: (Self, usize))
        ensures
            r.1 == signed_consumed(text@, 10),
            r.0.as_int() == wrap_to(
                signed_value(text@, 10),
                Self::min_spec(),
                Self::max_spec(),
            ),
    ;
}

/// Types implementing this trait can be parsed from a positional numeral
/// system with radix 10. Acts much like [`FromRadix10Signed`], but performs
/// additional checks for overflow and underflow.
pub trait FromRadix10SignedChecked: FromRadix10Signed {
    /// Parses an integer from the start of a slice: an optional sign byte,
    /// then decimal digits, with overflow and underflow reported as `None`
    /// while the whole digit run is still counted.
    ///
    /// A minus sign in front of a nonzero magnitude underflows unsigned
    /// types; `-0` alone is a valid unsigned value. A lone sign with no
    /// digit after it counts as no number at all: the result is then
    /// `(Some(0), 0)`.
    fn from_radix_10_signed_checked(text: &[u8]) -> (r: (Option<Self>, usize))
        ensures
            r.1 == signed_consumed(text@, 10),
            r.0.is_some() <==> Self::min_spec() <= signed_value(text@, 10) <= Self::max_spec(),
            r.0.is_some() ==> r.0.unwrap().as_int() == signed_value(text@, 10),
    ;
}

/// A bounded integer, whose representation can overflow and therefore can
/// only store a maximum number of digits.
pub trait MaxNumDigits: FixedInt {
    /// Given a representation with radix `radix`, how many digits can be
    /// parsed without the integer ever overflowing its nonnegative range?
    fn max_num_digits(radix: Self) -> (d: usize)
        requires
            2 <= radix.as_int() <= 16,
        ensures
            d == num_digits_pos(Self::max_spec(), radix.as_int()),
    ;

    /// The maximum number of digits a negative representation can have
    /// depending on `radix`; 0 for unsigned types, whose range has no
    /// negative side.
    fn max_num_digits_negative(radix: Self) -> (d: usize)
        requires
            2 <= radix.as_int() <= 16,
        ensures
            d == num_digits_neg(Self::min_spec(), radix.as_int()),
    ;
}

/// Representation of a numerical sign.
#[derive(Clone, Copy, Debug, PartialEq, Eq, Structural)]
pub enum Sign {
    Plus,
    Minus,
}

impl Sign {
    /// Tries to convert an ASCII byte into a `Sign`: `b'+'` gives `Plus`,
    /// `b'-'` gives `Minus`, every other byte gives `None`.
    pub fn try_from(byte: u8) -> (r: Option<Sign>)
        ensures
            r == if byte == 43 {
                Some(Sign::Plus)
            } else if byte == 45 {
                Some(Sign::Minus)
            } else {
                None::<Sign>
            },
    {
        if byte == 43 {
            Some(Sign::Plus)
        } else if byte == 45 {
            Some(Sign::Minus)
        } else {
            None
        }
    }

    /// Returns either `+1` or `-1` in any signed fixed-width type.
    pub fn signum<I: FixedInt>(self) -> (r: I)
        requires
            I::min_spec() < 0,
        ensures
            r.as_int() == if self == Sign::Plus {
                1int
            } else {
                -1int
            },
    {
        proof {
            I::range_facts();
            crate::model::lemma_wrap_in_range(-1, I::min_spec(), I::max_spec());
        }
        match self {
            Sign::Plus => I::from_small(1),
            Sign::Minus => I::zero().wrap_sub(I::from_small(1)),
        }
    }
}

/// Construct an instance of a numerical type using the byte representation
/// of a radix 10 digit, e.g. `b'7'` -> `7`.
pub trait FromDigit: FixedInt {
    /// Converts an ASCII digit (e.g. `b'7'`) into its numeric value (`7`).
    /// `None` if the byte given does not represent a decimal digit.
    fn from_digit(digit: u8) -> (r: Option<Self>)
        ensures
            r.is_some() <==> is_radix_digit(digit, 10),
            r.is_some() ==> r.unwrap().as_int() == radix_digit_value(digit, 10),
    ;
}

/// Converts an ASCII byte to the decimal digit it stands for, in any
/// fixed-width integer type: `Some(0)` through `Some(9)` for `b'0'` through
/// `b'9'`, and `None` for every other byte.
pub fn ascii_to_digit<I: FromDigit>(digit: u8) -> (r: Option<I>)
    ensures
        r.is_some() <==> is_radix_digit(digit, 10),
        r.is_some() ==> r.unwrap().as_int() == radix_digit_value(digit, 10),
{
    I::from_digit(digit)
}

} // verus!
