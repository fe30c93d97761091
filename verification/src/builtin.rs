//! The parsing traits for the numerical types native to Rust. Each width
//! forwards to the one generic implementation on the [`Integer`] wrapper;
//! the contracts carry over unchanged because the wrapper's view is the
//! wrapped value's.

use vstd::prelude::*;

verus! {

use crate::fixed::FixedInt;
use crate::integer::decode_digit;
use crate::{
    FromDigit,
    FromRadix10,
    FromRadix10Checked,
    FromRadix10Signed,
    FromRadix10SignedChecked,
    FromRadix16,
    FromRadix16Checked,
    Integer,
    MaxNumDigits,
};

impl FromRadix10 for i8 {
    fn from_radix_10(text: &[u8]) -> (r: (Self, usize)) {
        let (n, used) = Integer::<i8>::from_radix_10(text);
        (n.0, used)
    }
}

impl FromRadix10Signed for i8 {
    fn from_radix_10_signed(text: &[u8]) -> (r: (Self, usize)) {
        let (n, used) = Integer::<i8>::from_radix_10_signed(text);
        (n.0, used)
    }
}

impl FromRadix10Checked for i8 {
    fn from_radix_10_checked(text: &[u8]) -> (r: (Option<Self>, usize)) {
        let (o, used) = Integer::<i8>::from_radix_10_checked(text);
        (
            match o {
                Some(n) => Some(n.0),
                None => None,
            },
            used,
        )
    }
}

impl FromRadix10SignedChecked for i8 {
    fn from_radix_10_signed_checked(text: &[u8]) -> (r: (Option<Self>, usize)) {
        let (o, used) = Integer::<i8>::from_radix_10_signed_checked(text);
        (
            match o {
                Some(n) => Some(n.0),
                None => None,
            },
            used,
        )
    }
}

impl FromRadix16 for i8 {
    fn from_radix_16(text: &[u8]) -> (r: (Self, usize)) {
        let (n, used) = Integer::<i8>::from_radix_16(text);
        (n.0, used)
    }
}

impl FromRadix16Checked for i8 {
    fn from_radix_16_checked(text: &[u8]) -> (r: (Option<Self>, usize)) {
        let (o, used) = Integer::<i8>::from_radix_16_checked(text);
        (
            match o {
                Some(n) => Some(n.0),
                None => None,
            },
            used,
        )
    }
}

impl MaxNumDigits for i8 {
    fn max_num_digits(radix: Self) -> (d: usize) {
        Integer::<i8>::max_num_digits(Integer(radix))
    }

    fn max_num_digits_negative(radix: Self) -> (d: usize) {
        Integer::<i8>::max_num_digits_negative(Integer(radix))
    }
}

impl FromDigit for i8 {
    fn from_digit(digit: u8) -> (r: Option<Self>) {
        match decode_digit(digit, 10) {
            Some(d) => Some(<i8 as FixedInt>::from_small(d)),
            None => None,
        }
    }
}

impl FromRadix10 for u8 {
    fn from_radix_10(text: &[u8]) -> (r: (Self, usize)) {
        let (n, used) = Integer::<u8>::from_radix_10(text);
        (n.0, used)
    }
}

impl FromRadix10Signed for u8 {
    fn from_radix_10_signed(text: &[u8]) -> (r: (Self, usize)) {
        let (n, used) = Integer::<u8>::from_radix_10_signed(text);
        (n.0, used)
    }
}

impl FromRadix10Checked for u8 {
    fn from_radix_10_checked(text: &[u8]) -> (r: (Option<Self>, usize)) {
        let (o, used) = Integer::<u8>::from_radix_10_checked(text);
        (
            match o {
                Some(n) => Some(n.0),
                None => None,
            },
            used,
        )
    }
}

impl FromRadix10SignedChecked for u8 {
    fn from_radix_10_signed_checked(text: &[u8]) -> (r: (Option<Self>, usize)) {
        let (o, used) = Integer::<u8>::from_radix_10_signed_checked(text);
        (
            match o {
                Some(n) => Some(n.0),
                None => None,
            },
            used,
        )
    }
}

impl FromRadix16 for u8 {
    fn from_radix_16(text: &[u8]) -> (r: (Self, usize)) {
        let (n, used) = Integer::<u8>::from_radix_16(text);
        (n.0, used)
    }
}

impl FromRadix16Checked for u8 {
    fn from_radix_16_checked(text: &[u8]) -> (r: (Option<Self>, usize)) {
        let (o, used) = Integer::<u8>::from_radix_16_checked(text);
        (
            match o {
                Some(n) => Some(n.0),
                None => None,
            },
            used,
        )
    }
}

impl MaxNumDigits for u8 {
    fn max_num_digits(radix: Self) -> (d: usize) {
        Integer::<u8>::max_num_digits(Integer(radix))
    }

    fn max_num_digits_negative(radix: Self) -> (d: usize) {
        Integer::<u8>::max_num_digits_negative(Integer(radix))
    }
}

impl FromDigit for u8 {
    fn from_digit(digit: u8) -> (r: Option<Self>) {
        match decode_digit(digit, 10) {
            Some(d) => Some(<u8 as FixedInt>::from_small(d)),
            None => None,
        }
    }
}

impl FromRadix10 for i16 {
    fn from_radix_10(text: &[u8]) -> (r: (Self, usize)) {
        let (n, used) = Integer::<i16>::from_radix_10(text);
        (n.0, used)
    }
}

impl FromRadix10Signed for i16 {
    fn from_radix_10_signed(text: &[u8]) -> (r: (Self, usize)) {
        let (n, used) = Integer::<i16>::from_radix_10_signed(text);
        (n.0, used)
    }
}

impl FromRadix10Checked for i16 {
    fn from_radix_10_checked(text: &[u8]) -> (r: (Option<Self>, usize)) {
        let (o, used) = Integer::<i16>::from_radix_10_checked(text);
        (
            match o {
                Some(n) => Some(n.0),
                None => None,
            },
            used,
        )
    }
}

impl FromRadix10SignedChecked for i16 {
    fn from_radix_10_signed_checked(text: &[u8]) -> (r: (Option<Self>, usize)) {
        let (o, used) = Integer::<i16>::from_radix_10_signed_checked(text);
        (
            match o {
                Some(n) => Some(n.0),
                None => None,
            },
            used,
        )
    }
}

impl FromRadix16 for i16 {
    fn from_radix_16(text: &[u8]) -> (r: (Self, usize)) {
        let (n, used) = Integer::<i16>::from_radix_16(text);
        (n.0, used)
    }
}

impl FromRadix16Checked for i16 {
    fn from_radix_16_checked(text: &[u8]) -> (r: (Option<Self>, usize)) {
        let (o, used) = Integer::<i16>::from_radix_16_checked(text);
        (
            match o {
                Some(n) => Some(n.0),
                None => None,
            },
            used,
        )
    }
}

impl MaxNumDigits for i16 {
    fn max_num_digits(radix: Self) -> (d: usize) {
        Integer::<i16>::max_num_digits(Integer(radix))
    }

    fn max_num_digits_negative(radix: Self) -> (d: usize) {
        Integer::<i16>::max_num_digits_negative(Integer(radix))
    }
}

impl FromDigit for i16 {
    fn from_digit(digit: u8) -> (r: Option<Self>) {
        match decode_digit(digit, 10) {
            Some(d) => Some(<i16 as FixedInt>::from_small(d)),
            None => None,
        }
    }
}

impl FromRadix10 for u16 {
    fn from_radix_10(text: &[u8]) -> (r: (Self, usize)) {
        let (n, used) = Integer::<u16>::from_radix_10(text);
        (n.0, used)
    }
}

impl FromRadix10Signed for u16 {
    fn from_radix_10_signed(text: &[u8]) -> (r: (Self, usize)) {
        let (n, used) = Integer::<u16>::from_radix_10_signed(text);
        (n.0, used)
    }
}

impl FromRadix10Checked for u16 {
    fn from_radix_10_checked(text: &[u8]) -> (r: (Option<Self>, usize)) {
        let (o, used) = Integer::<u16>::from_radix_10_checked(text);
        (
            match o {
                Some(n) => Some(n.0),
                None => None,
            },
            used,
        )
    }
}

impl FromRadix10SignedChecked for u16 {
    fn from_radix_10_signed_checked(text: &[u8]) -> (r: (Option<Self>, usize)) {
        let (o, used) = Integer::<u16>::from_radix_10_signed_checked(text);
        (
            match o {
                Some(n) => Some(n.0),
                None => None,
            },
            used,
        )
    }
}

impl FromRadix16 for u16 {
    fn from_radix_16(text: &[u8]) -> (r: (Self, usize)) {
        let (n, used) = Integer::<u16>::from_radix_16(text);
        (n.0, used)
    }
}

impl FromRadix16Checked for u16 {
    fn from_radix_16_checked(text: &[u8]) -> (r: (Option<Self>, usize)) {
        let (o, used) = Integer::<u16>::from_radix_16_checked(text);
        (
            match o {
                Some(n) => Some(n.0),
                None => None,
            },
            used,
        )
    }
}

impl MaxNumDigits for u16 {
    fn max_num_digits(radix: Self) -> (d: usize) {
        Integer::<u16>::max_num_digits(Integer(radix))
    }

    fn max_num_digits_negative(radix: Self) -> (d: usize) {
        Integer::<u16>::max_num_digits_negative(Integer(radix))
    }
}

impl FromDigit for u16 {
    fn from_digit(digit: u8) -> (r: Option<Self>) {
        match decode_digit(digit, 10) {
            Some(d) => Some(<u16 as FixedInt>::from_small(d)),
            None => None,
        }
    }
}

impl FromRadix10 for i32 {
    fn from_radix_10(text: &[u8]) -> (r: (Self, usize)) {
        let (n, used) = Integer::<i32>::from_radix_10(text);
        (n.0, used)
    }
}

impl FromRadix10Signed for i32 {
    fn from_radix_10_signed(text: &[u8]) -> (r: (Self, usize)) {
        let (n, used) = Integer::<i32>::from_radix_10_signed(text);
        (n.0, used)
    }
}

impl FromRadix10Checked for i32 {
    fn from_radix_10_checked(text: &[u8]) -> (r: (Option<Self>, usize)) {
        let (o, used) = Integer::<i32>::from_radix_10_checked(text);
        (
            match o {
                Some(n) => Some(n.0),
                None => None,
            },
            used,
        )
    }
}

impl FromRadix10SignedChecked for i32 {
    fn from_radix_10_signed_checked(text: &[u8]) -> (r: (Option<Self>, usize)) {
        let (o, used) = Integer::<i32>::from_radix_10_signed_checked(text);
        (
            match o {
                Some(n) => Some(n.0),
                None => None,
            },
            used,
        )
    }
}

impl FromRadix16 for i32 {
    fn from_radix_16(text: &[u8]) -> (r: (Self, usize)) {
        let (n, used) = Integer::<i32>::from_radix_16(text);
        (n.0, used)
    }
}

impl FromRadix16Checked for i32 {
    fn from_radix_16_checked(text: &[u8]) -> (r: (Option<Self>, usize)) {
        let (o, used) = Integer::<i32>::from_radix_16_checked(text);
        (
            match o {
                Some(n) => Some(n.0),
                None => None,
            },
            used,
        )
    }
}

impl MaxNumDigits for i32 {
    fn max_num_digits(radix: Self) -> (d: usize) {
        Integer::<i32>::max_num_digits(Integer(radix))
    }

    fn max_num_digits_negative(radix: Self) -> (d: usize) {
        Integer::<i32>::max_num_digits_negative(Integer(radix))
    }
}

impl FromDigit for i32 {
    fn from_digit(digit: u8) -> (r: Option<Self>) {
        match decode_digit(digit, 10) {
            Some(d) => Some(<i32 as FixedInt>::from_small(d)),
            None => None,
        }
    }
}

impl FromRadix10 for u32 {
    fn from_radix_10(text: &[u8]) -> (r: (Self, usize)) {
        let (n, used) = Integer::<u32>::from_radix_10(text);
        (n.0, used)
    }
}

impl FromRadix10Signed for u32 {
    fn from_radix_10_signed(text: &[u8]) -> (r: (Self, usize)) {
        let (n, used) = Integer::<u32>::from_radix_10_signed(text);
        (n.0, used)
    }
}

impl FromRadix10Checked for u32 {
    fn from_radix_10_checked(text: &[u8]) -> (r: (Option<Self>, usize)) {
        let (o, used) = Integer::<u32>::from_radix_10_checked(text);
        (
            match o {
                Some(n) => Some(n.0),
                None => None,
            },
            used,
        )
    }
}

impl FromRadix10SignedChecked for u32 {
    fn from_radix_10_signed_checked(text: &[u8]) -> (r: (Option<Self>, usize)) {
        let (o, used) = Integer::<u32>::from_radix_10_signed_checked(text);
        (
            match o {
                Some(n) => Some(n.0),
                None => None,
            },
            used,
        )
    }
}

impl FromRadix16 for u32 {
    fn from_radix_16(text: &[u8]) -> (r: (Self, usize)) {
        let (n, used) = Integer::<u32>::from_radix_16(text);
        (n.0, used)
    }
}

impl FromRadix16Checked for u32 {
    fn from_radix_16_checked(text: &[u8]) -> (r: (Option<Self>, usize)) {
        let (o, used) = Integer::<u32>::from_radix_16_checked(text);
        (
            match o {
                Some(n) => Some(n.0),
                None => None,
            },
            used,
        )
    }
}

impl MaxNumDigits for u32 {
    fn max_num_digits(radix: Self) -> (d: usize) {
        Integer::<u32>::max_num_digits(Integer(radix))
    }

    fn max_num_digits_negative(radix: Self) -> (d: usize) {
        Integer::<u32>::max_num_digits_negative(Integer(radix))
    }
}

impl FromDigit for u32 {
    fn from_digit(digit: u8) -> (r: Option<Self>) {
        match decode_digit(digit, 10) {
            Some(d) => Some(<u32 as FixedInt>::from_small(d)),
            None => None,
        }
    }
}

impl FromRadix10 for i64 {
    fn from_radix_10(text: &[u8]) -> (r: (Self, usize)) {
        let (n, used) = Integer::<i64>::from_radix_10(text);
        (n.0, used)
    }
}

impl FromRadix10Signed for i64 {
    fn from_radix_10_signed(text: &[u8]) -> (r: (Self, usize)) {
        let (n, used) = Integer::<i64>::from_radix_10_signed(text);
        (n.0, used)
    }
}

impl FromRadix10Checked for i64 {
    fn from_radix_10_checked(text: &[u8]) -> (r: (Option<Self>, usize)) {
        let (o, used) = Integer::<i64>::from_radix_10_checked(text);
        (
            match o {
                Some(n) => Some(n.0),
                None => None,
            },
            used,
        )
    }
}

impl FromRadix10SignedChecked for i64 {
    fn from_radix_10_signed_checked(text: &[u8]) -> (r: (Option<Self>, usize)) {
        let (o, used) = Integer::<i64>::from_radix_10_signed_checked(text);
        (
            match o {
                Some(n) => Some(n.0),
                None => None,
            },
            used,
        )
    }
}

impl FromRadix16 for i64 {
    fn from_radix_16(text: &[u8]) -> (r: (Self, usize)) {
        let (n, used) = Integer::<i64>::from_radix_16(text);
        (n.0, used)
    }
}

impl FromRadix16Checked for i64 {
    fn from_radix_16_checked(text: &[u8]) -> (r: (Option<Self>, usize)) {
        let (o, used) = Integer::<i64>::from_radix_16_checked(text);
        (
            match o {
                Some(n) => Some(n.0),
                None => None,
            },
            used,
        )
    }
}

impl MaxNumDigits for i64 {
    fn max_num_digits(radix: Self) -> (d: usize) {
        Integer::<i64>::max_num_digits(Integer(radix))
    }

    fn max_num_digits_negative(radix: Self) -> (d: usize) {
        Integer::<i64>::max_num_digits_negative(Integer(radix))
    }
}

impl FromDigit for i64 {
    fn from_digit(digit: u8) -> (r: Option<Self>) {
        match decode_digit(digit, 10) {
            Some(d) => Some(<i64 as FixedInt>::from_small(d)),
            None => None,
        }
    }
}

impl FromRadix10 for u64 {
    fn from_radix_10(text: &[u8]) -> (r: (Self, usize)) {
        let (n, used) = Integer::<u64>::from_radix_10(text);
        (n.0, used)
    }
}

impl FromRadix10Signed for u64 {
    fn from_radix_10_signed(text: &[u8]) -> (r: (Self, usize)) {
        let (n, used) = Integer::<u64>::from_radix_10_signed(text);
        (n.0, used)
    }
}

impl FromRadix10Checked for u64 {
    fn from_radix_10_checked(text: &[u8]) -> (r: (Option<Self>, usize)) {
        let (o, used) = Integer::<u64>::from_radix_10_checked(text);
        (
            match o {
                Some(n) => Some(n.0),
                None => None,
            },
            used,
        )
    }
}

impl FromRadix10SignedChecked for u64 {
    fn from_radix_10_signed_checked(text: &[u8]) -> (r: (Option<Self>, usize)) {
        let (o, used) = Integer::<u64>::from_radix_10_signed_checked(text);
        (
            match o {
                Some(n) => Some(n.0),
                None => None,
            },
            used,
        )
    }
}

impl FromRadix16 for u64 {
    fn from_radix_16(text: &[u8]) -> (r: (Self, usize)) {
        let (n, used) = Integer::<u64>::from_radix_16(text);
        (n.0, used)
    }
}

impl FromRadix16Checked for u64 {
    fn from_radix_16_checked(text: &[u8]) -> (r: (Option<Self>, usize)) {
        let (o, used) = Integer::<u64>::from_radix_16_checked(text);
        (
            match o {
                Some(n) => Some(n.0),
                None => None,
            },
            used,
        )
    }
}

impl MaxNumDigits for u64 {
    fn max_num_digits(radix: Self) -> (d: usize) {
        Integer::<u64>::max_num_digits(Integer(radix))
    }

    fn max_num_digits_negative(radix: Self) -> (d: usize) {
        Integer::<u64>::max_num_digits_negative(Integer(radix))
    }
}

impl FromDigit for u64 {
    fn from_digit(digit: u8) -> (r: Option<Self>) {
        match decode_digit(digit, 10) {
            Some(d) => Some(<u64 as FixedInt>::from_small(d)),
            None => None,
        }
    }
}

impl FromRadix10 for i128 {
    fn from_radix_10(text: &[u8]) -> (r: (Self, usize)) {
        let (n, used) = Integer::<i128>::from_radix_10(text);
        (n.0, used)
    }
}

impl FromRadix10Signed for i128 {
    fn from_radix_10_signed(text: &[u8]) -> (r: (Self, usize)) {
        let (n, used) = Integer::<i128>::from_radix_10_signed(text);
        (n.0, used)
    }
}

impl FromRadix10Checked for i128 {
    fn from_radix_10_checked(text: &[u8]) -> (r: (Option<Self>, usize)) {
        let (o, used) = Integer::<i128>::from_radix_10_checked(text);
        (
            match o {
                Some(n) => Some(n.0),
                None => None,
            },
            used,
        )
    }
}

impl FromRadix10SignedChecked for i128 {
    fn from_radix_10_signed_checked(text: &[u8]) -> (r: (Option<Self>, usize)) {
        let (o, used) = Integer::<i128>::from_radix_10_signed_checked(text);
        (
            match o {
                Some(n) => Some(n.0),
                None => None,
            },
            used,
        )
    }
}

impl FromRadix16 for i128 {
    fn from_radix_16(text: &[u8]) -> (r: (Self, usize)) {
        let (n, used) = Integer::<i128>::from_radix_16(text);
        (n.0, used)
    }
}

impl FromRadix16Checked for i128 {
    fn from_radix_16_checked(text: &[u8]) -> (r: (Option<Self>, usize)) {
        let (o, used) = Integer::<i128>::from_radix_16_checked(text);
        (
            match o {
                Some(n) => Some(n.0),
                None => None,
            },
            used,
        )
    }
}

impl MaxNumDigits for i128 {
    fn max_num_digits(radix: Self) -> (d: usize) {
        Integer::<i128>::max_num_digits(Integer(radix))
    }

    fn max_num_digits_negative(radix: Self) -> (d: usize) {
        Integer::<i128>::max_num_digits_negative(Integer(radix))
    }
}

impl FromDigit for i128 {
    fn from_digit(digit: u8) -> (r: Option<Self>) {
        match decode_digit(digit, 10) {
            Some(d) => Some(<i128 as FixedInt>::from_small(d)),
            None => None,
        }
    }
}

impl FromRadix10 for u128 {
    fn from_radix_10(text: &[u8]) -> (r: (Self, usize)) {
        let (n, used) = Integer::<u128>::from_radix_10(text);
        (n.0, used)
    }
}

impl FromRadix10Signed for u128 {
    fn from_radix_10_signed(text: &[u8]) -> (r: (Self, usize)) {
        let (n, used) = Integer::<u128>::from_radix_10_signed(text);
        (n.0, used)
    }
}

impl FromRadix10Checked for u128 {
    fn from_radix_10_checked(text: &[u8]) -> (r: (Option<Self>, usize)) {
        let (o, used) = Integer::<u128>::from_radix_10_checked(text);
        (
            match o {
                Some(n) => Some(n.0),
                None => None,
            },
            used,
        )
    }
}

impl FromRadix10SignedChecked for u128 {
    fn from_radix_10_signed_checked(text: &[u8]) -> (r: (Option<Self>, usize)) {
        let (o, used) = Integer::<u128>::from_radix_10_signed_checked(text);
        (
            match o {
                Some(n) => Some(n.0),
                None => None,
            },
            used,
        )
    }
}

impl FromRadix16 for u128 {
    fn from_radix_16(text: &[u8]) -> (r: (Self, usize)) {
        let (n, used) = Integer::<u128>::from_radix_16(text);
        (n.0, used)
    }
}

impl FromRadix16Checked for u128 {
    fn from_radix_16_checked(text: &[u8]) -> (r: (Option<Self>, usize)) {
        let (o, used) = Integer::<u128>::from_radix_16_checked(text);
        (
            match o {
                Some(n) => Some(n.0),
                None => None,
            },
            used,
        )
    }
}

impl MaxNumDigits for u128 {
    fn max_num_digits(radix: Self) -> (d: usize) {
        Integer::<u128>::max_num_digits(Integer(radix))
    }

    fn max_num_digits_negative(radix: Self) -> (d: usize) {
        Integer::<u128>::max_num_digits_negative(Integer(radix))
    }
}

impl FromDigit for u128 {
    fn from_digit(digit: u8) -> (r: Option<Self>) {
        match decode_digit(digit, 10) {
            Some(d) => Some(<u128 as FixedInt>::from_small(d)),
            None => None,
        }
    }
}

} // verus!
