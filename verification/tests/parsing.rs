//! Parsing behaviour on concrete inputs: the checked boundaries, prefix
//! tolerance, hex digits, and the digit thresholds.

use atoi::{
    FromDigit, FromRadix10, FromRadix10Checked, FromRadix16, FromRadix16Checked, Integer,
    MaxNumDigits,
};

#[test]
fn max_digits() {
    assert_eq!(10, i32::max_num_digits(10));
    assert_eq!(10, u32::max_num_digits(10));
    assert_eq!(19, i64::max_num_digits(10));
    assert_eq!(20, u64::max_num_digits(10));
    assert_eq!(3, u8::max_num_digits(10));
    assert_eq!(3, i8::max_num_digits(10));
}

#[test]
fn max_digits_negative() {
    assert_eq!(10, i32::max_num_digits_negative(10));
    assert_eq!(0, u32::max_num_digits_negative(10));
    assert_eq!(19, i64::max_num_digits_negative(10));
    assert_eq!(0, u64::max_num_digits_negative(10));
    assert_eq!(0, u8::max_num_digits_negative(10));
    assert_eq!(3, i8::max_num_digits_negative(10));
}

#[test]
fn checked_parsing() {
    assert_eq!((Some(255), 3), u8::from_radix_10_checked(b"255"));
    assert_eq!((None, 3), u8::from_radix_10_checked(b"256"));
    assert_eq!((None, 4), u8::from_radix_10_checked(b"1000"));
    assert_eq!((Some(25), 2), u8::from_radix_10_checked(b"25"));
    assert_eq!((Some(25), 2), u8::from_radix_10_checked(b"25Blub"));
}

#[test]
fn checked_parsing_radix_16() {
    assert_eq!((Some(255), 2), u8::from_radix_16_checked(b"FF"));
    assert_eq!((None, 3), u8::from_radix_16_checked(b"100"));
    assert_eq!((None, 4), u8::from_radix_16_checked(b"1000"));
    assert_eq!((Some(25), 2), u8::from_radix_16_checked(b"19"));
    assert_eq!((Some(25), 2), u8::from_radix_16_checked(b"19!Blub"));
}

#[test]
fn max_digits_radix_16() {
    assert_eq!(2, u8::max_num_digits(16));
    assert_eq!(8, u32::max_num_digits(16));
    assert_eq!(8, i32::max_num_digits(16));
    assert_eq!(8, i32::max_num_digits_negative(16));
    assert_eq!(32, u128::max_num_digits(16));
}

#[test]
fn unchecked_parsing_decimal() {
    assert_eq!((42, 2), u32::from_radix_10(b"42"));
    assert_eq!(
        (42, 2),
        u32::from_radix_10(b"42 is the answer to life, the universe and everything")
    );
    assert_eq!((0, 0), u32::from_radix_10(b"Sadly we do not know the question"));
    assert_eq!((42, 2), i32::from_radix_10(b"42"));
    assert_eq!((0, 0), i32::from_radix_10(b"-42"));
    assert_eq!((42, 4), u32::from_radix_10(b"0042"));
    assert_eq!((0, 0), u32::from_radix_10(b""));
}

#[test]
fn unchecked_parsing_wraps_on_overflow() {
    assert_eq!((0, 3), u8::from_radix_10(b"256"));
    assert_eq!((44, 3), u8::from_radix_10(b"300"));
    assert_eq!((-128, 3), i8::from_radix_10(b"128"));
    assert_eq!((16, 3), u8::from_radix_16(b"110"));
}

#[test]
fn hex_case_insensitive() {
    assert_eq!((Some(42), 2), u32::from_radix_16_checked(b"2A"));
    assert_eq!((Some(42), 2), u32::from_radix_16_checked(b"2a"));
    assert_eq!((42, 2), u32::from_radix_16(b"2a"));
    assert_eq!((42, 2), u32::from_radix_16(b"2A"));
    assert_eq!((42, 4), u32::from_radix_16(b"002a"));
    assert_eq!((42, 4), u32::from_radix_16(b"002A"));
    assert_eq!((0xdeadbeef, 8), u32::from_radix_16(b"dEaDbEeF"));
    assert_eq!((0, 0), u32::from_radix_16(b"x1"));
}

#[test]
fn checked_parsing_wide_types() {
    assert_eq!(
        (Some(u64::MAX), 20),
        u64::from_radix_10_checked(b"18446744073709551615")
    );
    assert_eq!((None, 20), u64::from_radix_10_checked(b"18446744073709551616"));
    assert_eq!(
        (Some(i64::MAX), 19),
        i64::from_radix_10_checked(b"9223372036854775807")
    );
    assert_eq!((None, 19), i64::from_radix_10_checked(b"9223372036854775808"));
    assert_eq!(
        (Some(u128::MAX), 39),
        u128::from_radix_10_checked(b"340282366920938463463374607431768211455")
    );
    assert_eq!(
        (None, 39),
        u128::from_radix_10_checked(b"340282366920938463463374607431768211456")
    );
    assert_eq!((Some(65535), 4), u16::from_radix_16_checked(b"ffff"));
    assert_eq!((None, 5), u16::from_radix_16_checked(b"10000"));
}

#[test]
fn from_digit_decodes_decimal_bytes() {
    assert_eq!(Some(5), u32::from_digit(b'5'));
    assert_eq!(Some(0), u32::from_digit(b'0'));
    assert_eq!(Some(9), i8::from_digit(b'9'));
    assert_eq!(None, u32::from_digit(b'x'));
    assert_eq!(None, u32::from_digit(b'a'));
    assert_eq!(None, i64::from_digit(b'/'));
    assert_eq!(None, i64::from_digit(b':'));
}

#[test]
fn integer_wrapper_parses_like_the_width() {
    let (n, used) = Integer::<u32>::from_radix_10(b"4711");
    assert_eq!(4711, n.0);
    assert_eq!(4, used);
    let (o, used) = Integer::<u8>::from_radix_10_checked(b"256");
    assert!(o.is_none());
    assert_eq!(3, used);
    assert_eq!(10, Integer::<u32>::max_num_digits(Integer(10)));
    assert_eq!(0, Integer::<u32>::max_num_digits_negative(Integer(10)));
}
