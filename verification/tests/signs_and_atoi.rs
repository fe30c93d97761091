//! Sign handling, the sign edge cases, and the `atoi` entry point.

use atoi::{atoi, ascii_to_digit, FromRadix10Signed, FromRadix10SignedChecked, Sign};

#[test]
fn signed_parsing() {
    assert_eq!((42, 2), i32::from_radix_10_signed(b"42"));
    assert_eq!((-42, 3), i32::from_radix_10_signed(b"-42"));
    assert_eq!((42, 3), i32::from_radix_10_signed(b"+42"));
    assert_eq!((0, 2), u32::from_radix_10_signed(b"-0"));
    assert_eq!((42, 4), i32::from_radix_10_signed(b"0042"));
    assert_eq!((0, 0), i32::from_radix_10_signed(b"Sadly we do not know the question"));
}

#[test]
fn signed_checked_parsing() {
    assert_eq!((Some(42), 2), u32::from_radix_10_signed_checked(b"42"));
    assert_eq!((Some(42), 2), i32::from_radix_10_signed_checked(b"42"));
    assert_eq!((Some(-42), 3), i32::from_radix_10_signed_checked(b"-42"));
    assert_eq!((Some(0), 2), u32::from_radix_10_signed_checked(b"-0"));
    assert_eq!((None, 2), u32::from_radix_10_signed_checked(b"-1"));
    assert_eq!((None, 3), u32::from_radix_10_signed_checked(b"-42"));
    assert_eq!((Some(42), 4), u32::from_radix_10_signed_checked(b"0042"));
    assert_eq!((None, 3), u8::from_radix_10_signed_checked(b"256"));
    assert_eq!((None, 4), i8::from_radix_10_signed_checked(b"+128"));
    assert_eq!((None, 4), i8::from_radix_10_signed_checked(b"-129"));
}

#[test]
fn signed_checked_negative_boundary() {
    assert_eq!((Some(127), 3), i8::from_radix_10_signed_checked(b"127"));
    assert_eq!((Some(-128), 4), i8::from_radix_10_signed_checked(b"-128"));
    assert_eq!(
        (Some(i32::MIN), 11),
        i32::from_radix_10_signed_checked(b"-2147483648")
    );
    assert_eq!((None, 11), i32::from_radix_10_signed_checked(b"-2147483649"));
    assert_eq!(
        (Some(i128::MIN), 40),
        i128::from_radix_10_signed_checked(b"-170141183460469231731687303715884105728")
    );
    assert_eq!(
        (None, 40),
        i128::from_radix_10_signed_checked(b"-170141183460469231731687303715884105729")
    );
}

#[test]
fn lone_sign_is_no_number() {
    assert_eq!((0, 0), i32::from_radix_10_signed(b"-"));
    assert_eq!((0, 0), i32::from_radix_10_signed(b"+"));
    assert_eq!((0, 0), u32::from_radix_10_signed(b"-x"));
    assert_eq!((Some(0), 0), i32::from_radix_10_signed_checked(b"-"));
    assert_eq!((Some(0), 0), u32::from_radix_10_signed_checked(b"+"));
    assert_eq!(None, atoi::<i32>(b"-"));
    assert_eq!(None, atoi::<u32>(b"+"));
}

#[test]
fn signed_unchecked_wraps_on_overflow() {
    assert_eq!((127, 4), i8::from_radix_10_signed(b"-129"));
    assert_eq!((-128, 3), i8::from_radix_10_signed(b"128"));
    assert_eq!((u32::MAX, 2), u32::from_radix_10_signed(b"-1"));
    assert_eq!((u8::MAX - 41, 3), u8::from_radix_10_signed(b"-42"));
}

#[test]
fn atoi_parses_a_leading_number() {
    assert_eq!(Some(42), atoi::<u32>(b"42"));
    assert_eq!(
        Some(42),
        atoi::<u32>(b"42 is the answer to life, the universe and everything")
    );
    assert_eq!(None, atoi::<u32>(b"Sadly we do not know the question"));
    assert_eq!(Some(42), atoi::<i32>(b"42"));
    assert_eq!(Some(-42), atoi::<i32>(b"-42"));
    assert_eq!(Some(42), atoi::<u32>(b"0042"));
    assert_eq!(None, atoi::<u8>(b"256"));
}

#[test]
fn atoi_rejects_non_digits() {
    assert_eq!(None, atoi::<u32>(b"abc"));
    assert_eq!(None, atoi::<u32>(b""));
    assert_eq!(None, atoi::<i64>(b" 42"));
}

#[test]
fn sign_from_byte() {
    assert_eq!(Some(Sign::Plus), Sign::try_from(b'+'));
    assert_eq!(Some(Sign::Minus), Sign::try_from(b'-'));
    assert_eq!(None, Sign::try_from(b'1'));
    assert_eq!(None, Sign::try_from(b' '));
}

#[test]
fn sign_signum() {
    assert_eq!(1i32, Sign::Plus.signum());
    assert_eq!(-1i32, Sign::Minus.signum());
    assert_eq!(-1i128, Sign::Minus.signum());
    assert_eq!(1i8, Sign::Plus.signum());
}

#[test]
fn ascii_to_digit_decodes_decimal_bytes() {
    assert_eq!(Some(5), ascii_to_digit::<u32>(b'5'));
    assert_eq!(Some(0), ascii_to_digit::<i8>(b'0'));
    assert_eq!(None, ascii_to_digit::<u32>(b'x'));
}
