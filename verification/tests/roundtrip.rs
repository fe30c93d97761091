//! Round trips: the decimal text of a value parses back to the value, with
//! every byte consumed. The full ranges of the 8-bit types, and the edges
//! and a sweep of the wider ones.

use atoi::{FromRadix10, FromRadix10Signed};

#[test]
fn roundtrip_u8_whole_range() {
    for n in 0..=u8::MAX {
        let text = n.to_string();
        assert_eq!((n, text.len()), u8::from_radix_10(text.as_bytes()));
    }
}

#[test]
fn roundtrip_i8_whole_range() {
    for n in i8::MIN..=i8::MAX {
        let text = n.to_string();
        assert_eq!((n, text.len()), i8::from_radix_10_signed(text.as_bytes()));
    }
}

#[test]
fn roundtrip_without_sign() {
    let samples: [u32; 8] = [0, 1, 9, 10, 4711, 100000, u32::MAX - 1, u32::MAX];
    for n in samples {
        let text = n.to_string();
        assert_eq!((n, text.len()), u32::from_radix_10(text.as_bytes()));
    }
}

#[test]
fn roundtrip_with_sign() {
    let samples: [i32; 10] =
        [i32::MIN, i32::MIN + 1, -100000, -10, -1, 0, 1, 10, i32::MAX - 1, i32::MAX];
    for n in samples {
        let text = n.to_string();
        assert_eq!((n, text.len()), i32::from_radix_10_signed(text.as_bytes()));
    }
}

#[test]
fn roundtrip_wide_types() {
    for n in [0u64, 1, u64::MAX / 2, u64::MAX] {
        let text = n.to_string();
        assert_eq!((n, text.len()), u64::from_radix_10(text.as_bytes()));
    }
    for n in [i64::MIN, -1, 0, i64::MAX] {
        let text = n.to_string();
        assert_eq!((n, text.len()), i64::from_radix_10_signed(text.as_bytes()));
    }
    for n in [0u128, u128::MAX] {
        let text = n.to_string();
        assert_eq!((n, text.len()), u128::from_radix_10(text.as_bytes()));
    }
    for n in [i128::MIN, i128::MAX] {
        let text = n.to_string();
        assert_eq!((n, text.len()), i128::from_radix_10_signed(text.as_bytes()));
    }
    for n in [u16::MAX, 0, 256] {
        let text = n.to_string();
        assert_eq!((n, text.len()), u16::from_radix_10(text.as_bytes()));
    }
    for n in [i16::MIN, i16::MAX] {
        let text = n.to_string();
        assert_eq!((n, text.len()), i16::from_radix_10_signed(text.as_bytes()));
    }
}
