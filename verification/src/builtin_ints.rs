//! `FixedInt` for the native fixed-width integer types, written directly on
//! top of the standard library's wrapping and checked arithmetic. One
//! implementation per width; the bodies are mechanical and the proofs lean on
//! the wrapping lemmas of the model.

use vstd::prelude::*;

verus! {

use vstd::arithmetic::div_mod::{
    lemma_div_pos_is_pos,
    lemma_fundamental_div_mod,
    lemma_mod_bound,
};
use vstd::arithmetic::mul::{lemma_mul_increases, lemma_mul_nonnegative};

use crate::fixed::FixedInt;
use crate::model::{
    lemma_wrap_above,
    lemma_wrap_below,
    lemma_wrap_in_range,
    lemma_wrap_two_complement,
    trunc_div,
};

/// The quotient of a truncating division never exceeds the dividend's
/// magnitude, so the standard library's `checked_div` by a radix always
/// returns a value.
proof fn lemma_trunc_div_in_range(a: int, b: int)
    requires
        b >= 2,
    ensures
        a >= 0 ==> 0 <= trunc_div(a, b) <= a,
        a < 0 ==> a <= trunc_div(a, b) <= 0,
{
    let m = if a >= 0 {
        a
    } else {
        -a
    };
    let q = m / b;
    lemma_div_pos_is_pos(m, b);
    if q > 0 {
        lemma_mul_increases(b, q);
        lemma_fundamental_div_mod(m, b);
        lemma_mod_bound(m, b);
    }
}

impl FixedInt for u8 {
    open spec fn as_int(self) -> int {
        self as int
    }

    open spec fn min_spec() -> int {
        0
    }

    open spec fn max_spec() -> int {
        0xff
    }

    proof fn range_facts() {
    }

    proof fn value_in_range(self) {
    }

    fn zero() -> (r: Self) {
        0
    }

    fn from_small(d: u8) -> (r: Self) {
        d as u8
    }

    fn max_value() -> (r: Self) {
        u8::MAX
    }

    fn min_value() -> (r: Self) {
        u8::MIN
    }

    fn is_pos(self) -> (r: bool) {
        self > 0
    }

    fn is_neg(self) -> (r: bool) {
        false
    }

    fn wrap_mul(self, rhs: Self) -> (r: Self) {
        proof {
            let v: int = self as int * rhs as int;
            lemma_mul_nonnegative(self as int, rhs as int);
            lemma_mod_bound(v, 0x100);
        }
        self.wrapping_mul(rhs)
    }

    fn wrap_add(self, rhs: Self) -> (r: Self) {
        proof {
            let v: int = self as int + rhs as int;
            if v <= 0xff {
                lemma_wrap_in_range(v, 0, 0xff);
            } else {
                lemma_wrap_above(v, 0, 0xff);
            }
        }
        self.wrapping_add(rhs)
    }

    fn wrap_sub(self, rhs: Self) -> (r: Self) {
        proof {
            let v: int = self as int - rhs as int;
            if v >= 0 {
                lemma_wrap_in_range(v, 0, 0xff);
            } else {
                lemma_wrap_below(v, 0, 0xff);
            }
        }
        self.wrapping_sub(rhs)
    }

    fn mul_checked(self, rhs: Self) -> (r: Option<Self>) {
        proof {
            lemma_mul_nonnegative(self as int, rhs as int);
        }
        self.checked_mul(rhs)
    }

    fn add_checked(self, rhs: Self) -> (r: Option<Self>) {
        self.checked_add(rhs)
    }

    fn sub_checked(self, rhs: Self) -> (r: Option<Self>) {
        self.checked_sub(rhs)
    }

    fn div_radix(self, radix: Self) -> (r: Self) {
        self / radix
    }
}

impl FixedInt for i8 {
    open spec fn as_int(self) -> int {
        self as int
    }

    open spec fn min_spec() -> int {
        -0x80
    }

    open spec fn max_spec() -> int {
        0x7f
    }

    proof fn range_facts() {
    }

    proof fn value_in_range(self) {
    }

    fn zero() -> (r: Self) {
        0
    }

    fn from_small(d: u8) -> (r: Self) {
        d as i8
    }

    fn max_value() -> (r: Self) {
        i8::MAX
    }

    fn min_value() -> (r: Self) {
        i8::MIN
    }

    fn is_pos(self) -> (r: bool) {
        self > 0
    }

    fn is_neg(self) -> (r: bool) {
        self < 0
    }

    fn wrap_mul(self, rhs: Self) -> (r: Self) {
        proof {
            let v: int = self as int * rhs as int;
            lemma_wrap_two_complement(v, 0x7f);
            lemma_mod_bound(v, 0x100);
        }
        self.wrapping_mul(rhs)
    }

    fn wrap_add(self, rhs: Self) -> (r: Self) {
        proof {
            let v: int = self as int + rhs as int;
            if v > 0x7f {
                lemma_wrap_above(v, -0x80, 0x7f);
            } else if v < -0x80 {
                lemma_wrap_below(v, -0x80, 0x7f);
            } else {
                lemma_wrap_in_range(v, -0x80, 0x7f);
            }
        }
        self.wrapping_add(rhs)
    }

    fn wrap_sub(self, rhs: Self) -> (r: Self) {
        proof {
            let v: int = self as int - rhs as int;
            if v > 0x7f {
                lemma_wrap_above(v, -0x80, 0x7f);
            } else if v < -0x80 {
                lemma_wrap_below(v, -0x80, 0x7f);
            } else {
                lemma_wrap_in_range(v, -0x80, 0x7f);
            }
        }
        self.wrapping_sub(rhs)
    }

    fn mul_checked(self, rhs: Self) -> (r: Option<Self>) {
        self.checked_mul(rhs)
    }

    fn add_checked(self, rhs: Self) -> (r: Option<Self>) {
        self.checked_add(rhs)
    }

    fn sub_checked(self, rhs: Self) -> (r: Option<Self>) {
        self.checked_sub(rhs)
    }

    fn div_radix(self, radix: Self) -> (r: Self) {
        proof {
            lemma_trunc_div_in_range(self as int, radix as int);
        }
        self.checked_div(radix).unwrap()
    }
}


impl FixedInt for u16 {
    open spec fn as_int(self) -> int {
        self as int
    }

    open spec fn min_spec() -> int {
        0
    }

    open spec fn max_spec() -> int {
        0xffff
    }

    proof fn range_facts() {
    }

    proof fn value_in_range(self) {
    }

    fn zero() -> (r: Self) {
        0
    }

    fn from_small(d: u8) -> (r: Self) {
        d as u16
    }

    fn max_value() -> (r: Self) {
        u16::MAX
    }

    fn min_value() -> (r: Self) {
        u16::MIN
    }

    fn is_pos(self) -> (r: bool) {
        self > 0
    }

    fn is_neg(self) -> (r: bool) {
        false
    }

    fn wrap_mul(self, rhs: Self) -> (r: Self) {
        proof {
            let v: int = self as int * rhs as int;
            lemma_mul_nonnegative(self as int, rhs as int);
            lemma_mod_bound(v, 0x1_0000);
        }
        self.wrapping_mul(rhs)
    }

    fn wrap_add(self, rhs: Self) -> (r: Self) {
        proof {
            let v: int = self as int + rhs as int;
            if v <= 0xffff {
                lemma_wrap_in_range(v, 0, 0xffff);
            } else {
                lemma_wrap_above(v, 0, 0xffff);
            }
        }
        self.wrapping_add(rhs)
    }

    fn wrap_sub(self, rhs: Self) -> (r: Self) {
        proof {
            let v: int = self as int - rhs as int;
            if v >= 0 {
                lemma_wrap_in_range(v, 0, 0xffff);
            } else {
                lemma_wrap_below(v, 0, 0xffff);
            }
        }
        self.wrapping_sub(rhs)
    }

    fn mul_checked(self, rhs: Self) -> (r: Option<Self>) {
        proof {
            lemma_mul_nonnegative(self as int, rhs as int);
        }
        self.checked_mul(rhs)
    }

    fn add_checked(self, rhs: Self) -> (r: Option<Self>) {
        self.checked_add(rhs)
    }

    fn sub_checked(self, rhs: Self) -> (r: Option<Self>) {
        self.checked_sub(rhs)
    }

    fn div_radix(self, radix: Self) -> (r: Self) {
        self / radix
    }
}

impl FixedInt for i16 {
    open spec fn as_int(self) -> int {
        self as int
    }

    open spec fn min_spec() -> int {
        -0x8000
    }

    open spec fn max_spec() -> int {
        0x7fff
    }

    proof fn range_facts() {
    }

    proof fn value_in_range(self) {
    }

    fn zero() -> (r: Self) {
        0
    }

    fn from_small(d: u8) -> (r: Self) {
        d as i16
    }

    fn max_value() -> (r: Self) {
        i16::MAX
    }

    fn min_value() -> (r: Self) {
        i16::MIN
    }

    fn is_pos(self) -> (r: bool) {
        self > 0
    }

    fn is_neg(self) -> (r: bool) {
        self < 0
    }

    fn wrap_mul(self, rhs: Self) -> (r: Self) {
        proof {
            let v: int = self as int * rhs as int;
            lemma_wrap_two_complement(v, 0x7fff);
            lemma_mod_bound(v, 0x1_0000);
        }
        self.wrapping_mul(rhs)
    }

    fn wrap_add(self, rhs: Self) -> (r: Self) {
        proof {
            let v: int = self as int + rhs as int;
            if v > 0x7fff {
                lemma_wrap_above(v, -0x8000, 0x7fff);
            } else if v < -0x8000 {
                lemma_wrap_below(v, -0x8000, 0x7fff);
            } else {
                lemma_wrap_in_range(v, -0x8000, 0x7fff);
            }
        }
        self.wrapping_add(rhs)
    }

    fn wrap_sub(self, rhs: Self) -> (r: Self) {
        proof {
            let v: int = self as int - rhs as int;
            if v > 0x7fff {
                lemma_wrap_above(v, -0x8000, 0x7fff);
            } else if v < -0x8000 {
                lemma_wrap_below(v, -0x8000, 0x7fff);
            } else {
                lemma_wrap_in_range(v, -0x8000, 0x7fff);
            }
        }
        self.wrapping_sub(rhs)
    }

    fn mul_checked(self, rhs: Self) -> (r: Option<Self>) {
        self.checked_mul(rhs)
    }

    fn add_checked(self, rhs: Self) -> (r: Option<Self>) {
        self.checked_add(rhs)
    }

    fn sub_checked(self, rhs: Self) -> (r: Option<Self>) {
        self.checked_sub(rhs)
    }

    fn div_radix(self, radix: Self) -> (r: Self) {
        proof {
            lemma_trunc_div_in_range(self as int, radix as int);
        }
        self.checked_div(radix).unwrap()
    }
}

impl FixedInt for u32 {
    open spec fn as_int(self) -> int {
        self as int
    }

    open spec fn min_spec() -> int {
        0
    }

    open spec fn max_spec() -> int {
        0xffff_ffff
    }

    proof fn range_facts() {
    }

    proof fn value_in_range(self) {
    }

    fn zero() -> (r: Self) {
        0
    }

    fn from_small(d: u8) -> (r: Self) {
        d as u32
    }

    fn max_value() -> (r: Self) {
        u32::MAX
    }

    fn min_value() -> (r: Self) {
        u32::MIN
    }

    fn is_pos(self) -> (r: bool) {
        self > 0
    }

    fn is_neg(self) -> (r: bool) {
        false
    }

    fn wrap_mul(self, rhs: Self) -> (r: Self) {
        proof {
            let v: int = self as int * rhs as int;
            lemma_mul_nonnegative(self as int, rhs as int);
            lemma_mod_bound(v, 0x1_0000_0000);
        }
        self.wrapping_mul(rhs)
    }

    fn wrap_add(self, rhs: Self) -> (r: Self) {
        proof {
            let v: int = self as int + rhs as int;
            if v <= 0xffff_ffff {
                lemma_wrap_in_range(v, 0, 0xffff_ffff);
            } else {
                lemma_wrap_above(v, 0, 0xffff_ffff);
            }
        }
        self.wrapping_add(rhs)
    }

    fn wrap_sub(self, rhs: Self) -> (r: Self) {
        proof {
            let v: int = self as int - rhs as int;
            if v >= 0 {
                lemma_wrap_in_range(v, 0, 0xffff_ffff);
            } else {
                lemma_wrap_below(v, 0, 0xffff_ffff);
            }
        }
        self.wrapping_sub(rhs)
    }

    fn mul_checked(self, rhs: Self) -> (r: Option<Self>) {
        proof {
            lemma_mul_nonnegative(self as int, rhs as int);
        }
        self.checked_mul(rhs)
    }

    fn add_checked(self, rhs: Self) -> (r: Option<Self>) {
        self.checked_add(rhs)
    }

    fn sub_checked(self, rhs: Self) -> (r: Option<Self>) {
        self.checked_sub(rhs)
    }

    fn div_radix(self, radix: Self) -> (r: Self) {
        self / radix
    }
}

impl FixedInt for i32 {
    open spec fn as_int(self) -> int {
        self as int
    }

    open spec fn min_spec() -> int {
        -0x8000_0000
    }

    open spec fn max_spec() -> int {
        0x7fff_ffff
    }

    proof fn range_facts() {
    }

    proof fn value_in_range(self) {
    }

    fn zero() -> (r: Self) {
        0
    }

    fn from_small(d: u8) -> (r: Self) {
        d as i32
    }

    fn max_value() -> (r: Self) {
        i32::MAX
    }

    fn min_value() -> (r: Self) {
        i32::MIN
    }

    fn is_pos(self) -> (r: bool) {
        self > 0
    }

    fn is_neg(self) -> (r: bool) {
        self < 0
    }

    fn wrap_mul(self, rhs: Self) -> (r: Self) {
        proof {
            let v: int = self as int * rhs as int;
            lemma_wrap_two_complement(v, 0x7fff_ffff);
            lemma_mod_bound(v, 0x1_0000_0000);
        }
        self.wrapping_mul(rhs)
    }

    fn wrap_add(self, rhs: Self) -> (r: Self) {
        proof {
            let v: int = self as int + rhs as int;
            if v > 0x7fff_ffff {
                lemma_wrap_above(v, -0x8000_0000, 0x7fff_ffff);
            } else if v < -0x8000_0000 {
                lemma_wrap_below(v, -0x8000_0000, 0x7fff_ffff);
            } else {
                lemma_wrap_in_range(v, -0x8000_0000, 0x7fff_ffff);
            }
        }
        self.wrapping_add(rhs)
    }

    fn wrap_sub(self, rhs: Self) -> (r: Self) {
        proof {
            let v: int = self as int - rhs as int;
            if v > 0x7fff_ffff {
                lemma_wrap_above(v, -0x8000_0000, 0x7fff_ffff);
            } else if v < -0x8000_0000 {
                lemma_wrap_below(v, -0x8000_0000, 0x7fff_ffff);
            } else {
                lemma_wrap_in_range(v, -0x8000_0000, 0x7fff_ffff);
            }
        }
        self.wrapping_sub(rhs)
    }

    fn mul_checked(self, rhs: Self) -> (r: Option<Self>) {
        self.checked_mul(rhs)
    }

    fn add_checked(self, rhs: Self) -> (r: Option<Self>) {
        self.checked_add(rhs)
    }

    fn sub_checked(self, rhs: Self) -> (r: Option<Self>) {
        self.checked_sub(rhs)
    }

    fn div_radix(self, radix: Self) -> (r: Self) {
        proof {
            lemma_trunc_div_in_range(self as int, radix as int);
        }
        self.checked_div(radix).unwrap()
    }
}

impl FixedInt for u64 {
    open spec fn as_int(self) -> int {
        self as int
    }

    open spec fn min_spec() -> int {
        0
    }

    open spec fn max_spec() -> int {
        0xffff_ffff_ffff_ffff
    }

    proof fn range_facts() {
    }

    proof fn value_in_range(self) {
    }

    fn zero() -> (r: Self) {
        0
    }

    fn from_small(d: u8) -> (r: Self) {
        d as u64
    }

    fn max_value() -> (r: Self) {
        u64::MAX
    }

    fn min_value() -> (r: Self) {
        u64::MIN
    }

    fn is_pos(self) -> (r: bool) {
        self > 0
    }

    fn is_neg(self) -> (r: bool) {
        false
    }

    fn wrap_mul(self, rhs: Self) -> (r: Self) {
        proof {
            let v: int = self as int * rhs as int;
            lemma_mul_nonnegative(self as int, rhs as int);
            lemma_mod_bound(v, 0x1_0000_0000_0000_0000);
        }
        self.wrapping_mul(rhs)
    }

    fn wrap_add(self, rhs: Self) -> (r: Self) {
        proof {
            let v: int = self as int + rhs as int;
            if v <= 0xffff_ffff_ffff_ffff {
                lemma_wrap_in_range(v, 0, 0xffff_ffff_ffff_ffff);
            } else {
                lemma_wrap_above(v, 0, 0xffff_ffff_ffff_ffff);
            }
        }
        self.wrapping_add(rhs)
    }

    fn wrap_sub(self, rhs: Self) -> (r: Self) {
        proof {
            let v: int = self as int - rhs as int;
            if v >= 0 {
                lemma_wrap_in_range(v, 0, 0xffff_ffff_ffff_ffff);
            } else {
                lemma_wrap_below(v, 0, 0xffff_ffff_ffff_ffff);
            }
        }
        self.wrapping_sub(rhs)
    }

    fn mul_checked(self, rhs: Self) -> (r: Option<Self>) {
        proof {
            lemma_mul_nonnegative(self as int, rhs as int);
        }
        self.checked_mul(rhs)
    }

    fn add_checked(self, rhs: Self) -> (r: Option<Self>) {
        self.checked_add(rhs)
    }

    fn sub_checked(self, rhs: Self) -> (r: Option<Self>) {
        self.checked_sub(rhs)
    }

    fn div_radix(self, radix: Self) -> (r: Self) {
        self / radix
    }
}

impl FixedInt for i64 {
    open spec fn as_int(self) -> int {
        self as int
    }

    open spec fn min_spec() -> int {
        -0x8000_0000_0000_0000
    }

    open spec fn max_spec() -> int {
        0x7fff_ffff_ffff_ffff
    }

    proof fn range_facts() {
    }

    proof fn value_in_range(self) {
    }

    fn zero() -> (r: Self) {
        0
    }

    fn from_small(d: u8) -> (r: Self) {
        d as i64
    }

    fn max_value() -> (r: Self) {
        i64::MAX
    }

    fn min_value() -> (r: Self) {
        i64::MIN
    }

    fn is_pos(self) -> (r: bool) {
        self > 0
    }

    fn is_neg(self) -> (r: bool) {
        self < 0
    }

    fn wrap_mul(self, rhs: Self) -> (r: Self) {
        proof {
            let v: int = self as int * rhs as int;
            lemma_wrap_two_complement(v, 0x7fff_ffff_ffff_ffff);
            lemma_mod_bound(v, 0x1_0000_0000_0000_0000);
        }
        self.wrapping_mul(rhs)
    }

    fn wrap_add(self, rhs: Self) -> (r: Self) {
        proof {
            let v: int = self as int + rhs as int;
            if v > 0x7fff_ffff_ffff_ffff {
                lemma_wrap_above(v, -0x8000_0000_0000_0000, 0x7fff_ffff_ffff_ffff);
            } else if v < -0x8000_0000_0000_0000 {
                lemma_wrap_below(v, -0x8000_0000_0000_0000, 0x7fff_ffff_ffff_ffff);
            } else {
                lemma_wrap_in_range(v, -0x8000_0000_0000_0000, 0x7fff_ffff_ffff_ffff);
            }
        }
        self.wrapping_add(rhs)
    }

    fn wrap_sub(self, rhs: Self) -> (r: Self) {
        proof {
            let v: int = self as int - rhs as int;
            if v > 0x7fff_ffff_ffff_ffff {
                lemma_wrap_above(v, -0x8000_0000_0000_0000, 0x7fff_ffff_ffff_ffff);
            } else if v < -0x8000_0000_0000_0000 {
                lemma_wrap_below(v, -0x8000_0000_0000_0000, 0x7fff_ffff_ffff_ffff);
            } else {
                lemma_wrap_in_range(v, -0x8000_0000_0000_0000, 0x7fff_ffff_ffff_ffff);
            }
        }
        self.wrapping_sub(rhs)
    }

    fn mul_checked(self, rhs: Self) -> (r: Option<Self>) {
        self.checked_mul(rhs)
    }

    fn add_checked(self, rhs: Self) -> (r: Option<Self>) {
        self.checked_add(rhs)
    }

    fn sub_checked(self, rhs: Self) -> (r: Option<Self>) {
        self.checked_sub(rhs)
    }

    fn div_radix(self, radix: Self) -> (r: Self) {
        proof {
            lemma_trunc_div_in_range(self as int, radix as int);
        }
        self.checked_div(radix).unwrap()
    }
}

impl FixedInt for u128 {
    open spec fn as_int(self) -> int {
        self as int
    }

    open spec fn min_spec() -> int {
        0
    }

    open spec fn max_spec() -> int {
        0xffff_ffff_ffff_ffff_ffff_ffff_ffff_ffff
    }

    proof fn range_facts() {
    }

    proof fn value_in_range(self) {
    }

    fn zero() -> (r: Self) {
        0
    }

    fn from_small(d: u8) -> (r: Self) {
        d as u128
    }

    fn max_value() -> (r: Self) {
        u128::MAX
    }

    fn min_value() -> (r: Self) {
        u128::MIN
    }

    fn is_pos(self) -> (r: bool) {
        self > 0
    }

    fn is_neg(self) -> (r: bool) {
        false
    }

    fn wrap_mul(self, rhs: Self) -> (r: Self) {
        proof {
            let v: int = self as int * rhs as int;
            lemma_mul_nonnegative(self as int, rhs as int);
            lemma_mod_bound(v, 0x1_0000_0000_0000_0000_0000_0000_0000_0000int);
        }
        self.wrapping_mul(rhs)
    }

    fn wrap_add(self, rhs: Self) -> (r: Self) {
        proof {
            let v: int = self as int + rhs as int;
            if v <= 0xffff_ffff_ffff_ffff_ffff_ffff_ffff_ffff {
                lemma_wrap_in_range(v, 0, 0xffff_ffff_ffff_ffff_ffff_ffff_ffff_ffff);
            } else {
                lemma_wrap_above(v, 0, 0xffff_ffff_ffff_ffff_ffff_ffff_ffff_ffff);
            }
        }
        self.wrapping_add(rhs)
    }

    fn wrap_sub(self, rhs: Self) -> (r: Self) {
        proof {
            let v: int = self as int - rhs as int;
            if v >= 0 {
                lemma_wrap_in_range(v, 0, 0xffff_ffff_ffff_ffff_ffff_ffff_ffff_ffff);
            } else {
                lemma_wrap_below(v, 0, 0xffff_ffff_ffff_ffff_ffff_ffff_ffff_ffff);
            }
        }
        self.wrapping_sub(rhs)
    }

    fn mul_checked(self, rhs: Self) -> (r: Option<Self>) {
        proof {
            lemma_mul_nonnegative(self as int, rhs as int);
        }
        self.checked_mul(rhs)
    }

    fn add_checked(self, rhs: Self) -> (r: Option<Self>) {
        self.checked_add(rhs)
    }

    fn sub_checked(self, rhs: Self) -> (r: Option<Self>) {
        self.checked_sub(rhs)
    }

    fn div_radix(self, radix: Self) -> (r: Self) {
        self / radix
    }
}

impl FixedInt for i128 {
    open spec fn as_int(self) -> int {
        self as int
    }

    open spec fn min_spec() -> int {
        -0x8000_0000_0000_0000_0000_0000_0000_0000
    }

    open spec fn max_spec() -> int {
        0x7fff_ffff_ffff_ffff_ffff_ffff_ffff_ffff
    }

    proof fn range_facts() {
    }

    proof fn value_in_range(self) {
    }

    fn zero() -> (r: Self) {
        0
    }

    fn from_small(d: u8) -> (r: Self) {
        d as i128
    }

    fn max_value() -> (r: Self) {
        i128::MAX
    }

    fn min_value() -> (r: Self) {
        i128::MIN
    }

    fn is_pos(self) -> (r: bool) {
        self > 0
    }

    fn is_neg(self) -> (r: bool) {
        self < 0
    }

    fn wrap_mul(self, rhs: Self) -> (r: Self) {
        proof {
            let v: int = self as int * rhs as int;
            lemma_wrap_two_complement(v, 0x7fff_ffff_ffff_ffff_ffff_ffff_ffff_ffff);
            lemma_mod_bound(v, 0x1_0000_0000_0000_0000_0000_0000_0000_0000int);
        }
        self.wrapping_mul(rhs)
    }

    fn wrap_add(self, rhs: Self) -> (r: Self) {
        proof {
            let v: int = self as int + rhs as int;
            if v > 0x7fff_ffff_ffff_ffff_ffff_ffff_ffff_ffff {
                lemma_wrap_above(v, -0x8000_0000_0000_0000_0000_0000_0000_0000, 0x7fff_ffff_ffff_ffff_ffff_ffff_ffff_ffff);
            } else if v < -0x8000_0000_0000_0000_0000_0000_0000_0000 {
                lemma_wrap_below(v, -0x8000_0000_0000_0000_0000_0000_0000_0000, 0x7fff_ffff_ffff_ffff_ffff_ffff_ffff_ffff);
            } else {
                lemma_wrap_in_range(v, -0x8000_0000_0000_0000_0000_0000_0000_0000, 0x7fff_ffff_ffff_ffff_ffff_ffff_ffff_ffff);
            }
        }
        self.wrapping_add(rhs)
    }

    fn wrap_sub(self, rhs: Self) -> (r: Self) {
        proof {
            let v: int = self as int - rhs as int;
            if v > 0x7fff_ffff_ffff_ffff_ffff_ffff_ffff_ffff {
                lemma_wrap_above(v, -0x8000_0000_0000_0000_0000_0000_0000_0000, 0x7fff_ffff_ffff_ffff_ffff_ffff_ffff_ffff);
            } else if v < -0x8000_0000_0000_0000_0000_0000_0000_0000 {
                lemma_wrap_below(v, -0x8000_0000_0000_0000_0000_0000_0000_0000, 0x7fff_ffff_ffff_ffff_ffff_ffff_ffff_ffff);
            } else {
                lemma_wrap_in_range(v, -0x8000_0000_0000_0000_0000_0000_0000_0000, 0x7fff_ffff_ffff_ffff_ffff_ffff_ffff_ffff);
            }
        }
        self.wrapping_sub(rhs)
    }

    fn mul_checked(self, rhs: Self) -> (r: Option<Self>) {
        self.checked_mul(rhs)
    }

    fn add_checked(self, rhs: Self) -> (r: Option<Self>) {
        self.checked_add(rhs)
    }

    fn sub_checked(self, rhs: Self) -> (r: Option<Self>) {
        self.checked_sub(rhs)
    }

    fn div_radix(self, radix: Self) -> (r: Self) {
        proof {
            lemma_trunc_div_in_range(self as int, radix as int);
        }
        self.checked_div(radix).unwrap()
    }
}

} // verus!
