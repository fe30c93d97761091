//! The capability a fixed-width integer type offers to the parsing engine: a
//! mathematical view, the bounds of its range, and wrapping and checked
//! arithmetic whose results are pinned down against that view.
//!
//! One generic parsing algorithm is verified over this trait; each native
//! integer width implements it directly on top of the standard library's
//! arithmetic.

use vstd::prelude::*;

verus! {

use crate::model::{trunc_div, wrap_to};

/// A fixed-width machine integer with range `[min_spec(), max_spec()]`.
pub trait FixedInt: Copy + Sized {
    /// The mathematical value of this machine integer.
    spec fn as_int(self) -> int;

    /// The smallest representable value.
    spec fn min_spec() -> int;

    /// The largest representable value.
    spec fn max_spec() -> int;

    /// The range facts every fixed-width integer type of 8 to 128 bits
    /// satisfies: the range contains `[0, 16]`, and it fits into 128 bits.
    proof fn range_facts()
        ensures
            Self::min_spec() <= 0,
            16 <= Self::max_spec(),
            Self::max_spec() <= 0xffff_ffff_ffff_ffff_ffff_ffff_ffff_ffff,
            -0x8000_0000_0000_0000_0000_0000_0000_0000 <= Self::min_spec(),
    ;

    /// Every value lies within the range.
    proof fn value_in_range(self)
        ensures
            Self::min_spec() <= self.as_int() <= Self::max_spec(),
    ;

    /// The value 0.
    fn zero() -> (r: Self)
        ensures
            r.as_int() == 0,
    ;

    /// A small constant, enough for every digit value and for the radixes 10
    /// and 16.
    fn from_small(d: u8) -> (r: Self)
        requires
            d <= 16,
        ensures
            r.as_int() == d as int,
    ;

    /// The largest representable value.
    fn max_value() -> (r: Self)
        ensures
            r.as_int() == Self::max_spec(),
    ;

    /// The smallest representable value.
    fn min_value() -> (r: Self)
        ensures
            r.as_int() == Self::min_spec(),
    ;

    /// Whether the value is strictly positive.
    fn is_pos(self) -> (r: bool)
        ensures
            r == (self.as_int() > 0),
    ;

    /// Whether the value is strictly negative.
    fn is_neg(self) -> (r: bool)
        ensures
            r == (self.as_int() < 0),
    ;

    /// Wraparound multiplication.
    fn wrap_mul(self, rhs: Self) -> (r: Self)
        ensures
            r.as_int() == wrap_to(
                self.as_int() * rhs.as_int(),
                Self::min_spec(),
                Self::max_spec(),
            ),
    ;

    /// Wraparound addition.
    fn wrap_add(self, rhs: Self) -> (r: Self)
        ensures
            r.as_int() == wrap_to(
                self.as_int() + rhs.as_int(),
                Self::min_spec(),
                Self::max_spec(),
            ),
    ;

    /// Wraparound subtraction.
    fn wrap_sub(self, rhs: Self) -> (r: Self)
        ensures
            r.as_int() == wrap_to(
                self.as_int() - rhs.as_int(),
                Self::min_spec(),
                Self::max_spec(),
            ),
    ;

    /// Checked multiplication: the exact product, or `None` when it does not
    /// fit the range.
    fn mul_checked(self, rhs: Self) -> (r: Option<Self>)
        ensures
            r.is_some() <==> Self::min_spec() <= self.as_int() * rhs.as_int()
                <= Self::max_spec(),
            r.is_some() ==> r.unwrap().as_int() == self.as_int() * rhs.as_int(),
    ;

    /// Checked addition: the exact sum, or `None` when it does not fit the
    /// range.
    fn add_checked(self, rhs: Self) -> (r: Option<Self>)
        ensures
            r.is_some() <==> Self::min_spec() <= self.as_int() + rhs.as_int()
                <= Self::max_spec(),
            r.is_some() ==> r.unwrap().as_int() == self.as_int() + rhs.as_int(),
    ;

    /// Checked subtraction: the exact difference, or `None` when it does not
    /// fit the range.
    fn sub_checked(self, rhs: Self) -> (r: Option<Self>)
        ensures
            r.is_some() <==> Self::min_spec() <= self.as_int() - rhs.as_int()
                <= Self::max_spec(),
            r.is_some() ==> r.unwrap().as_int() == self.as_int() - rhs.as_int(),
    ;

    /// Division by a radix, truncating toward zero as machine division does.
    fn div_radix(self, radix: Self) -> (r: Self)
        requires
            2 <= radix.as_int() <= 16,
        ensures
            r.as_int() == trunc_div(self.as_int(), radix.as_int()),
    ;
}

} // verus!
