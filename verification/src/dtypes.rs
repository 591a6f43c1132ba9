//! Element types.

use vstd::prelude::*;

verus! {

/// A value that a tensor can hold. It has a zero and a one; no arithmetic is asked of it.
pub trait Unit: Copy {
    /// The value that a zero-filled tensor holds.
    spec fn zero_spec() -> Self;

    /// The value that a one-filled tensor holds.
    spec fn one_spec() -> Self;

    fn zero() -> (r: Self)
        ensures
            r == Self::zero_spec(),
    ;

    fn one() -> (r: Self)
        ensures
            r == Self::one_spec(),
    ;
}

/// A numeric value that a tensor can hold: gradients of it can be accumulated.
pub trait Dtype: Unit {
    /// The sum that `add` computes.
    spec fn add_spec(self, rhs: Self) -> Self;

    fn add(self, rhs: Self) -> (r: Self)
        ensures
            r == self.add_spec(rhs),
    ;

    /// The value that stands for the fraction `numerator / denominator`.
    spec fn ratio_spec(numerator: u32, denominator: u32) -> Self;

    /// The value of this type that stands for a fraction, such as a small constant that is
    /// written down once for every element type.
    fn from_ratio(numerator: u32, denominator: u32) -> (r: Self)
        requires
            denominator > 0,
        ensures
            r == Self::ratio_spec(numerator, denominator),
    ;
}

impl Unit for bool {
    open spec fn zero_spec() -> bool {
        false
    }

    open spec fn one_spec() -> bool {
        true
    }

    fn zero() -> (r: bool) {
        false
    }

    fn one() -> (r: bool) {
        true
    }
}

impl Unit for i32 {
    open spec fn zero_spec() -> i32 {
        0i32
    }

    open spec fn one_spec() -> i32 {
        1i32
    }

    fn zero() -> (r: i32) {
        0i32
    }

    fn one() -> (r: i32) {
        1i32
    }
}

/// Sums of `i32` wrap around at the ends of its range. A fraction is rounded down to a whole
/// number, and to the largest `i32` where it is beyond that.
impl Dtype for i32 {
    open spec fn add_spec(self, rhs: i32) -> i32 {
        vstd::wrapping::i32_specs::wrapping_add(self, rhs)
    }

    fn add(self, rhs: i32) -> (r: i32) {
        self.wrapping_add(rhs)
    }

    open spec fn ratio_spec(numerator: u32, denominator: u32) -> i32 {
        if numerator as int / denominator as int > i32::MAX {
            i32::MAX
        } else {
            (numerator as int / denominator as int) as i32
        }
    }

    fn from_ratio(numerator: u32, denominator: u32) -> (r: i32) {
        let quotient: u32 = numerator / denominator;
        if quotient > 0x7fff_ffff {
            i32::MAX
        } else {
            quotient as i32
        }
    }
}

impl Unit for i64 {
    open spec fn zero_spec() -> i64 {
        0i64
    }

    open spec fn one_spec() -> i64 {
        1i64
    }

    fn zero() -> (r: i64) {
        0i64
    }

    fn one() -> (r: i64) {
        1i64
    }
}

/// Sums of `i64` wrap around at the ends of its range. A fraction is rounded down to a whole
/// number.
impl Dtype for i64 {
    open spec fn add_spec(self, rhs: i64) -> i64 {
        vstd::wrapping::i64_specs::wrapping_add(self, rhs)
    }

    fn add(self, rhs: i64) -> (r: i64) {
        self.wrapping_add(rhs)
    }

    open spec fn ratio_spec(numerator: u32, denominator: u32) -> i64 {
        (numerator as int / denominator as int) as i64
    }

    fn from_ratio(numerator: u32, denominator: u32) -> (r: i64) {
        (numerator / denominator) as i64
    }
}

} // verus!
