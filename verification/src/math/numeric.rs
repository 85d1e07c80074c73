//! Capability traits of the numeric element types: the additive and the
//! multiplicative identity, and the families of integer types.

use vstd::prelude::*;

verus! {

/// A type with an additive identity.
pub trait Zero: Sized {
    /// The additive identity as a mathematical value.
    spec fn zero_value() -> Self;

    /// The additive identity.
    fn zero() -> (z: Self)
        ensures
            z == Self::zero_value(),
    ;

    /// Whether `self` is the additive identity.
    fn is_zero(&self) -> (b: bool)
        ensures
            b == (*self == Self::zero_value()),
    ;

    /// Overwrites `self` with the additive identity.
    fn set_zero(&mut self)
        ensures
            *final(self) == Self::zero_value(),
    {
        *self = Self::zero();
    }
}

/// A type with a multiplicative identity.
pub trait One: Sized {
    /// The multiplicative identity as a mathematical value.
    spec fn one_value() -> Self;

    /// The multiplicative identity.
    fn one() -> (o: Self)
        ensures
            o == Self::one_value(),
    ;

    /// Whether `self` is the multiplicative identity.
    fn is_one(&self) -> (b: bool)
        ensures
            b == (*self == Self::one_value()),
    ;

    /// Overwrites `self` with the multiplicative identity.
    fn set_one(&mut self)
        ensures
            *final(self) == Self::one_value(),
    {
        *self = Self::one();
    }
}

/// A numeric element type: copyable, with a sum, a product and both
/// identities.
pub trait Number: Sized + core::ops::Add<Output = Self> + core::ops::Mul<Output = Self> + Zero + One + Copy {
}

/// The integer types.
pub trait Integer: Number {
}

/// The signed integer types.
pub trait Signed: Integer {
}

/// The unsigned integer types.
pub trait Unsigned: Integer {
}

impl Zero for isize {
    open spec fn zero_value() -> isize {
        0
    }

    fn zero() -> (z: isize) {
        0
    }

    fn is_zero(&self) -> (b: bool) {
        *self == 0
    }
}

impl One for isize {
    open spec fn one_value() -> isize {
        1
    }

    fn one() -> (o: isize) {
        1
    }

    fn is_one(&self) -> (b: bool) {
        *self == 1
    }
}

impl Number for isize {
}

impl Integer for isize {
}

impl Signed for isize {
}

impl Zero for i8 {
    open spec fn zero_value() -> i8 {
        0
    }

    fn zero() -> (z: i8) {
        0
    }

    fn is_zero(&self) -> (b: bool) {
        *self == 0
    }
}

impl One for i8 {
    open spec fn one_value() -> i8 {
        1
    }

    fn one() -> (o: i8) {
        1
    }

    fn is_one(&self) -> (b: bool) {
        *self == 1
    }
}

impl Number for i8 {
}

impl Integer for i8 {
}

impl Signed for i8 {
}

impl Zero for i16 {
    open spec fn zero_value() -> i16 {
        0
    }

    fn zero() -> (z: i16) {
        0
    }

    fn is_zero(&self) -> (b: bool) {
        *self == 0
    }
}

impl One for i16 {
    open spec fn one_value() -> i16 {
        1
    }

    fn one() -> (o: i16) {
        1
    }

    fn is_one(&self) -> (b: bool) {
        *self == 1
    }
}

impl Number for i16 {
}

impl Integer for i16 {
}

impl Signed for i16 {
}

impl Zero for i32 {
    open spec fn zero_value() -> i32 {
        0
    }

    fn zero() -> (z: i32) {
        0
    }

    fn is_zero(&self) -> (b: bool) {
        *self == 0
    }
}

impl One for i32 {
    open spec fn one_value() -> i32 {
        1
    }

    fn one() -> (o: i32) {
        1
    }

    fn is_one(&self) -> (b: bool) {
        *self == 1
    }
}

impl Number for i32 {
}

impl Integer for i32 {
}

impl Signed for i32 {
}

impl Zero for i64 {
    open spec fn zero_value() -> i64 {
        0
    }

    fn zero() -> (z: i64) {
        0
    }

    fn is_zero(&self) -> (b: bool) {
        *self == 0
    }
}

impl One for i64 {
    open spec fn one_value() -> i64 {
        1
    }

    fn one() -> (o: i64) {
        1
    }

    fn is_one(&self) -> (b: bool) {
        *self == 1
    }
}

impl Number for i64 {
}

impl Integer for i64 {
}

impl Signed for i64 {
}

impl Zero for i128 {
    open spec fn zero_value() -> i128 {
        0
    }

    fn zero() -> (z: i128) {
        0
    }

    fn is_zero(&self) -> (b: bool) {
        *self == 0
    }
}

impl One for i128 {
    open spec fn one_value() -> i128 {
        1
    }

    fn one() -> (o: i128) {
        1
    }

    fn is_one(&self) -> (b: bool) {
        *self == 1
    }
}

impl Number for i128 {
}

impl Integer for i128 {
}

impl Signed for i128 {
}

impl Zero for usize {
    open spec fn zero_value() -> usize {
        0
    }

    fn zero() -> (z: usize) {
        0
    }

    fn is_zero(&self) -> (b: bool) {
        *self == 0
    }
}

impl One for usize {
    open spec fn one_value() -> usize {
        1
    }

    fn one() -> (o: usize) {
        1
    }

    fn is_one(&self) -> (b: bool) {
        *self == 1
    }
}

impl Number for usize {
}

impl Integer for usize {
}

impl Unsigned for usize {
}

impl Zero for u8 {
    open spec fn zero_value() -> u8 {
        0
    }

    fn zero() -> (z: u8) {
        0
    }

    fn is_zero(&self) -> (b: bool) {
        *self == 0
    }
}

impl One for u8 {
    open spec fn one_value() -> u8 {
        1
    }

    fn one() -> (o: u8) {
        1
    }

    fn is_one(&self) -> (b: bool) {
        *self == 1
    }
}

impl Number for u8 {
}

impl Integer for u8 {
}

impl Unsigned for u8 {
}

impl Zero for u16 {
    open spec fn zero_value() -> u16 {
        0
    }

    fn zero() -> (z: u16) {
        0
    }

    fn is_zero(&self) -> (b: bool) {
        *self == 0
    }
}

impl One for u16 {
    open spec fn one_value() -> u16 {
        1
    }

    fn one() -> (o: u16) {
        1
    }

    fn is_one(&self) -> (b: bool) {
        *self == 1
    }
}

impl Number for u16 {
}

impl Integer for u16 {
}

impl Unsigned for u16 {
}

impl Zero for u32 {
    open spec fn zero_value() -> u32 {
        0
    }

    fn zero() -> (z: u32) {
        0
    }

    fn is_zero(&self) -> (b: bool) {
        *self == 0
    }
}

impl One for u32 {
    open spec fn one_value() -> u32 {
        1
    }

    fn one() -> (o: u32) {
        1
    }

    fn is_one(&self) -> (b: bool) {
        *self == 1
    }
}

impl Number for u32 {
}

impl Integer for u32 {
}

impl Unsigned for u32 {
}

impl Zero for u64 {
    open spec fn zero_value() -> u64 {
        0
    }

    fn zero() -> (z: u64) {
        0
    }

    fn is_zero(&self) -> (b: bool) {
        *self == 0
    }
}

impl One for u64 {
    open spec fn one_value() -> u64 {
        1
    }

    fn one() -> (o: u64) {
        1
    }

    fn is_one(&self) -> (b: bool) {
        *self == 1
    }
}

impl Number for u64 {
}

impl Integer for u64 {
}

impl Unsigned for u64 {
}

impl Zero for u128 {
    open spec fn zero_value() -> u128 {
        0
    }

    fn zero() -> (z: u128) {
        0
    }

    fn is_zero(&self) -> (b: bool) {
        *self == 0
    }
}

impl One for u128 {
    open spec fn one_value() -> u128 {
        1
    }

    fn one() -> (o: u128) {
        1
    }

    fn is_one(&self) -> (b: bool) {
        *self == 1
    }
}

impl Number for u128 {
}

impl Integer for u128 {
}

impl Unsigned for u128 {
}

} // verus!
