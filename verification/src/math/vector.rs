//! Two-component integer vectors.

use vstd::prelude::*;
use crate::math::numeric::{Zero, One};

verus! {

/// An ordered pair of pixel coordinates or of per-axis factors.
#[derive(Debug, Clone, Copy, PartialEq, Eq, Structural, PartialOrd, Ord, Hash)]
pub struct Vec2 {
    pub x: i32,
    pub y: i32,
}

/// Whether the mathematical integer `v` is representable as a coordinate.
pub open spec fn fits_i32(v: int) -> bool {
    i32::MIN <= v <= i32::MAX
}

/// `num_traits::ToPrimitive::to_i64` on an `i32`: every `i32` is an `i64`,
/// so the conversion always gives the same number.
#[verifier::external_body]
fn to_i64(v: i32) -> (wide: Option<i64>)
    ensures
        wide == Some(v as i64),
{
    num_traits::ToPrimitive::to_i64(&v)
}

/// `num_traits::FromPrimitive::from_i64` for `i32`: the same number where
/// an `i32` can hold it, and nothing otherwise.
#[verifier::external_body]
fn from_i64(n: i64) -> (narrow: Option<i32>)
    ensures
        narrow == (if fits_i32(n as int) {
            Some(n as i32)
        } else {
            None::<i32>
        }),
{
    <i32 as num_traits::FromPrimitive>::from_i64(n)
}

/// The product of a coordinate and a factor, where it is representable as
/// a coordinate.
pub fn scaled(value: i32, factor: i32) -> (product: Option<i32>)
    ensures
        product == (if fits_i32(value * factor) {
            Some((value * factor) as i32)
        } else {
            None::<i32>
        }),
{
    match (to_i64(value), to_i64(factor)) {
        (Some(wide), Some(by)) => {
            assert(i64::MIN <= wide * by <= i64::MAX) by (nonlinear_arith)
                requires
                    i32::MIN <= wide <= i32::MAX,
                    i32::MIN <= by <= i32::MAX,
            ;
            from_i64(wide * by)
        },
        _ => None,
    }
}

impl Vec2 {
    /// The vector `(x, y)`.
    pub fn new(x: i32, y: i32) -> (v: Vec2)
        ensures
            v == (Vec2 { x, y }),
    {
        Vec2 { x, y }
    }

    /// The first component.
    pub fn x(&self) -> (r: &i32)
        ensures
            *r == self.x,
    {
        &self.x
    }

    /// A handle on the first component; the second is left as it is.
    pub fn x_mut(&mut self) -> (r: &mut i32)
        ensures
            *r == old(self).x,
            *final(self) == (Vec2 { x: *final(r), y: old(self).y }),
    {
        &mut self.x
    }

    /// Replaces the first component.
    pub fn set_x(&mut self, x: i32)
        ensures
            *final(self) == (Vec2 { x, y: old(self).y }),
    {
        self.x = x;
    }

    /// The second component.
    pub fn y(&self) -> (r: &i32)
        ensures
            *r == self.y,
    {
        &self.y
    }

    /// A handle on the second component; the first is left as it is.
    pub fn y_mut(&mut self) -> (r: &mut i32)
        ensures
            *r == old(self).y,
            *final(self) == (Vec2 { x: old(self).x, y: *final(r) }),
    {
        &mut self.y
    }

    /// Replaces the second component.
    pub fn set_y(&mut self, y: i32)
        ensures
            *final(self) == (Vec2 { x: old(self).x, y }),
    {
        self.y = y;
    }

    /// Shifts the vector by `offset`.
    pub fn translate(&mut self, offset: Vec2)
        requires
            fits_i32(old(self).x + offset.x),
            fits_i32(old(self).y + offset.y),
        ensures
            final(self).x == old(self).x + offset.x,
            final(self).y == old(self).y + offset.y,
    {
        self.x = self.x + offset.x;
        self.y = self.y + offset.y;
    }

    /// Multiplies each component by the factor of its axis.
    pub fn scale(&mut self, factor: Vec2)
        requires
            fits_i32(old(self).x * factor.x),
            fits_i32(old(self).y * factor.y),
        ensures
            final(self).x == old(self).x * factor.x,
            final(self).y == old(self).y * factor.y,
    {
        match scaled(self.x, factor.x) {
            Some(x) => {
                self.x = x;
            },
            None => {},
        }
        match scaled(self.y, factor.y) {
            Some(y) => {
                self.y = y;
            },
            None => {},
        }
    }

    /// Both components, borrowed.
    pub fn as_tuple(&self) -> (r: (&i32, &i32))
        ensures
            *r.0 == self.x,
            *r.1 == self.y,
    {
        (&self.x, &self.y)
    }

    /// Both components, by value.
    pub fn to_tuple(self) -> (r: (i32, i32))
        ensures
            r == (self.x, self.y),
    {
        (self.x, self.y)
    }
}

impl Zero for Vec2 {
    open spec fn zero_value() -> Vec2 {
        Vec2 { x: 0, y: 0 }
    }

    fn zero() -> (z: Vec2) {
        Vec2 { x: 0, y: 0 }
    }

    fn is_zero(&self) -> (b: bool) {
        self.x == 0 && self.y == 0
    }
}

impl One for Vec2 {
    open spec fn one_value() -> Vec2 {
        Vec2 { x: 1, y: 1 }
    }

    fn one() -> (o: Vec2) {
        Vec2 { x: 1, y: 1 }
    }

    fn is_one(&self) -> (b: bool) {
        self.x == 1 && self.y == 1
    }
}

impl Default for Vec2 {
    fn default() -> (v: Vec2)
        ensures
            v == (Vec2 { x: 0, y: 0 }),
    {
        Vec2 { x: 0, y: 0 }
    }
}

impl core::ops::Add for Vec2 {
    type Output = Vec2;

    fn add(self, rhs: Vec2) -> (sum: Vec2) {
        Vec2 { x: self.x + rhs.x, y: self.y + rhs.y }
    }
}

impl vstd::std_specs::ops::AddSpecImpl for Vec2 {
    open spec fn obeys_add_spec() -> bool {
        true
    }

    open spec fn add_req(self, rhs: Vec2) -> bool {
        fits_i32(self.x + rhs.x) && fits_i32(self.y + rhs.y)
    }

    open spec fn add_spec(self, rhs: Vec2) -> Vec2 {
        Vec2 { x: (self.x + rhs.x) as i32, y: (self.y + rhs.y) as i32 }
    }
}

impl core::ops::Sub for Vec2 {
    type Output = Vec2;

    fn sub(self, rhs: Vec2) -> (difference: Vec2) {
        Vec2 { x: self.x - rhs.x, y: self.y - rhs.y }
    }
}

impl vstd::std_specs::ops::SubSpecImpl for Vec2 {
    open spec fn obeys_sub_spec() -> bool {
        true
    }

    open spec fn sub_req(self, rhs: Vec2) -> bool {
        fits_i32(self.x - rhs.x) && fits_i32(self.y - rhs.y)
    }

    open spec fn sub_spec(self, rhs: Vec2) -> Vec2 {
        Vec2 { x: (self.x - rhs.x) as i32, y: (self.y - rhs.y) as i32 }
    }
}

impl core::ops::Mul for Vec2 {
    type Output = Vec2;

    fn mul(self, rhs: Vec2) -> (product: Vec2) {
        Vec2 { x: self.x * rhs.x, y: self.y * rhs.y }
    }
}

impl vstd::std_specs::ops::MulSpecImpl for Vec2 {
    open spec fn obeys_mul_spec() -> bool {
        true
    }

    open spec fn mul_req(self, rhs: Vec2) -> bool {
        fits_i32(self.x * rhs.x) && fits_i32(self.y * rhs.y)
    }

    open spec fn mul_spec(self, rhs: Vec2) -> Vec2 {
        Vec2 { x: (self.x * rhs.x) as i32, y: (self.y * rhs.y) as i32 }
    }
}

} // verus!
