//! Single-precision numbers held by their IEEE 754 bit patterns.
//!
//! Ordering, equality, absolute value and minimum are decided on the bits
//! and proved; sums and differences are computed by `rustc_apfloat`.

use rustc_apfloat::Float;
use vstd::prelude::*;

verus! {

/// The weight of the sign bit; the bits below it are the magnitude.
pub const SIGN_BIT: u32 = 0x8000_0000;

/// The magnitude of an infinity; larger magnitudes are not numbers.
pub const INFINITY_BITS: u32 = 0x7f80_0000;

/// The bit pattern of the number one.
pub const ONE_BITS: u32 = 0x3f80_0000;

/// The bit pattern of the sum of two numbers, rounded to nearest, ties to even.
pub uninterp spec fn sum_bits(a: u32, b: u32) -> u32;

/// The bit pattern of the difference of two numbers, rounded to nearest, ties to even.
pub uninterp spec fn difference_bits(a: u32, b: u32) -> u32;

/// A single-precision number. Two values are `==` when their bits are the
/// same; `num_eq` is equality of the numbers they encode.
#[derive(Clone, Copy, Debug, PartialEq, Eq, Structural)]
pub struct Scalar {
    pub bits: u32,
}

/// `rustc_apfloat`'s `Single::from_bits`, `+` and `to_bits`: the result is the
/// IEEE 754 sum of the two encoded numbers, which depends on the two bit
/// patterns alone and is named `sum_bits`.
#[verifier::external_body]
fn ieee_sum(a: u32, b: u32) -> (r: u32)
    ensures
        r == sum_bits(a, b),
{
    let x = rustc_apfloat::ieee::Single::from_bits(u128::from(a));
    let y = rustc_apfloat::ieee::Single::from_bits(u128::from(b));
    (x + y).value.to_bits() as u32
}

/// `rustc_apfloat`'s `Single::from_bits`, `-` and `to_bits`: the result is the
/// IEEE 754 difference of the two encoded numbers, which depends on the two
/// bit patterns alone and is named `difference_bits`.
#[verifier::external_body]
fn ieee_difference(a: u32, b: u32) -> (r: u32)
    ensures
        r == difference_bits(a, b),
{
    let x = rustc_apfloat::ieee::Single::from_bits(u128::from(a));
    let y = rustc_apfloat::ieee::Single::from_bits(u128::from(b));
    (x - y).value.to_bits() as u32
}

impl Scalar {
    /// The bits below the sign bit.
    pub open spec fn magnitude(self) -> int {
        (self.bits % SIGN_BIT) as int
    }

    /// Whether the sign bit is set.
    pub open spec fn negative(self) -> bool {
        self.bits >= SIGN_BIT
    }

    /// Whether the bits encode no number.
    pub open spec fn nan(self) -> bool {
        self.magnitude() > INFINITY_BITS
    }

    /// An integer that orders the encoded numbers: for two values that are
    /// numbers, the first is less than or equal to the second exactly when
    /// its rank is. Both zeros have rank zero.
    pub open spec fn rank(self) -> int {
        if self.negative() {
            -self.magnitude()
        } else {
            self.magnitude()
        }
    }

    /// Numeric `<=`: false as soon as one side is not a number.
    pub open spec fn num_le(self, other: Scalar) -> bool {
        !self.nan() && !other.nan() && self.rank() <= other.rank()
    }

    /// Numeric `<`: false as soon as one side is not a number.
    pub open spec fn num_lt(self, other: Scalar) -> bool {
        !self.nan() && !other.nan() && self.rank() < other.rank()
    }

    /// Numeric `==`: false as soon as one side is not a number; the two
    /// zeros are equal.
    pub open spec fn num_eq(self, other: Scalar) -> bool {
        !self.nan() && !other.nan() && self.rank() == other.rank()
    }

    /// The value with the sign bit cleared.
    pub open spec fn spec_abs(self) -> Scalar {
        Scalar { bits: (self.bits % SIGN_BIT) as u32 }
    }

    /// The lesser of two numbers. A side that is not a number loses to the
    /// other; of two equal numbers the first is taken.
    pub open spec fn spec_min(self, other: Scalar) -> Scalar {
        if self.nan() {
            other
        } else if other.nan() {
            self
        } else if other.rank() < self.rank() {
            other
        } else {
            self
        }
    }

    /// The sum of two numbers.
    pub open spec fn spec_plus(self, other: Scalar) -> Scalar {
        Scalar { bits: sum_bits(self.bits, other.bits) }
    }

    /// The difference of two numbers.
    pub open spec fn spec_minus(self, other: Scalar) -> Scalar {
        Scalar { bits: difference_bits(self.bits, other.bits) }
    }

    pub fn from_bits(bits: u32) -> (r: Scalar)
        ensures
            r.bits == bits,
    {
        Scalar { bits }
    }

    pub fn to_bits(self) -> (r: u32)
        ensures
            r == self.bits,
    {
        self.bits
    }

    /// Positive zero.
    pub fn zero() -> (r: Scalar)
        ensures
            r.bits == 0,
    {
        Scalar { bits: 0 }
    }

    /// The number one.
    pub fn one() -> (r: Scalar)
        ensures
            r.bits == ONE_BITS,
    {
        Scalar { bits: ONE_BITS }
    }

    pub fn is_nan(self) -> (r: bool)
        ensures
            r == self.nan(),
    {
        self.bits % SIGN_BIT > INFINITY_BITS
    }

    pub fn is_sign_negative(self) -> (r: bool)
        ensures
            r == self.negative(),
    {
        self.bits >= SIGN_BIT
    }

    /// Whether the value is one of the two zeros.
    pub fn is_zero(self) -> (r: bool)
        ensures
            r == (self.magnitude() == 0),
            r == self.num_eq(Scalar { bits: 0 }),
    {
        self.bits % SIGN_BIT == 0
    }

    fn order_key(self) -> (r: i64)
        ensures
            r == self.rank(),
    {
        let magnitude: u32 = self.bits % SIGN_BIT;
        if self.bits >= SIGN_BIT {
            -(magnitude as i64)
        } else {
            magnitude as i64
        }
    }

    pub fn le(self, other: Scalar) -> (r: bool)
        ensures
            r == self.num_le(other),
    {
        !self.is_nan() && !other.is_nan() && self.order_key() <= other.order_key()
    }

    pub fn lt(self, other: Scalar) -> (r: bool)
        ensures
            r == self.num_lt(other),
    {
        !self.is_nan() && !other.is_nan() && self.order_key() < other.order_key()
    }

    pub fn gt(self, other: Scalar) -> (r: bool)
        ensures
            r == other.num_lt(self),
    {
        other.lt(self)
    }

    pub fn ge(self, other: Scalar) -> (r: bool)
        ensures
            r == other.num_le(self),
    {
        other.le(self)
    }

    pub fn eq_num(self, other: Scalar) -> (r: bool)
        ensures
            r == self.num_eq(other),
    {
        !self.is_nan() && !other.is_nan() && self.order_key() == other.order_key()
    }

    pub fn abs(self) -> (r: Scalar)
        ensures
            r == self.spec_abs(),
            !r.negative(),
            r.magnitude() == self.magnitude(),
    {
        Scalar { bits: self.bits % SIGN_BIT }
    }

    pub fn min(self, other: Scalar) -> (r: Scalar)
        ensures
            r == self.spec_min(other),
    {
        if self.is_nan() {
            other
        } else if other.is_nan() {
            self
        } else if other.order_key() < self.order_key() {
            other
        } else {
            self
        }
    }

    pub fn plus(self, other: Scalar) -> (r: Scalar)
        ensures
            r == self.spec_plus(other),
    {
        Scalar { bits: ieee_sum(self.bits, other.bits) }
    }

    pub fn minus(self, other: Scalar) -> (r: Scalar)
        ensures
            r == self.spec_minus(other),
    {
        Scalar { bits: ieee_difference(self.bits, other.bits) }
    }
}

/// A point or an extent in the plane.
#[derive(Clone, Copy, Debug, PartialEq, Eq, Structural)]
pub struct Vec2 {
    pub x: Scalar,
    pub y: Scalar,
}

impl Vec2 {
    pub open spec fn spec_plus(self, other: Vec2) -> Vec2 {
        Vec2 { x: self.x.spec_plus(other.x), y: self.y.spec_plus(other.y) }
    }

    pub open spec fn spec_minus(self, other: Vec2) -> Vec2 {
        Vec2 { x: self.x.spec_minus(other.x), y: self.y.spec_minus(other.y) }
    }

    pub fn new(x: Scalar, y: Scalar) -> (r: Vec2)
        ensures
            r == (Vec2 { x, y }),
    {
        Vec2 { x, y }
    }

    /// The vector whose two components are both `value`.
    pub fn splat(value: Scalar) -> (r: Vec2)
        ensures
            r == (Vec2 { x: value, y: value }),
    {
        Vec2 { x: value, y: value }
    }

    /// The component-wise sum.
    pub fn plus(self, other: Vec2) -> (r: Vec2)
        ensures
            r == self.spec_plus(other),
    {
        Vec2 { x: self.x.plus(other.x), y: self.y.plus(other.y) }
    }

    /// The component-wise difference.
    pub fn minus(self, other: Vec2) -> (r: Vec2)
        ensures
            r == self.spec_minus(other),
    {
        Vec2 { x: self.x.minus(other.x), y: self.y.minus(other.y) }
    }
}

} // verus!
