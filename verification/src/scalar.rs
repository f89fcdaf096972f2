//! Real numbers as the core carries them: IEEE 754 binary64 values held by
//! their bit pattern. The core never does arithmetic on them; it stores
//! them, hands them back, and tests their sign.

use vstd::prelude::*;

verus! {

/// Bit pattern of positive zero.
pub const ZERO_BITS: u64 = 0;

/// Bit pattern of the value one.
pub const ONE_BITS: u64 = 0x3FF0_0000_0000_0000;

/// Bit pattern of negative zero, the smallest pattern with the sign bit set.
pub const SIGN_BITS: u64 = 0x8000_0000_0000_0000;

/// Bit pattern of negative infinity, the largest pattern with the sign bit
/// set that is not a NaN.
pub const NEG_INFINITY_BITS: u64 = 0xFFF0_0000_0000_0000;

/// An IEEE 754 binary64 value, held by its bit pattern.
#[derive(Clone, Copy, Debug)]
pub struct Scalar {
    pub bits: u64,
}

impl Scalar {
    /// The number is zero (of either sign), negative, or negative infinity:
    /// exactly the patterns for which the IEEE comparison "less than or
    /// equal to zero" holds. No NaN is among them.
    pub open spec fn is_non_positive(self) -> bool {
        self.bits == ZERO_BITS || (SIGN_BITS <= self.bits <= NEG_INFINITY_BITS)
    }

    pub open spec fn spec_zero() -> Scalar {
        Scalar { bits: ZERO_BITS }
    }

    pub open spec fn spec_one() -> Scalar {
        Scalar { bits: ONE_BITS }
    }

    pub fn from_bits(bits: u64) -> (r: Scalar)
        ensures
            r.bits == bits,
    {
        Scalar { bits }
    }

    pub fn to_bits(self) -> (bits: u64)
        ensures
            bits == self.bits,
    {
        self.bits
    }

    #[verifier::when_used_as_spec(spec_zero)]
    pub fn zero() -> (r: Scalar)
        ensures
            r == Scalar::spec_zero(),
    {
        Scalar { bits: ZERO_BITS }
    }

    #[verifier::when_used_as_spec(spec_one)]
    pub fn one() -> (r: Scalar)
        ensures
            r == Scalar::spec_one(),
    {
        Scalar { bits: ONE_BITS }
    }

    /// Whether the number compares less than or equal to zero.
    pub fn le_zero(self) -> (b: bool)
        ensures
            b == self.is_non_positive(),
    {
        self.bits == ZERO_BITS || (SIGN_BITS <= self.bits && self.bits <= NEG_INFINITY_BITS)
    }

    /// The given number where there is one, `default` otherwise.
    pub fn or_default(parsed: Option<Scalar>, default: Scalar) -> (r: Scalar)
        ensures
            r == (match parsed {
                Some(v) => v,
                None => default,
            }),
    {
        match parsed {
            Some(v) => v,
            None => default,
        }
    }
}

/// A position on the drawing surface. The core stores positions and hands
/// them back; it never reads the coordinates.
#[derive(Clone, Copy, Debug)]
pub struct Point {
    pub x: Scalar,
    pub y: Scalar,
}

impl Point {
    pub fn new(x: Scalar, y: Scalar) -> (p: Point)
        ensures
            p.x == x,
            p.y == y,
    {
        Point { x, y }
    }
}

} // verus!
