//! Single-precision values carried by their IEEE 754 bit pattern.
//!
//! Neither the server nor the client reconciliation computes with positions
//! or rotations: they are stored, compared and echoed. Keeping the bit pattern
//! makes an echo exact and leaves all arithmetic to the renderer.

use vstd::prelude::*;

verus! {

/// Bits of the sign in an IEEE 754 single-precision pattern.
pub const SIGN_BIT: u32 = 0x8000_0000;

/// Bit pattern of positive infinity; anything above it (ignoring the sign) is NaN.
pub const INFINITY_BITS: u32 = 0x7F80_0000;

/// A single-precision number, kept as its bit pattern.
#[derive(Clone, Copy, Debug, PartialEq, Eq, Hash, Structural)]
pub struct Scalar {
    pub bits: u32,
}

/// The pattern without its sign bit.
pub open spec fn magnitude(bits: u32) -> u32 {
    bits % SIGN_BIT
}

pub open spec fn is_nan_bits(bits: u32) -> bool {
    magnitude(bits) > INFINITY_BITS
}

/// IEEE 754 equality: NaN equals nothing, and the two zeros are equal.
pub open spec fn same_value(a: Scalar, b: Scalar) -> bool {
    &&& !is_nan_bits(a.bits)
    &&& !is_nan_bits(b.bits)
    &&& (a.bits == b.bits || (magnitude(a.bits) == 0 && magnitude(b.bits) == 0))
}

impl Scalar {
    pub fn from_bits(bits: u32) -> (r: Scalar)
        ensures
            r.bits == bits,
    {
        Scalar { bits }
    }

    pub fn to_bits(&self) -> (r: u32)
        ensures
            r == self.bits,
    {
        self.bits
    }

    /// Positive zero.
    pub fn zero() -> (r: Scalar)
        ensures
            r.bits == 0,
    {
        Scalar { bits: 0 }
    }

    /// Whether the two numbers compare equal as floating-point values.
    pub fn same_value(&self, other: &Scalar) -> (r: bool)
        ensures
            r == same_value(*self, *other),
    {
        let a = self.bits % SIGN_BIT;
        let b = other.bits % SIGN_BIT;
        if a > INFINITY_BITS || b > INFINITY_BITS {
            false
        } else {
            self.bits == other.bits || (a == 0 && b == 0)
        }
    }
}

/// A point in the game world.
#[derive(Clone, Copy, Debug, PartialEq, Eq, Hash, Structural)]
pub struct Position {
    pub x: Scalar,
    pub y: Scalar,
    pub z: Scalar,
}

/// Orientation in degrees.
#[derive(Clone, Copy, Debug, PartialEq, Eq, Hash, Structural)]
pub struct Rotation {
    pub pitch: Scalar,
    pub yaw: Scalar,
    pub roll: Scalar,
}

pub open spec fn same_position(a: Position, b: Position) -> bool {
    same_value(a.x, b.x) && same_value(a.y, b.y) && same_value(a.z, b.z)
}

pub open spec fn same_rotation(a: Rotation, b: Rotation) -> bool {
    same_value(a.pitch, b.pitch) && same_value(a.yaw, b.yaw) && same_value(a.roll, b.roll)
}

impl Position {
    pub fn new(x: Scalar, y: Scalar, z: Scalar) -> (r: Position)
        ensures
            r == (Position { x, y, z }),
    {
        Position { x, y, z }
    }

    /// Whether every coordinate compares equal as a floating-point value.
    pub fn same_as(&self, other: &Position) -> (r: bool)
        ensures
            r == same_position(*self, *other),
    {
        self.x.same_value(&other.x) && self.y.same_value(&other.y) && self.z.same_value(&other.z)
    }
}

impl Rotation {
    pub fn new(pitch: Scalar, yaw: Scalar, roll: Scalar) -> (r: Rotation)
        ensures
            r == (Rotation { pitch, yaw, roll }),
    {
        Rotation { pitch, yaw, roll }
    }

    /// Whether every angle compares equal as a floating-point value.
    pub fn same_as(&self, other: &Rotation) -> (r: bool)
        ensures
            r == same_rotation(*self, *other),
    {
        self.pitch.same_value(&other.pitch) && self.yaw.same_value(&other.yaw)
            && self.roll.same_value(&other.roll)
    }
}

/// The origin, all coordinates positive zero.
pub open spec fn origin() -> Position {
    Position { x: Scalar { bits: 0 }, y: Scalar { bits: 0 }, z: Scalar { bits: 0 } }
}

/// No rotation, all angles positive zero.
pub open spec fn no_rotation() -> Rotation {
    Rotation { pitch: Scalar { bits: 0 }, yaw: Scalar { bits: 0 }, roll: Scalar { bits: 0 } }
}

impl Default for Position {
    /// The origin, all coordinates positive zero.
    fn default() -> (r: Position)
        ensures
            r == origin(),
    {
        Position { x: Scalar::zero(), y: Scalar::zero(), z: Scalar::zero() }
    }
}

impl Default for Rotation {
    /// No rotation, all angles positive zero.
    fn default() -> (r: Rotation)
        ensures
            r == no_rotation(),
    {
        Rotation { pitch: Scalar::zero(), yaw: Scalar::zero(), roll: Scalar::zero() }
    }
}

} // verus!
