//! Scalars and small vectors as the rendering library takes them.

use vstd::prelude::*;

verus! {

/// Bit pattern of the single-precision value `0.0`.
pub const ZERO_BITS: u32 = 0;

/// Bit pattern of the single-precision value `1.0`.
pub const ONE_BITS: u32 = 0x3F80_0000;

/// A single-precision number, held by its IEEE 754 bit pattern.
///
/// Nothing here computes with the number: it is stored, copied and handed on
/// unchanged, so two scalars are equal exactly when their bits are.
#[derive(Clone, Copy, Debug, PartialEq, Eq, Structural)]
pub struct Scalar {
    pub bits: u32,
}

impl Scalar {
    /// The scalar `0.0`.
    pub open spec fn zero() -> Scalar {
        Scalar { bits: ZERO_BITS }
    }

    /// The scalar `1.0`.
    pub open spec fn one() -> Scalar {
        Scalar { bits: ONE_BITS }
    }

    /// The scalar with the given bit pattern.
    pub fn from_bits(bits: u32) -> (s: Scalar)
        ensures
            s.bits == bits,
    {
        Scalar { bits }
    }

    /// The bit pattern of this scalar.
    pub fn to_bits(self) -> (bits: u32)
        ensures
            bits == self.bits,
    {
        self.bits
    }
}

/// A pair of scalars: an extent (width, height) or a texture coordinate.
#[derive(Clone, Copy, Debug, PartialEq, Eq, Structural)]
pub struct Vec2 {
    pub x: Scalar,
    pub y: Scalar,
}

impl Vec2 {
    /// The texture coordinate `(0, 0)`: the top-left corner of a texture.
    pub open spec fn zero() -> Vec2 {
        Vec2 { x: Scalar::zero(), y: Scalar::zero() }
    }

    /// The texture coordinate `(1, 1)`: the bottom-right corner of a texture.
    pub open spec fn one() -> Vec2 {
        Vec2 { x: Scalar::one(), y: Scalar::one() }
    }

    /// The pair `(x, y)`.
    pub fn new(x: Scalar, y: Scalar) -> (v: Vec2)
        ensures
            v == (Vec2 { x, y }),
    {
        Vec2 { x, y }
    }

    /// The pair whose components have the given bit patterns.
    pub fn from_bits(x: u32, y: u32) -> (v: Vec2)
        ensures
            v == (Vec2 { x: Scalar { bits: x }, y: Scalar { bits: y } }),
    {
        Vec2 { x: Scalar { bits: x }, y: Scalar { bits: y } }
    }

    /// `(0, 0)`.
    pub fn zeros() -> (v: Vec2)
        ensures
            v == Vec2::zero(),
    {
        Vec2::from_bits(ZERO_BITS, ZERO_BITS)
    }

    /// `(1, 1)`.
    pub fn ones() -> (v: Vec2)
        ensures
            v == Vec2::one(),
    {
        Vec2::from_bits(ONE_BITS, ONE_BITS)
    }
}

/// Four scalars: a colour as red, green, blue and alpha.
#[derive(Clone, Copy, Debug, PartialEq, Eq, Structural)]
pub struct Vec4 {
    pub x: Scalar,
    pub y: Scalar,
    pub z: Scalar,
    pub w: Scalar,
}

impl Vec4 {
    /// Opaque white `(1, 1, 1, 1)`: as a tint it leaves the texture as it is.
    pub open spec fn white() -> Vec4 {
        Vec4 { x: Scalar::one(), y: Scalar::one(), z: Scalar::one(), w: Scalar::one() }
    }

    /// Fully transparent `(0, 0, 0, 0)`: as a border or a background it draws
    /// nothing.
    pub open spec fn transparent() -> Vec4 {
        Vec4 { x: Scalar::zero(), y: Scalar::zero(), z: Scalar::zero(), w: Scalar::zero() }
    }

    /// The quadruple `(x, y, z, w)`.
    pub fn new(x: Scalar, y: Scalar, z: Scalar, w: Scalar) -> (v: Vec4)
        ensures
            v == (Vec4 { x, y, z, w }),
    {
        Vec4 { x, y, z, w }
    }

    /// The quadruple whose components have the given bit patterns.
    pub fn from_bits(x: u32, y: u32, z: u32, w: u32) -> (v: Vec4)
        ensures
            v == (Vec4 {
                x: Scalar { bits: x },
                y: Scalar { bits: y },
                z: Scalar { bits: z },
                w: Scalar { bits: w },
            }),
    {
        Vec4 {
            x: Scalar { bits: x },
            y: Scalar { bits: y },
            z: Scalar { bits: z },
            w: Scalar { bits: w },
        }
    }

    /// `(1, 1, 1, 1)`.
    pub fn opaque_white() -> (v: Vec4)
        ensures
            v == Vec4::white(),
    {
        Vec4::from_bits(ONE_BITS, ONE_BITS, ONE_BITS, ONE_BITS)
    }

    /// `(0, 0, 0, 0)`.
    pub fn fully_transparent() -> (v: Vec4)
        ensures
            v == Vec4::transparent(),
    {
        Vec4::from_bits(ZERO_BITS, ZERO_BITS, ZERO_BITS, ZERO_BITS)
    }
}

} // verus!
