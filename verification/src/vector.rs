//! Fixed-size groups of scalars: points, directions and colours.

use vstd::prelude::*;
use crate::scalar::Scalar;

verus! {

/// Three scalars: a position, a normal or an RGB colour.
#[derive(Clone, Copy, Debug, PartialEq, Eq, Structural)]
pub struct Vector3 {
    pub x: Scalar,
    pub y: Scalar,
    pub z: Scalar,
}

/// Four scalars: an RGB colour followed by one more value.
#[derive(Clone, Copy, Debug, PartialEq, Eq, Structural)]
pub struct Vector4 {
    pub x: Scalar,
    pub y: Scalar,
    pub z: Scalar,
    pub w: Scalar,
}

impl Vector3 {
    /// The vector whose three components all hold `s`.
    pub open spec fn splat(s: Scalar) -> Vector3 {
        Vector3 { x: s, y: s, z: s }
    }

    /// No component is a NaN.
    pub open spec fn numeric(self) -> bool {
        !self.x.nan() && !self.y.nan() && !self.z.nan()
    }

    pub fn new(x: Scalar, y: Scalar, z: Scalar) -> (v: Vector3)
        ensures
            v == (Vector3 { x, y, z }),
    {
        Vector3 { x, y, z }
    }

    /// Builds a vector from three bit patterns.
    pub fn from_bits(x: u32, y: u32, z: u32) -> (v: Vector3)
        ensures
            v.x.bits == x,
            v.y.bits == y,
            v.z.bits == z,
    {
        Vector3 { x: Scalar { bits: x }, y: Scalar { bits: y }, z: Scalar { bits: z } }
    }

    /// The three bit patterns, in order.
    pub fn to_bits(self) -> (b: [u32; 3])
        ensures
            b[0] == self.x.bits,
            b[1] == self.y.bits,
            b[2] == self.z.bits,
    {
        [self.x.bits, self.y.bits, self.z.bits]
    }
}

impl Vector4 {
    /// A three-component vector with a fourth value appended.
    pub open spec fn extend(v: Vector3, w: Scalar) -> Vector4 {
        Vector4 { x: v.x, y: v.y, z: v.z, w }
    }

    pub fn new(x: Scalar, y: Scalar, z: Scalar, w: Scalar) -> (v: Vector4)
        ensures
            v == (Vector4 { x, y, z, w }),
    {
        Vector4 { x, y, z, w }
    }

    /// Builds a vector from four bit patterns.
    pub fn from_bits(x: u32, y: u32, z: u32, w: u32) -> (v: Vector4)
        ensures
            v.x.bits == x,
            v.y.bits == y,
            v.z.bits == z,
            v.w.bits == w,
    {
        Vector4 {
            x: Scalar { bits: x },
            y: Scalar { bits: y },
            z: Scalar { bits: z },
            w: Scalar { bits: w },
        }
    }

    /// The four bit patterns, in order.
    pub fn to_bits(self) -> (b: [u32; 4])
        ensures
            b[0] == self.x.bits,
            b[1] == self.y.bits,
            b[2] == self.z.bits,
            b[3] == self.w.bits,
    {
        [self.x.bits, self.y.bits, self.z.bits, self.w.bits]
    }
}

} // verus!
