//! Points and directions, carried by their coordinates' encodings.
use vstd::prelude::*;
use crate::scalar::Scalar;

verus! {

/// A point or a direction in space.
#[derive(Clone, Copy, Debug)]
pub struct Vec3 {
    pub x: Scalar,
    pub y: Scalar,
    pub z: Scalar,
}

/// A texture coordinate.
#[derive(Clone, Copy, Debug)]
pub struct Vec2 {
    pub x: Scalar,
    pub y: Scalar,
}

impl Vec3 {
    /// Whether every coordinate is a zero, of either sign: the vector compares
    /// equal to the zero vector, coordinate by coordinate.
    pub open spec fn vanishes(self) -> bool {
        self.x.magnitude() == 0 && self.y.magnitude() == 0 && self.z.magnitude() == 0
    }

    /// The vector with every coordinate negated.
    pub open spec fn opposite(self) -> Vec3 {
        Vec3 { x: self.x.opposite(), y: self.y.opposite(), z: self.z.opposite() }
    }

    pub fn new(x: Scalar, y: Scalar, z: Scalar) -> (v: Vec3)
        ensures
            v == (Vec3 { x, y, z }),
    {
        Vec3 { x, y, z }
    }

    /// Whether the vector compares equal to the zero vector.
    pub fn is_zero(self) -> (r: bool)
        ensures
            r == self.vanishes(),
            r == (self.x.same(Scalar { bits: 0 }) && self.y.same(Scalar { bits: 0 })
                && self.z.same(Scalar { bits: 0 })),
    {
        self.x.is_zero() && self.y.is_zero() && self.z.is_zero()
    }

    /// The opposite vector.
    pub fn neg(self) -> (r: Vec3)
        ensures
            r == self.opposite(),
    {
        Vec3 { x: self.x.neg(), y: self.y.neg(), z: self.z.neg() }
    }
}

impl Vec2 {
    pub fn new(x: Scalar, y: Scalar) -> (v: Vec2)
        ensures
            v == (Vec2 { x, y }),
    {
        Vec2 { x, y }
    }
}

} // verus!
