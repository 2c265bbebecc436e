//! The small vector types the noise functions operate over.
//!
//! `Vec2` holds fixed-point components (see [`crate::fixed`]), `IVec2` holds
//! lattice (whole-cell) coordinates, and `UVec2` holds raw bit patterns on
//! their way into the random number generator.

use vstd::prelude::*;

use crate::fixed::{fp_mul, fp_mul_spec, FP_FACTOR_MAX};

verus! {

/// A two-component fixed-point vector.
#[derive(Clone, Copy, PartialEq, Eq, Structural, Debug)]
pub struct Vec2 {
    /// The first component, as a fixed-point value.
    pub x: i64,
    /// The second component, as a fixed-point value.
    pub y: i64,
}

/// A two-component vector of lattice coordinates.
#[derive(Clone, Copy, PartialEq, Eq, Structural, Debug)]
pub struct IVec2 {
    /// The first lattice coordinate.
    pub x: i64,
    /// The second lattice coordinate.
    pub y: i64,
}

/// A two-component vector of raw bits.
#[derive(Clone, Copy, PartialEq, Eq, Structural, Debug)]
pub struct UVec2 {
    /// The first component's bits.
    pub x: u32,
    /// The second component's bits.
    pub y: u32,
}

/// A three-component vector of lattice coordinates.
#[derive(Clone, Copy, PartialEq, Eq, Structural, Debug)]
pub struct IVec3 {
    /// The first lattice coordinate.
    pub x: i64,
    /// The second lattice coordinate.
    pub y: i64,
    /// The third lattice coordinate.
    pub z: i64,
}

/// A three-component vector of raw bits.
#[derive(Clone, Copy, PartialEq, Eq, Structural, Debug)]
pub struct UVec3 {
    /// The first component's bits.
    pub x: u32,
    /// The second component's bits.
    pub y: u32,
    /// The third component's bits.
    pub z: u32,
}

/// A four-component vector of lattice coordinates.
#[derive(Clone, Copy, PartialEq, Eq, Structural, Debug)]
pub struct IVec4 {
    /// The first lattice coordinate.
    pub x: i64,
    /// The second lattice coordinate.
    pub y: i64,
    /// The third lattice coordinate.
    pub z: i64,
    /// The fourth lattice coordinate.
    pub w: i64,
}

/// A four-component vector of raw bits.
#[derive(Clone, Copy, PartialEq, Eq, Structural, Debug)]
pub struct UVec4 {
    /// The first component's bits.
    pub x: u32,
    /// The second component's bits.
    pub y: u32,
    /// The third component's bits.
    pub z: u32,
    /// The fourth component's bits.
    pub w: u32,
}

impl Vec2 {
    /// Builds the vector with the given fixed-point components.
    pub fn new(x: i64, y: i64) -> (r: Vec2)
        ensures
            r == (Vec2 { x, y }),
    {
        Vec2 { x, y }
    }

    /// True when both components have magnitude at most `m`.
    pub open spec fn bounded_by(self, m: int) -> bool {
        -m <= self.x <= m && -m <= self.y <= m
    }

    /// Componentwise sum.
    pub fn add(self, other: Vec2) -> (r: Vec2)
        requires
            i64::MIN <= self.x + other.x <= i64::MAX,
            i64::MIN <= self.y + other.y <= i64::MAX,
        ensures
            r == (Vec2 { x: (self.x + other.x) as i64, y: (self.y + other.y) as i64 }),
    {
        Vec2 { x: self.x + other.x, y: self.y + other.y }
    }

    /// Componentwise difference.
    pub fn sub(self, other: Vec2) -> (r: Vec2)
        requires
            i64::MIN <= self.x - other.x <= i64::MAX,
            i64::MIN <= self.y - other.y <= i64::MAX,
        ensures
            r == (Vec2 { x: (self.x - other.x) as i64, y: (self.y - other.y) as i64 }),
    {
        Vec2 { x: self.x - other.x, y: self.y - other.y }
    }

    /// What `scale` returns, componentwise.
    pub open spec fn scale_spec(self, s: int) -> Vec2 {
        Vec2 { x: fp_mul_spec(self.x as int, s) as i64, y: fp_mul_spec(self.y as int, s) as i64 }
    }

    /// Multiplies both components by the fixed-point factor `s`.
    pub fn scale(self, s: i64) -> (r: Vec2)
        requires
            self.bounded_by(FP_FACTOR_MAX as int),
            -FP_FACTOR_MAX <= s <= FP_FACTOR_MAX,
        ensures
            r == self.scale_spec(s as int),
    {
        Vec2 { x: fp_mul(self.x, s), y: fp_mul(self.y, s) }
    }
}

impl IVec2 {
    /// Builds the vector with the given lattice coordinates.
    pub fn new(x: i64, y: i64) -> (r: IVec2)
        ensures
            r == (IVec2 { x, y }),
    {
        IVec2 { x, y }
    }
}

} // verus!
