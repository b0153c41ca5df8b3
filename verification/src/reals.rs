//! Scalar and small vector values carried across the boundary.
//!
//! The marshalling layer never interprets geometric scalars: it moves them
//! bit-for-bit. A `Real` therefore holds the 64-bit encoding of the engine's
//! scalar type, which keeps the layer exact about what it copies while the
//! numeric meaning stays with the caller and the engine.

use vstd::prelude::*;

verus! {

/// The engine's scalar type, carried as its 64-bit encoding.
#[derive(Clone, Copy, PartialEq, Eq, Structural, Debug)]
pub struct Real {
    pub bits: u64,
}

impl Real {
    pub fn from_bits(bits: u64) -> (r: Real)
        ensures
            r.bits == bits,
    {
        Real { bits }
    }
}

impl Default for Real {
    fn default() -> (r: Self)
        ensures
            r.bits == 0,
    {
        Real { bits: 0 }
    }
}

#[derive(Clone, Copy, PartialEq, Eq, Structural, Debug)]
pub struct Vec2 {
    pub x: Real,
    pub y: Real,
}

impl Vec2 {
    pub open spec fn spec_zero() -> Vec2 {
        Vec2 { x: Real { bits: 0 }, y: Real { bits: 0 } }
    }
}

impl Default for Vec2 {
    fn default() -> (r: Self)
        ensures
            r == (Vec2 { x: Real { bits: 0 }, y: Real { bits: 0 } }),
    {
        Vec2 { x: Real { bits: 0 }, y: Real { bits: 0 } }
    }
}

#[derive(Clone, Copy, PartialEq, Eq, Structural, Debug)]
pub struct Vec3 {
    pub x: Real,
    pub y: Real,
    pub z: Real,
}

impl Vec3 {
    pub open spec fn spec_zero() -> Vec3 {
        Vec3 { x: Real { bits: 0 }, y: Real { bits: 0 }, z: Real { bits: 0 } }
    }
}

impl Default for Vec3 {
    fn default() -> (r: Self)
        ensures
            r == (Vec3 { x: Real { bits: 0 }, y: Real { bits: 0 }, z: Real { bits: 0 } }),
    {
        Vec3 { x: Real { bits: 0 }, y: Real { bits: 0 }, z: Real { bits: 0 } }
    }
}

#[derive(Clone, Copy, PartialEq, Eq, Structural, Debug)]
pub struct Vec4 {
    pub x: Real,
    pub y: Real,
    pub z: Real,
    pub w: Real,
}

impl Vec4 {
    pub open spec fn spec_zero() -> Vec4 {
        Vec4 { x: Real { bits: 0 }, y: Real { bits: 0 }, z: Real { bits: 0 }, w: Real { bits: 0 } }
    }
}

impl Default for Vec4 {
    fn default() -> (r: Self)
        ensures
            r == (Vec4 {
                x: Real { bits: 0 },
                y: Real { bits: 0 },
                z: Real { bits: 0 },
                w: Real { bits: 0 },
            }),
    {
        Vec4 { x: Real { bits: 0 }, y: Real { bits: 0 }, z: Real { bits: 0 }, w: Real { bits: 0 } }
    }
}

#[derive(Clone, Copy, PartialEq, Eq, Structural, Debug)]
pub struct Quat {
    pub x: Real,
    pub y: Real,
    pub z: Real,
    pub w: Real,
}

impl Quat {
    pub open spec fn spec_zero() -> Quat {
        Quat { x: Real { bits: 0 }, y: Real { bits: 0 }, z: Real { bits: 0 }, w: Real { bits: 0 } }
    }
}

impl Default for Quat {
    fn default() -> (r: Self)
        ensures
            r == (Quat {
                x: Real { bits: 0 },
                y: Real { bits: 0 },
                z: Real { bits: 0 },
                w: Real { bits: 0 },
            }),
    {
        Quat { x: Real { bits: 0 }, y: Real { bits: 0 }, z: Real { bits: 0 }, w: Real { bits: 0 } }
    }
}

/// Translation, rotation and scale, moved through the boundary verbatim.
#[derive(Clone, Copy, PartialEq, Eq, Structural, Debug)]
pub struct Transform {
    pub translation: Vec3,
    pub rotation: Quat,
    pub scale: Vec3,
}

impl Transform {
    /// The all-zero-bits transform used when a caller leaves the field unset.
    pub open spec fn spec_zero() -> Transform {
        Transform {
            translation: Vec3 { x: Real { bits: 0 }, y: Real { bits: 0 }, z: Real { bits: 0 } },
            rotation: Quat {
                x: Real { bits: 0 },
                y: Real { bits: 0 },
                z: Real { bits: 0 },
                w: Real { bits: 0 },
            },
            scale: Vec3 { x: Real { bits: 0 }, y: Real { bits: 0 }, z: Real { bits: 0 } },
        }
    }
}

impl Default for Transform {
    fn default() -> (r: Self)
        ensures
            r == Transform::spec_zero(),
    {
        Transform {
            translation: Vec3::default(),
            rotation: Quat::default(),
            scale: Vec3::default(),
        }
    }
}

/// A per-element transform override handed to animation evaluation.
#[derive(Clone, Copy, PartialEq, Eq, Structural, Debug)]
pub struct TransformOverride {
    pub node_id: u32,
    pub transform: Transform,
}

impl Default for TransformOverride {
    fn default() -> (r: Self)
        ensures
            r.node_id == 0,
            r.transform == Transform::spec_zero(),
    {
        TransformOverride { node_id: 0, transform: Transform::default() }
    }
}

} // verus!
