//! Geometric primitives for triangle meshes.
//!
//! Every scalar coordinate is carried as the bit pattern of an IEEE 754
//! binary32 value, stored in a `u32`. The contracts of this crate speak of
//! those bit patterns directly; only the arithmetic that combines them is
//! delegated (see the `scalar` module).

use vstd::prelude::*;

verus! {

/// Bit pattern of the binary32 value one.
pub const ONE_BITS: u32 = 0x3f80_0000;

/// Bit pattern of the binary32 value minus one.
pub const NEG_ONE_BITS: u32 = 0xbf80_0000;

/// Bit pattern of the binary32 value (positive) zero.
pub const ZERO_BITS: u32 = 0;

/// A 3D vector. Each component is the bit pattern of a binary32 value.
#[derive(Debug, Clone, Copy, PartialEq, Eq, Structural)]
pub struct Vector3 {
    pub x: u32,
    pub y: u32,
    pub z: u32,
}

impl Vector3 {
    /// Creates a new 3D vector with the given components.
    pub fn new(x: u32, y: u32, z: u32) -> (r: Self)
        ensures
            r == (Vector3 { x, y, z }),
    {
        Self { x, y, z }
    }

    /// Creates a vector with all components set to zero.
    pub fn zero() -> (r: Self)
        ensures
            r == (Vector3 { x: ZERO_BITS, y: ZERO_BITS, z: ZERO_BITS }),
    {
        Self::new(ZERO_BITS, ZERO_BITS, ZERO_BITS)
    }

    /// Creates a unit vector pointing in the positive X direction.
    pub fn unit_x() -> (r: Self)
        ensures
            r == (Vector3 { x: ONE_BITS, y: ZERO_BITS, z: ZERO_BITS }),
    {
        Self::new(ONE_BITS, ZERO_BITS, ZERO_BITS)
    }

    /// Creates a unit vector pointing in the positive Y direction.
    pub fn unit_y() -> (r: Self)
        ensures
            r == (Vector3 { x: ZERO_BITS, y: ONE_BITS, z: ZERO_BITS }),
    {
        Self::new(ZERO_BITS, ONE_BITS, ZERO_BITS)
    }

    /// Creates a unit vector pointing in the positive Z direction.
    pub fn unit_z() -> (r: Self)
        ensures
            r == (Vector3 { x: ZERO_BITS, y: ZERO_BITS, z: ONE_BITS }),
    {
        Self::new(ZERO_BITS, ZERO_BITS, ONE_BITS)
    }

    /// Converts the vector to an array of [x, y, z] component bit patterns.
    pub fn to_array(&self) -> (r: [u32; 3])
        ensures
            r@ == seq![self.x, self.y, self.z],
    {
        [self.x, self.y, self.z]
    }

    /// Creates a vector from an array of [x, y, z] component bit patterns.
    pub fn from_array(array: [u32; 3]) -> (r: Self)
        ensures
            r == (Vector3 { x: array@[0], y: array@[1], z: array@[2] }),
    {
        Self::new(array[0], array[1], array[2])
    }
}

impl From<[u32; 3]> for Vector3 {
    /// A vector from an array of [x, y, z] component bit patterns.
    fn from(array: [u32; 3]) -> (r: Self)
        ensures
            r == (Vector3 { x: array@[0], y: array@[1], z: array@[2] }),
    {
        Self::from_array(array)
    }
}

impl vstd::std_specs::convert::FromSpecImpl<[u32; 3]> for Vector3 {
    open spec fn obeys_from_spec() -> bool {
        true
    }

    open spec fn from_spec(array: [u32; 3]) -> Vector3 {
        Vector3 { x: array@[0], y: array@[1], z: array@[2] }
    }
}

impl From<Vector3> for [u32; 3] {
    /// The [x, y, z] component bit patterns of a vector.
    fn from(vector: Vector3) -> (r: Self)
        ensures
            r@ == seq![vector.x, vector.y, vector.z],
    {
        vector.to_array()
    }
}

impl vstd::std_specs::convert::FromSpecImpl<Vector3> for [u32; 3] {
    open spec fn obeys_from_spec() -> bool {
        true
    }

    open spec fn from_spec(vector: Vector3) -> [u32; 3] {
        [vector.x, vector.y, vector.z]
    }
}

/// A 3D triangle with three vertices and a normal vector.
///
/// The vertex order encodes the winding: under the right-hand rule it must
/// agree with the stored normal.
#[derive(Debug, Clone, Copy)]
pub struct Triangle {
    /// The normal vector of the triangle.
    pub normal: Vector3,
    /// The three vertices of the triangle.
    pub vertices: [Vector3; 3],
}

impl Triangle {
    /// Creates a new triangle with the given normal vector and vertices.
    pub fn new(normal: Vector3, vertices: [Vector3; 3]) -> (r: Self)
        ensures
            r == (Triangle { normal, vertices }),
    {
        Self { normal, vertices }
    }

    /// Creates a new triangle from arrays of [x, y, z] coordinate bit patterns.
    pub fn from_arrays(normal: [u32; 3], vertices: [[u32; 3]; 3]) -> (r: Self)
        ensures
            r.normal == (Vector3 { x: normal@[0], y: normal@[1], z: normal@[2] }),
            forall|i: int|
                0 <= i < 3 ==> r.vertices@[i] == (Vector3 {
                    x: vertices@[i]@[0],
                    y: vertices@[i]@[1],
                    z: vertices@[i]@[2],
                }),
    {
        Self {
            normal: Vector3::from_array(normal),
            vertices: [
                Vector3::from_array(vertices[0]),
                Vector3::from_array(vertices[1]),
                Vector3::from_array(vertices[2]),
            ],
        }
    }
}

} // verus!
