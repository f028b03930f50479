//! Points, directions and colours as the core carries them.

use vstd::prelude::*;
use vstd::std_specs::ops::NegSpecImpl;
use crate::scalar::Scalar;

verus! {

/// Three scalars: a point, a direction or an RGB colour.
///
/// The core stores vectors, hands them on and flips them; sums and products
/// are the business of whoever computes with the numbers behind the patterns.
#[derive(Clone, Copy, Debug, PartialEq, Eq, Structural)]
pub struct Vec3 {
    pub x: Scalar,
    pub y: Scalar,
    pub z: Scalar,
}

/// The zero vector: all three components are `0.0`.
pub open spec fn null_vector() -> Vec3 {
    Vec3 { x: Scalar::zero_spec(), y: Scalar::zero_spec(), z: Scalar::zero_spec() }
}

impl Vec3 {
    /// The vector with the sign of each component flipped.
    pub open spec fn negated(self) -> Vec3 {
        Vec3 { x: self.x.neg_spec(), y: self.y.neg_spec(), z: self.z.neg_spec() }
    }

    pub fn new(x: Scalar, y: Scalar, z: Scalar) -> (v: Vec3)
        ensures
            v == (Vec3 { x, y, z }),
    {
        Vec3 { x, y, z }
    }

    pub fn from_array(arr: [Scalar; 3]) -> (v: Vec3)
        ensures
            v == (Vec3 { x: arr[0], y: arr[1], z: arr[2] }),
    {
        Vec3 { x: arr[0], y: arr[1], z: arr[2] }
    }

    /// The vector of a list of components, which has to hold exactly three
    /// of them.
    pub fn from_components(components: &[Scalar]) -> (v: Option<Vec3>)
        ensures
            v is Some <==> components@.len() == 3,
            v matches Some(vector) ==> vector == (Vec3 {
                x: components@[0],
                y: components@[1],
                z: components@[2],
            }),
    {
        if components.len() == 3 {
            Some(Vec3 { x: components[0], y: components[1], z: components[2] })
        } else {
            None
        }
    }

    pub fn null() -> (v: Vec3)
        ensures
            v == null_vector(),
    {
        Vec3 { x: Scalar::zero(), y: Scalar::zero(), z: Scalar::zero() }
    }

    pub fn x(&self) -> (x: Scalar)
        ensures
            x == self.x,
    {
        self.x
    }

    pub fn y(&self) -> (y: Scalar)
        ensures
            y == self.y,
    {
        self.y
    }

    pub fn z(&self) -> (z: Scalar)
        ensures
            z == self.z,
    {
        self.z
    }
}

impl core::ops::Neg for Vec3 {
    type Output = Vec3;

    fn neg(self) -> (v: Vec3) {
        Vec3 { x: self.x.neg(), y: self.y.neg(), z: self.z.neg() }
    }
}

impl NegSpecImpl for Vec3 {
    open spec fn obeys_neg_spec() -> bool {
        true
    }

    open spec fn neg_req(self) -> bool {
        true
    }

    open spec fn neg_spec(self) -> Vec3 {
        self.negated()
    }
}

} // verus!
