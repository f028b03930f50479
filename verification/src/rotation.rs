//! The orientation of the camera: one angle for each axis, applied one axis
//! after the other.
//!
//! Rotating a direction means, for each axis in the fixed order X, Y, Z,
//! replacing the direction by the product of that axis's rotation matrix with
//! it. Sines, cosines and products are floating-point work; which matrix is
//! built from them, and in which order the axes take their turn, is settled
//! here.

use vstd::prelude::*;
use crate::scalar::Scalar;
use crate::vec::Vec3;

verus! {

/// The bit pattern of `1.0`.
pub const ONE_BITS: u32 = 0x3f80_0000;

/// The bit pattern of a full turn in radians, `2 * PI` rounded to single
/// precision.
pub const FULL_TURN_BITS: u32 = 0x40c9_0fdb;

/// An angle in radians.
#[derive(Clone, Copy, Debug, PartialEq, Eq, Structural)]
pub struct Theta(pub Scalar);

impl Theta {
    /// The angle of `radians`, if that lies within one full turn from zero.
    /// A NaN lies below nothing and above nothing, so it passes.
    pub fn from_radians(radians: Scalar) -> (theta: Option<Theta>)
        ensures
            theta == if radians.lt_spec(Scalar::zero_spec()) || (Scalar {
                bits: FULL_TURN_BITS,
            }).lt_spec(radians) {
                None
            } else {
                Some(Theta(radians))
            },
    {
        if radians.lt(Scalar::zero()) || Scalar::from_bits(FULL_TURN_BITS).lt(radians) {
            None
        } else {
            Some(Theta(radians))
        }
    }
}

/// The rotation about one of the three axes.
#[derive(Clone, Copy, Debug, PartialEq, Eq, Structural)]
pub enum AxisRotator {
    X,
    Y,
    Z,
}

pub const ROTATION_X: AxisRotator = AxisRotator::X;

pub const ROTATION_Y: AxisRotator = AxisRotator::Y;

pub const ROTATION_Z: AxisRotator = AxisRotator::Z;

impl AxisRotator {
    /// The rows of the matrix that rotates about this axis by the angle
    /// whose cosine and sine are given.
    pub open spec fn matrix(self, cos: Scalar, sin: Scalar) -> Seq<Vec3> {
        let zero = Scalar::zero_spec();
        let one = Scalar { bits: ONE_BITS };
        match self {
            AxisRotator::X => seq![
                Vec3 { x: one, y: zero, z: zero },
                Vec3 { x: zero, y: cos, z: sin.neg_spec() },
                Vec3 { x: zero, y: sin, z: cos },
            ],
            AxisRotator::Y => seq![
                Vec3 { x: cos, y: zero, z: sin },
                Vec3 { x: zero, y: one, z: zero },
                Vec3 { x: sin.neg_spec(), y: zero, z: cos },
            ],
            AxisRotator::Z => seq![
                Vec3 { x: cos, y: sin.neg_spec(), z: zero },
                Vec3 { x: sin, y: cos, z: zero },
                Vec3 { x: zero, y: zero, z: one },
            ],
        }
    }

    pub fn rows(&self, cos: Scalar, sin: Scalar) -> (rows: [Vec3; 3])
        ensures
            rows@ == self.matrix(cos, sin),
    {
        let zero = Scalar::zero();
        let one = Scalar::from_bits(ONE_BITS);
        let rows = match self {
            AxisRotator::X => [
                Vec3::new(one, zero, zero),
                Vec3::new(zero, cos, sin.neg()),
                Vec3::new(zero, sin, cos),
            ],
            AxisRotator::Y => [
                Vec3::new(cos, zero, sin),
                Vec3::new(zero, one, zero),
                Vec3::new(sin.neg(), zero, cos),
            ],
            AxisRotator::Z => [
                Vec3::new(cos, sin.neg(), zero),
                Vec3::new(sin, cos, zero),
                Vec3::new(zero, zero, one),
            ],
        };
        assert(rows@ =~= self.matrix(cos, sin));
        rows
    }
}

/// An orientation: the angles of rotation about the X, Y and Z axes, in
/// radians, as the components of a vector.
#[derive(Clone, Copy, Debug)]
pub struct Rotation3D {
    rotation: Vec3,
}

impl View for Rotation3D {
    type V = Vec3;

    /// The angle triple.
    closed spec fn view(&self) -> Vec3 {
        self.rotation
    }
}

impl Rotation3D {
    pub fn new(rotation: Vec3) -> (orientation: Rotation3D)
        ensures
            orientation@ == rotation,
    {
        Rotation3D { rotation }
    }

    /// Replaces the angles by the given ones. Nothing of the old angles is
    /// kept.
    pub fn turn(&mut self, rotation: Vec3)
        ensures
            final(self)@ == rotation,
    {
        self.rotation = rotation
    }

    pub fn angles(&self) -> (rotation: Vec3)
        ensures
            rotation == self@,
    {
        self.rotation
    }

    /// The axis rotations that make up the orientation, each with its
    /// angle, in the order in which they are applied: about X first, then
    /// about Y, then about Z. Each one is applied to what the one before
    /// it has made of the direction.
    pub fn steps(&self) -> (steps: [(AxisRotator, Theta); 3])
        ensures
            steps@ == seq![
                (AxisRotator::X, Theta(self@.x)),
                (AxisRotator::Y, Theta(self@.y)),
                (AxisRotator::Z, Theta(self@.z)),
            ],
    {
        let steps = [
            (ROTATION_X, Theta(self.rotation.x())),
            (ROTATION_Y, Theta(self.rotation.y())),
            (ROTATION_Z, Theta(self.rotation.z())),
        ];
        assert(steps@ =~= seq![
            (AxisRotator::X, Theta(self@.x)),
            (AxisRotator::Y, Theta(self@.y)),
            (AxisRotator::Z, Theta(self@.z)),
        ]);
        steps
    }
}

} // verus!
