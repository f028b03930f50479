//! How a movement command becomes a step of the camera.

use vstd::prelude::*;
use crate::rotation::Rotation3D;
use crate::scalar::Scalar;
use crate::vec::Vec3;

verus! {

/// The four ways to move the camera, relative to where it faces.
#[derive(Clone, Copy, Debug, PartialEq, Eq, Structural)]
pub enum RelativeDirection {
    Up,
    Down,
    Left,
    Right,
}

impl RelativeDirection {
    /// The step of length `speed` in camera-local space, before the camera's
    /// rotation is applied to it: forward is `-Z`, back is `+Z`, left is `-X`
    /// and right is `+X`.
    pub open spec fn movement_vector(self, speed: Scalar) -> Vec3 {
        let zero = Scalar::zero_spec();
        match self {
            RelativeDirection::Up => Vec3 { x: zero, y: zero, z: speed.neg_spec() },
            RelativeDirection::Down => Vec3 { x: zero, y: zero, z: speed },
            RelativeDirection::Left => Vec3 { x: speed.neg_spec(), y: zero, z: zero },
            RelativeDirection::Right => Vec3 { x: speed, y: zero, z: zero },
        }
    }

    pub fn to_movement_vector(&self, speed: Scalar) -> (step: Vec3)
        ensures
            step == self.movement_vector(speed),
    {
        match self {
            RelativeDirection::Up => Vec3::new(Scalar::zero(), Scalar::zero(), speed.neg()),
            RelativeDirection::Down => Vec3::new(Scalar::zero(), Scalar::zero(), speed),
            RelativeDirection::Left => Vec3::new(speed.neg(), Scalar::zero(), Scalar::zero()),
            RelativeDirection::Right => Vec3::new(speed, Scalar::zero(), Scalar::zero()),
        }
    }
}

/// The bit pattern of `0.1`, the length of a camera's step when it is made.
pub const DEFAULT_SPEED_BITS: u32 = 0x3dcc_cccd;

/// The eye of the scene: where it stands, how it is turned, and the
/// viewport that it looks through.
///
/// `horizontal` and `vertical` span the viewport. They are laid down when the
/// camera is made and do not follow its movements.
#[derive(Clone, Copy, Debug)]
pub struct Camera {
    pub origin: Vec3,
    pub speed: Scalar,
    pub horizontal: Vec3,
    pub vertical: Vec3,
    pub rotation: Rotation3D,
    pub focal_length: Scalar,
}

impl Camera {
    /// A camera at `origin` with a viewport of the given width and height:
    /// `horizontal` runs along X and `vertical` along Y.
    pub fn new(
        viewport_width: Scalar,
        viewport_height: Scalar,
        focal_length: Scalar,
        origin: Vec3,
        rotation_degrees: Vec3,
    ) -> (camera: Camera)
        ensures
            camera.origin == origin,
            camera.focal_length == focal_length,
            camera.rotation@ == rotation_degrees,
            camera.speed == (Scalar { bits: DEFAULT_SPEED_BITS }),
            camera.horizontal == (Vec3 {
                x: viewport_width,
                y: Scalar::zero_spec(),
                z: Scalar::zero_spec(),
            }),
            camera.vertical == (Vec3 {
                x: Scalar::zero_spec(),
                y: viewport_height,
                z: Scalar::zero_spec(),
            }),
    {
        let rotation = Rotation3D::new(rotation_degrees);
        let horizontal = Vec3::new(viewport_width, Scalar::zero(), Scalar::zero());
        let vertical = Vec3::new(Scalar::zero(), viewport_height, Scalar::zero());
        Camera {
            origin,
            focal_length,
            horizontal,
            rotation,
            vertical,
            speed: Scalar::from_bits(DEFAULT_SPEED_BITS),
        }
    }

    /// Turns the camera to the given orientation, whatever it was turned to
    /// before. Nothing else about the camera changes.
    pub fn turn(&mut self, rotation: Vec3)
        ensures
            final(self).rotation@ == rotation,
            final(self).origin == old(self).origin,
            final(self).speed == old(self).speed,
            final(self).horizontal == old(self).horizontal,
            final(self).vertical == old(self).vertical,
            final(self).focal_length == old(self).focal_length,
    {
        self.rotation.turn(rotation)
    }
}

} // verus!
