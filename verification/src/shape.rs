//! The shapes of a scene.

use vstd::prelude::*;
use crate::scalar::Scalar;
use crate::vec::Vec3;

verus! {

/// A shape that rays can strike. The set of kinds is closed, and intersection
/// code dispatches on the kind by `match`.
#[derive(Clone, Copy, Debug, PartialEq, Eq, Structural)]
pub enum Shape {
    Sphere { center: Vec3, radius: Scalar, color: Vec3 },
}

} // verus!
