//! The discrete core of a ray caster.
//!
//! A ray caster sends one ray through each pixel of a canvas into a scene of
//! shapes, finds the nearest shape that the ray strikes and colours the pixel
//! by it. Most of that is floating-point arithmetic, and none of the
//! arithmetic is here. What is here is everything the renderer decides once
//! the numbers are known:
//!
//! - [`scalar`]: single-precision numbers as bit patterns, with the two
//!   operations that are exact functions of the pattern, comparison and
//!   negation;
//! - [`vec`]: triples of such numbers;
//! - [`shape`]: the shapes of a scene;
//! - [`ray`]: hit records, the choice of the root at which a ray hits, the
//!   orientation of the normal, and the choice of the nearest hit;
//! - [`rotation`]: the order of the axis rotations and the layout of their
//!   matrices;
//! - [`camera`]: the camera's parts and the step of a movement command;
//! - [`canvas`]: the order in which pixels are drawn, the canvas that keeps
//!   it, and the encoding of colours as RGBA8 bytes.
//!
//! A caller computes in floating point, hands the bit patterns of its results
//! to these functions and goes on computing with what they return.

pub mod camera;
pub mod canvas;
pub mod ray;
pub mod rotation;
pub mod scalar;
pub mod shape;
pub mod vec;
