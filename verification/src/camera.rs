//! The viewport camera.
//!
//! The camera keeps its position, its up vector, its viewing direction and
//! the tangent of half its field of view.  Deriving the direction from yaw
//! and pitch angles, and the half-width from the field of view, takes
//! trigonometry that this core does not model; the surrounding program
//! computes both and hands them in as fixed-point values.

use vstd::prelude::*;

use crate::fixed::fits;
use crate::vector::{vfits, MathVec, Vector3};

verus! {

/// The mathematical value of a camera.
pub struct MathCamera {
    pub position: MathVec,
    pub up: MathVec,
    pub direction: MathVec,
    pub half_width: int,
}

/// Represents state of the viewport camera.
#[derive(Debug, Copy, Clone)]
pub struct Camera {
    position: Vector3,
    up: Vector3,
    direction: Vector3,
    half_width: i64,
}

impl View for Camera {
    type V = MathCamera;

    closed spec fn view(&self) -> MathCamera {
        MathCamera {
            position: self.position@,
            up: self.up@,
            direction: self.direction@,
            half_width: self.half_width as int,
        }
    }
}

impl Camera {
    pub open spec fn wf(self) -> bool {
        vfits(self@.position) && vfits(self@.up) && vfits(self@.direction) && fits(
            self@.half_width,
        )
    }

    /// Creates a new camera with given parameters: its position, its unit
    /// up vector, its unit viewing direction, and the tangent of half its
    /// field of view as a fixed-point scalar.
    pub fn new(position: Vector3, up: Vector3, direction: Vector3, half_width: i64) -> (r: Camera)
        requires
            position.wf(),
            up.wf(),
            direction.wf(),
            fits(half_width as int),
        ensures
            r@ == (MathCamera {
                position: position@,
                up: up@,
                direction: direction@,
                half_width: half_width as int,
            }),
            r.wf(),
    {
        Camera { position, up, direction, half_width }
    }

    /// Gets the direction of the camera.
    pub fn direction(&self) -> (r: Vector3)
        ensures
            r@ == self@.direction,
    {
        self.direction
    }

    /// Gets the position of the camera.
    pub fn position(&self) -> (r: Vector3)
        ensures
            r@ == self@.position,
    {
        self.position
    }

    /// Gets the up vector of the camera.
    pub fn up(&self) -> (r: Vector3)
        ensures
            r@ == self@.up,
    {
        self.up
    }

    /// Gets the tangent of half the field of view of the camera.
    pub fn half_width(&self) -> (r: i64)
        ensures
            r as int == self@.half_width,
    {
        self.half_width
    }
}

} // verus!
