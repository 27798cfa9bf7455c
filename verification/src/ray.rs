//! A ray: origin plus direction.

use vstd::prelude::*;

use crate::vector::{MathVec, Vector3};

verus! {

/// The mathematical value of a ray.
pub struct MathRay {
    pub origin: MathVec,
    pub direction: MathVec,
}

/// Ray comprised of origin and direction vectors.
#[derive(Debug, Copy, Clone)]
pub struct Ray {
    origin: Vector3,
    direction: Vector3,
}

impl View for Ray {
    type V = MathRay;

    closed spec fn view(&self) -> MathRay {
        MathRay { origin: self.origin@, direction: self.direction@ }
    }
}

impl Ray {
    /// Both endpoints lie in the scalar band.
    pub open spec fn wf(self) -> bool {
        crate::vector::vfits(self@.origin) && crate::vector::vfits(self@.direction)
    }

    /// Creates a ray given an origin and direction.
    pub fn new(origin: Vector3, direction: Vector3) -> (r: Ray)
        requires
            origin.wf(),
            direction.wf(),
        ensures
            r@ == (MathRay { origin: origin@, direction: direction@ }),
            r.wf(),
    {
        Ray { origin, direction }
    }

    /// Gets the origin of the ray.
    pub fn origin(&self) -> (r: Vector3)
        ensures
            r@ == self@.origin,
    {
        self.origin
    }

    /// Gets the direction of the ray.
    pub fn direction(&self) -> (r: Vector3)
        ensures
            r@ == self@.direction,
    {
        self.direction
    }
}

} // verus!
