//! The intersection capability and the tagged union of surfaces the scene
//! holds.

use vstd::prelude::*;

use crate::plane::{plane_hit, MathPlane, Plane};
use crate::ray::{MathRay, Ray};
use crate::rayhit::{hit_model, MathHit, RayHit};
use crate::sphere::{sphere_hit, MathSphere, Sphere};

verus! {

/// Intersectable defines behavior for objects that can be seen by the ray
/// tracer: a well-formedness invariant, a mathematical intersection
/// function, and an executable test pinned to it.
pub trait Intersectable {
    /// The scalars of the surface lie in the fixed-point band.
    spec fn inv(&self) -> bool;

    /// The mathematical value of the intersection test.
    spec fn model_hit(&self, ray: MathRay) -> Option<MathHit>;

    /// Returns whether the ray hit the Intersectable in the form of a
    /// RayHit or None if there was no intersection.
    fn intersect(&self, ray: Ray) -> (r: Option<RayHit>)
        requires
            self.inv(),
            ray.wf(),
        ensures
            hit_model(r) == self.model_hit(ray@),
            r is Some ==> r->Some_0.wf(),
    ;
}

impl Intersectable for Sphere {
    open spec fn inv(&self) -> bool {
        self.wf()
    }

    open spec fn model_hit(&self, ray: MathRay) -> Option<MathHit> {
        sphere_hit(self@, ray)
    }

    fn intersect(&self, ray: Ray) -> (r: Option<RayHit>) {
        Sphere::intersect(self, ray)
    }
}

impl Intersectable for Plane {
    open spec fn inv(&self) -> bool {
        self.wf()
    }

    open spec fn model_hit(&self, ray: MathRay) -> Option<MathHit> {
        plane_hit(self@, ray)
    }

    fn intersect(&self, ray: Ray) -> (r: Option<RayHit>) {
        Plane::intersect(self, ray)
    }
}

/// The mathematical value of a surface.
pub enum MathSurface {
    Sphere(MathSphere),
    Plane(MathPlane),
}

/// Intersection, dispatched over the surface kind.
pub open spec fn surface_hit(s: MathSurface, r: MathRay) -> Option<MathHit> {
    match s {
        MathSurface::Sphere(sp) => sphere_hit(sp, r),
        MathSurface::Plane(pl) => plane_hit(pl, r),
    }
}

/// A surface of the scene: a sphere or a plane.
#[derive(Debug, Copy, Clone)]
pub enum Surface {
    Sphere(Sphere),
    Plane(Plane),
}

impl View for Surface {
    type V = MathSurface;

    open spec fn view(&self) -> MathSurface {
        match *self {
            Surface::Sphere(sp) => MathSurface::Sphere(sp@),
            Surface::Plane(pl) => MathSurface::Plane(pl@),
        }
    }
}

impl Surface {
    pub open spec fn wf(self) -> bool {
        match self {
            Surface::Sphere(sp) => sp.wf(),
            Surface::Plane(pl) => pl.wf(),
        }
    }

    /// Intersection, dispatched over the surface kind.
    pub fn intersect(&self, ray: Ray) -> (r: Option<RayHit>)
        requires
            self.wf(),
            ray.wf(),
        ensures
            hit_model(r) == surface_hit(self@, ray@),
            r is Some ==> r->Some_0.wf(),
    {
        match self {
            Surface::Sphere(sp) => Sphere::intersect(sp, ray),
            Surface::Plane(pl) => Plane::intersect(pl, ray),
        }
    }
}

} // verus!
