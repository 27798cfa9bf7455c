//! An infinite plane and its ray intersection test.

use vstd::prelude::*;

use crate::fixed::{fdiv, fdiv_s, fits};
use crate::ray::{MathRay, Ray};
use crate::rayhit::{
    hit_fits, hit_model, material_fits, material_model, MathHit, RayHit, ReflectionRefractionIndex,
};
use crate::vector::{
    lemma_vdot_comm, lemma_vdot_neg_left, vadd, vdot, vfits, vneg, vnorm, vscale, vsub, MathVec,
    Vector3,
};

verus! {

/// A ray whose direction makes no larger a (negated) normal component than
/// this is treated as parallel to, or facing away from, the plane.
pub const PARALLEL_EPS: i64 = 66;

/// The mathematical value of a plane.
pub struct MathPlane {
    pub origin: MathVec,
    pub normal: MathVec,
    pub color: MathVec,
    pub material: Option<(int, Option<int>)>,
}

/// What the intersection test returns: no hit unless the ray runs toward
/// the front face steeply enough and meets the plane at a nonnegative
/// parameter.
pub open spec fn plane_hit(p: MathPlane, r: MathRay) -> Option<MathHit> {
    let denom = vdot(vneg(p.normal), r.direction);
    if denom > PARALLEL_EPS as int {
        let ray_to_origin = vsub(p.origin, r.origin);
        let t = fdiv_s(vdot(ray_to_origin, vneg(p.normal)), denom);
        if t >= 0 {
            Some(
                MathHit {
                    position: vadd(r.origin, vscale(r.direction, t)),
                    normal: vnorm(p.normal),
                    distance: t,
                    color: p.color,
                    material: p.material,
                },
            )
        } else {
            None
        }
    } else {
        None
    }
}

/// An infinite plane with an origin point, a normal, a color and an
/// optional reflective material.
#[derive(Debug, Copy, Clone)]
pub struct Plane {
    origin: Vector3,
    normal: Vector3,
    color: Vector3,
    reflection_and_refraction: ReflectionRefractionIndex,
}

impl View for Plane {
    type V = MathPlane;

    closed spec fn view(&self) -> MathPlane {
        MathPlane {
            origin: self.origin@,
            normal: self.normal@,
            color: self.color@,
            material: material_model(self.reflection_and_refraction),
        }
    }
}

impl Plane {
    pub open spec fn wf(self) -> bool {
        vfits(self@.origin) && vfits(self@.normal) && vfits(self@.color) && material_fits(
            self@.material,
        )
    }

    /// Creates a new plane with given geometric data.
    pub fn new(
        origin: Vector3,
        normal: Vector3,
        color: Vector3,
        reflection_and_refraction: ReflectionRefractionIndex,
    ) -> (r: Plane)
        requires
            origin.wf(),
            normal.wf(),
            color.wf(),
            material_fits(material_model(reflection_and_refraction)),
        ensures
            r@ == (MathPlane {
                origin: origin@,
                normal: normal@,
                color: color@,
                material: material_model(reflection_and_refraction),
            }),
            r.wf(),
    {
        Plane { origin, normal, color, reflection_and_refraction }
    }

    /// Determines whether the given ray has intersected with the plane
    /// and generates a RayHit.
    pub fn intersect(&self, ray: Ray) -> (r: Option<RayHit>)
        requires
            self.wf(),
            ray.wf(),
        ensures
            hit_model(r) == plane_hit(self@, ray@),
            r is Some ==> r->Some_0.wf(),
            vdot(ray@.direction, self@.normal) == 0 ==> r is None,
    {
        proof {
            if vdot(ray@.direction, self@.normal) == 0 {
                lemma_parallel_ray_misses(self@, ray@);
            }
        }
        let denom = self.normal.neg().dot(ray.direction());
        if denom > PARALLEL_EPS {
            let ray_to_origin = self.origin.sub(ray.origin());
            let t = fdiv(ray_to_origin.dot(self.normal.neg()), denom);
            if t >= 0 {
                let position = ray.origin().add(ray.direction().scale(t));
                let normal = self.normal.normalize();
                Some(RayHit::new(position, normal, t, self.color, self.reflection_and_refraction))
            } else {
                None
            }
        } else {
            None
        }
    }
}

/// A ray parallel to a plane reports no hit: its direction then has no
/// component against the plane's normal, so the facing test fails.
pub proof fn lemma_parallel_ray_misses(p: MathPlane, r: MathRay)
    requires
        vdot(r.direction, p.normal) == 0,
    ensures
        plane_hit(p, r) is None,
{
    lemma_vdot_neg_left(p.normal, r.direction);
    lemma_vdot_comm(p.normal, r.direction);
}

} // verus!
