//! A sphere and its ray intersection test.

use vstd::prelude::*;

use crate::fixed::{fadd, fdiv, fdiv_s, fits, fmul, fmul_s, fmuli, fsqrt, fsqrt_s, fsub, sat};
use crate::ray::{MathRay, Ray};
use crate::rayhit::{
    hit_model, material_fits, material_model, MathHit, RayHit, ReflectionRefractionIndex,
};
use crate::vector::{vadd, vdot, vfits, vnorm, vscale, vsub, MathVec, Vector3};

verus! {

/// Fixed-point minus one half, the factor of the stable quadratic root.
pub const NEG_HALF: i64 = -32768;

/// The mathematical value of a sphere.
pub struct MathSphere {
    pub position: MathVec,
    pub color: MathVec,
    pub radius: int,
    pub material: Option<(int, Option<int>)>,
}

/// The chosen root once both candidates are known: order them, discard a
/// root behind the ray origin, and fail when both lie behind it.
pub open spec fn sphere_finish(s: MathSphere, r: MathRay, ta: int, tb: int) -> Option<MathHit> {
    let lo = if ta > tb {
        tb
    } else {
        ta
    };
    let hi = if ta > tb {
        ta
    } else {
        tb
    };
    let tt = if lo < 0 {
        hi
    } else {
        lo
    };
    if tt < 0 {
        None
    } else {
        let position = vadd(r.origin, vscale(r.direction, tt));
        Some(
            MathHit {
                position,
                normal: vnorm(vsub(position, s.position)),
                distance: tt,
                color: s.color,
                material: s.material,
            },
        )
    }
}

/// The quadratic intersection test: `a t^2 + b t + c = 0` with the squared
/// radius in the constant term, solved by the numerically stable root, with
/// degenerate directions (`a == 0`) and a root factor rounded to zero both
/// reported as no hit.
pub open spec fn sphere_hit(s: MathSphere, r: MathRay) -> Option<MathHit> {
    let ray_to_sphere = vsub(r.origin, s.position);
    let a = vdot(r.direction, r.direction);
    let b = sat(2 * vdot(r.direction, ray_to_sphere));
    let c = sat(vdot(ray_to_sphere, ray_to_sphere) - fmul_s(s.radius, s.radius));
    let discr = sat(fmul_s(b, b) - sat(4 * fmul_s(a, c)));
    if a == 0 {
        None
    } else if discr < 0 {
        None
    } else if discr == 0 {
        let t = fdiv_s(fmul_s(b, NEG_HALF as int), a);
        sphere_finish(s, r, t, t)
    } else {
        let sq = fsqrt_s(discr);
        let inner = if b > 0 {
            sat(b + sq)
        } else {
            sat(b - sq)
        };
        let q = fmul_s(inner, NEG_HALF as int);
        if q == 0 {
            None
        } else {
            sphere_finish(s, r, fdiv_s(q, a), fdiv_s(c, q))
        }
    }
}

/// A sphere with a position, color, and radius.
#[derive(Debug, Copy, Clone)]
pub struct Sphere {
    position: Vector3,
    color: Vector3,
    radius: i64,
    reflection_and_refraction: ReflectionRefractionIndex,
}

impl View for Sphere {
    type V = MathSphere;

    closed spec fn view(&self) -> MathSphere {
        MathSphere {
            position: self.position@,
            color: self.color@,
            radius: self.radius as int,
            material: material_model(self.reflection_and_refraction),
        }
    }
}

impl Sphere {
    pub open spec fn wf(self) -> bool {
        vfits(self@.position) && vfits(self@.color) && fits(self@.radius) && material_fits(
            self@.material,
        )
    }

    /// Creates a new sphere with given geometric data.
    pub fn new(
        position: Vector3,
        color: Vector3,
        radius: i64,
        reflection_and_refraction: ReflectionRefractionIndex,
    ) -> (r: Sphere)
        requires
            position.wf(),
            color.wf(),
            fits(radius as int),
            material_fits(material_model(reflection_and_refraction)),
        ensures
            r@ == (MathSphere {
                position: position@,
                color: color@,
                radius: radius as int,
                material: material_model(reflection_and_refraction),
            }),
            r.wf(),
    {
        Sphere { position, color, radius, reflection_and_refraction }
    }

    /// Determines whether the given ray has intersected with the sphere
    /// and generates a RayHit.
    pub fn intersect(&self, ray: Ray) -> (r: Option<RayHit>)
        requires
            self.wf(),
            ray.wf(),
        ensures
            hit_model(r) == sphere_hit(self@, ray@),
            r is Some ==> r->Some_0.wf(),
    {
        // Generates a quadratic formula describing the intersection
        let ray_to_sphere = ray.origin().sub(self.position);
        let a = ray.direction().dot(ray.direction());
        let b = fmuli(2, ray.direction().dot(ray_to_sphere));
        let c = fsub(ray_to_sphere.dot(ray_to_sphere), fmul(self.radius, self.radius));

        // Solves the quadratic formula
        let discr = fsub(fmul(b, b), fmuli(4, fmul(a, c)));
        if a == 0 {
            // A degenerate direction admits no parametric hit
            return None;
        }
        if discr < 0 {
            // If the discriminant < 0, there was no intersection
            return None;
        }
        let mut t0: i64;
        let mut t1: i64;
        if discr == 0 {
            // Single hit
            t0 = fdiv(fmul(b, NEG_HALF), a);
            t1 = t0;
        } else {
            // Two hits, taken through the root whose sign avoids cancellation
            let sq = fsqrt(discr);
            let inner = if b > 0 {
                fadd(b, sq)
            } else {
                fsub(b, sq)
            };
            let q = fmul(inner, NEG_HALF);
            if q == 0 {
                // The factor rounded to zero; no usable root remains
                return None;
            }
            t0 = fdiv(q, a);
            t1 = fdiv(c, q);
        }

        // Obtains the closer hit
        if t0 > t1 {
            let temp = t0;
            t0 = t1;
            t1 = temp;
        }

        // Ensures that the sphere is in front of the ray's origin
        if t0 < 0 {
            t0 = t1;
            if t0 < 0 {
                return None;
            }
        }

        // Calculates ray hit position and normal
        let position = ray.origin().add(ray.direction().scale(t0));
        let normal = position.sub(self.position).normalize();

        Some(RayHit::new(position, normal, t0, self.color, self.reflection_and_refraction))
    }
}

} // verus!
