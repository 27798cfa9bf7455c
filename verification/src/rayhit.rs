//! The record a surface hands back for a ray intersection.

use vstd::prelude::*;

use crate::fixed::fits;
use crate::vector::{vfits, MathVec, Vector3};

verus! {

/// Reflection Refraction Index allows storing reflection/refraction data
/// with three options: diffuse (`None`), reflective (reflectivity only),
/// and reflective/refractive (reflectivity and an index of refraction).
/// Both scalars are fixed-point.
pub type ReflectionRefractionIndex = Option<(i64, Option<i64>)>;

/// The mathematical value of a material descriptor.
pub open spec fn material_model(m: ReflectionRefractionIndex) -> Option<(int, Option<int>)> {
    match m {
        None => None,
        Some((reflectivity, None)) => Some((reflectivity as int, None)),
        Some((reflectivity, Some(ior))) => Some((reflectivity as int, Some(ior as int))),
    }
}

/// Every scalar of a material descriptor lies in the band.
pub open spec fn material_fits(m: Option<(int, Option<int>)>) -> bool {
    match m {
        None => true,
        Some((reflectivity, None)) => fits(reflectivity),
        Some((reflectivity, Some(ior))) => fits(reflectivity) && fits(ior),
    }
}

/// The mathematical value of a hit record.
pub struct MathHit {
    pub position: MathVec,
    pub normal: MathVec,
    pub distance: int,
    pub color: MathVec,
    pub material: Option<(int, Option<int>)>,
}

/// The mathematical value of an optional hit.
pub open spec fn hit_model(r: Option<RayHit>) -> Option<MathHit> {
    match r {
        None => None,
        Some(h) => Some(h@),
    }
}

/// Describes a ray intersection of the surface of an intersectable.
#[derive(Debug, Copy, Clone)]
pub struct RayHit {
    position: Vector3,
    normal: Vector3,
    distance: i64,
    color: Vector3,
    reflect_and_refract: ReflectionRefractionIndex,
}

impl View for RayHit {
    type V = MathHit;

    closed spec fn view(&self) -> MathHit {
        MathHit {
            position: self.position@,
            normal: self.normal@,
            distance: self.distance as int,
            color: self.color@,
            material: material_model(self.reflect_and_refract),
        }
    }
}

/// All scalars of a hit record lie in the band.
pub open spec fn hit_fits(h: MathHit) -> bool {
    vfits(h.position) && vfits(h.normal) && fits(h.distance) && vfits(h.color) && material_fits(
        h.material,
    )
}

impl RayHit {
    pub open spec fn wf(self) -> bool {
        hit_fits(self@)
    }

    /// Creates a new RayHit with the given hit data.
    pub fn new(
        position: Vector3,
        normal: Vector3,
        distance: i64,
        color: Vector3,
        reflect_and_refract: ReflectionRefractionIndex,
    ) -> (r: RayHit)
        requires
            position.wf(),
            normal.wf(),
            fits(distance as int),
            color.wf(),
            material_fits(material_model(reflect_and_refract)),
        ensures
            r@ == (MathHit {
                position: position@,
                normal: normal@,
                distance: distance as int,
                color: color@,
                material: material_model(reflect_and_refract),
            }),
            r.wf(),
    {
        RayHit { position, normal, distance, color, reflect_and_refract }
    }

    /// Gets the intersect position of the hit.
    pub fn position(&self) -> (r: Vector3)
        ensures
            r@ == self@.position,
    {
        self.position
    }

    /// Gets the normal of the intersection on the surface.
    pub fn normal(&self) -> (r: Vector3)
        ensures
            r@ == self@.normal,
    {
        self.normal
    }

    /// Gets the distance between the ray origin and intersection point.
    pub fn distance(&self) -> (r: i64)
        ensures
            r as int == self@.distance,
    {
        self.distance
    }

    /// Gets the color of the point that was hit.
    pub fn color(&self) -> (r: Vector3)
        ensures
            r@ == self@.color,
    {
        self.color
    }

    /// Gets the optional reflection and refraction index.
    pub fn reflection_and_refraction_index(&self) -> (r: ReflectionRefractionIndex)
        ensures
            material_model(r) == self@.material,
    {
        self.reflect_and_refract
    }
}

} // verus!
