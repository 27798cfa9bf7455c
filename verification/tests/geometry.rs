//! Tests of the fixed-point scalar kernel, the vector algebra and the
//! surface intersection tests.

use raytracer::fixed::{clamp, fadd, fdiv, fmul, fsqrt, fsub, isqrt, MAX_FP, SCALE};
use raytracer::intersectable::Intersectable;
use raytracer::plane::Plane;
use raytracer::ray::Ray;
use raytracer::sphere::Sphere;
use raytracer::trace::{fresnel, reflect, refract};
use raytracer::vector::Vector3;

const S: i64 = SCALE;

#[test]
fn isqrt_rounds_down() {
    assert_eq!(isqrt(0), 0);
    assert_eq!(isqrt(1), 1);
    assert_eq!(isqrt(10), 3);
    assert_eq!(isqrt(16), 4);
    assert_eq!(isqrt(u64::MAX), 4294967295);
}

#[test]
fn scalar_ops_are_exact() {
    assert_eq!(fmul(S, S), S);
    assert_eq!(fmul(98304, 98304), 147456); // 1.5 * 1.5 == 2.25
    assert_eq!(fdiv(S, 3 * S), 21845); // rounds toward zero
    assert_eq!(fdiv(-S, 3 * S), -21845); // symmetric for negatives
    assert_eq!(fsqrt(4 * S), 2 * S);
    assert_eq!(fadd(MAX_FP, MAX_FP), MAX_FP); // saturates
    assert_eq!(fsub(-MAX_FP, MAX_FP), -MAX_FP); // saturates
    assert_eq!(clamp(7 * S, -S, S), S);
    assert_eq!(clamp(-7 * S, -S, S), -S);
    assert_eq!(clamp(123, -S, S), 123);
}

#[test]
fn vector_ops_are_exact() {
    let a = Vector3::new(S, 2 * S, -3 * S);
    let b = Vector3::new(2 * S, -S, S);
    let sum = a.add(b);
    assert_eq!((sum.x, sum.y, sum.z), (3 * S, S, -2 * S));
    let diff = a.sub(b);
    assert_eq!((diff.x, diff.y, diff.z), (-S, 3 * S, -4 * S));
    let prod = a.mul(b);
    assert_eq!((prod.x, prod.y, prod.z), (2 * S, -2 * S, -3 * S));
    let scaled = a.scale(HALF_S);
    assert_eq!((scaled.x, scaled.y, scaled.z), (S / 2, S, -3 * S / 2));
    let negated = a.neg();
    assert_eq!((negated.x, negated.y, negated.z), (-S, -2 * S, 3 * S));
    assert_eq!(a.dot(b), 2 * S - 2 * S - 3 * S);
    let cross = Vector3::new(S, 0, 0).cross(Vector3::new(0, S, 0));
    assert_eq!((cross.x, cross.y, cross.z), (0, 0, S));
}

const HALF_S: i64 = 32768;

#[test]
fn length_of_three_four_triangle() {
    let v = Vector3::new(3 * S, 4 * S, 0);
    assert_eq!(v.len(), 5 * S);
}

#[test]
fn normalize_idempotent_on_representable_vectors() {
    for v in [
        Vector3::new(S, 0, 0),
        Vector3::new(2 * S, 0, 0),
        Vector3::new(0, -4 * S, 0),
        Vector3::new(S, S, S),
    ] {
        let once = v.normalize();
        let twice = once.normalize();
        assert_eq!((once.x, once.y, once.z), (twice.x, twice.y, twice.z));
    }
}

#[test]
fn normalize_zero_vector_stays_origin() {
    let z = Vector3::origin().normalize();
    assert_eq!((z.x, z.y, z.z), (0, 0, 0));
}

#[test]
fn reflect_flips_normal_component() {
    let i = Vector3::new(S, -S, 0);
    let n = Vector3::new(0, S, 0);
    let r = reflect(i, n);
    assert_eq!((r.x, r.y, r.z), (S, S, 0));
    assert_eq!(r.dot(n), -i.dot(n));
}

#[test]
fn sphere_direct_hit_at_distance_four() {
    let sphere = Sphere::new(Vector3::origin(), Vector3::new_scalar(S), S, None);
    let ray = Ray::new(Vector3::new(0, 0, -5 * S), Vector3::new(0, 0, S));
    let hit = Sphere::intersect(&sphere, ray).expect("hit expected");
    assert_eq!(hit.distance(), 4 * S);
    let n = hit.normal();
    assert_eq!((n.x, n.y, n.z), (0, 0, -S));
    let p = hit.position();
    assert_eq!((p.x, p.y, p.z), (0, 0, -S));
}

#[test]
fn sphere_behind_ray_misses() {
    let sphere = Sphere::new(Vector3::origin(), Vector3::new_scalar(S), S, None);
    let ray = Ray::new(Vector3::new(0, 0, -5 * S), Vector3::new(0, 0, -S));
    assert!(Sphere::intersect(&sphere, ray).is_none());
}

#[test]
fn sphere_off_axis_ray_misses() {
    let sphere = Sphere::new(Vector3::origin(), Vector3::new_scalar(S), S, None);
    let ray = Ray::new(Vector3::new(0, 5 * S, -5 * S), Vector3::new(0, 0, S));
    assert!(Sphere::intersect(&sphere, ray).is_none());
}

#[test]
fn plane_parallel_ray_misses() {
    let plane = Plane::new(
        Vector3::new(0, -S, 0),
        Vector3::new(0, S, 0),
        Vector3::new_scalar(HALF_S),
        None,
    );
    let ray = Ray::new(Vector3::new(0, 0, 0), Vector3::new(S, 0, 0));
    assert!(Plane::intersect(&plane, ray).is_none());
}

#[test]
fn plane_back_face_misses() {
    let plane = Plane::new(
        Vector3::new(0, -S, 0),
        Vector3::new(0, S, 0),
        Vector3::new_scalar(HALF_S),
        None,
    );
    let ray = Ray::new(Vector3::new(0, -2 * S, 0), Vector3::new(0, S, 0));
    assert!(Plane::intersect(&plane, ray).is_none());
}

#[test]
fn plane_direct_hit() {
    let plane = Plane::new(
        Vector3::new(0, -S, 0),
        Vector3::new(0, S, 0),
        Vector3::new_scalar(HALF_S),
        None,
    );
    let ray = Ray::new(Vector3::new(0, 2 * S, 0), Vector3::new(0, -S, 0));
    let hit = Plane::intersect(&plane, ray).expect("hit expected");
    assert_eq!(hit.distance(), 3 * S);
    let p = hit.position();
    assert_eq!((p.x, p.y, p.z), (0, -S, 0));
    let n = hit.normal();
    assert_eq!((n.x, n.y, n.z), (0, S, 0));
}

#[test]
fn trait_dispatch_matches_inherent_tests() {
    let sphere = Sphere::new(Vector3::origin(), Vector3::new_scalar(S), S, None);
    let ray = Ray::new(Vector3::new(0, 0, -5 * S), Vector3::new(0, 0, S));
    let hit = Intersectable::intersect(&sphere, ray).expect("hit expected");
    assert_eq!(hit.distance(), 4 * S);
    let plane = Plane::new(
        Vector3::new(0, -S, 0),
        Vector3::new(0, S, 0),
        Vector3::new_scalar(HALF_S),
        None,
    );
    let pray = Ray::new(Vector3::new(0, 0, 0), Vector3::new(S, 0, 0));
    assert!(Intersectable::intersect(&plane, pray).is_none());
}

#[test]
fn fresnel_straight_on_glass() {
    // Entering a medium of index 1.5 head on: reflectance near 0.04.
    let kr = fresnel(Vector3::new(0, 0, -S), Vector3::new(0, 0, S), 98304);
    assert_eq!(kr, 2621);
}

#[test]
fn fresnel_stays_in_unit_interval() {
    let dirs = [
        Vector3::new(0, 0, -S),
        Vector3::new(S, 0, -S),
        Vector3::new(S, S, S),
        Vector3::new(12345, -6789, 424),
    ];
    let normals = [Vector3::new(0, 0, S), Vector3::new(0, S, 0)];
    let iors = [1, 6554, S, 98304, 10 * S];
    for i in dirs {
        for n in normals {
            for ior in iors {
                let kr = fresnel(i, n, ior);
                assert!(0 <= kr && kr <= S);
            }
        }
    }
}

#[test]
fn fresnel_total_internal_reflection_is_one() {
    // Leaving a dense medium at grazing incidence.
    let kr = fresnel(Vector3::new(S, 0, 1000), Vector3::new(0, 0, S), 98304);
    assert_eq!(kr, S);
}

#[test]
fn refract_straight_through_is_unchanged() {
    let out = refract(Vector3::new(0, 0, S), Vector3::new(0, 0, -S), 98304);
    assert_eq!((out.x, out.y, out.z), (0, 0, S));
}

#[test]
fn refract_total_internal_reflection_is_zero() {
    let out = refract(Vector3::new(S, 0, 1000), Vector3::new(0, 0, S), 98304);
    assert_eq!((out.x, out.y, out.z), (0, 0, 0));
}
