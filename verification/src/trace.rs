//! The recursive shading engine: reflection, refraction, Fresnel
//! reflectance, nearest-hit selection and the Whitted-style trace.

use vstd::prelude::*;

use crate::fixed::{clamp, fadd, fdiv, fmul, fmuli, fsqrt, fsub};
use crate::fixed::{
    fdiv_s, fits, fmul_s, fsqrt_s, lemma_fmul_s_nonneg, lemma_isqrt_bounds,
    lemma_square_fraction_bounded, lemma_tdiv_ordered_nonneg, lemma_tdiv_ratio_bounded, sabs, sat,
    spec_clamp, tdiv, SCALE,
};
use crate::camera::{Camera, MathCamera};
use crate::intersectable::{surface_hit, MathSurface, Surface};
use crate::pixel::{MathPixel, Pixel};
use crate::ray::{MathRay, Ray};
use crate::rayhit::{hit_model, MathHit, RayHit};
use crate::vector::{
    dot_exact, vadd, vcross, vdot, vmul, vneg, vnorm, vscale, vsub, MathVec, Vector3,
};

verus! {

/// Number of maximum bounces per ray.
pub const BOUNCES: u32 = 8;

/// Ambient light strength, about a tenth.
pub const AMBIENT_STRENGTH: i64 = 6554;

/// Specular strength of objects, one half.
pub const SPECULAR_STRENGTH: i64 = 32768;

/// Offset along the surface normal that keeps secondary rays from
/// immediately re-hitting their own surface, about a thousandth.
pub const HIT_BIAS: i64 = 66;

/// Fixed-point one half.
pub const HALF: i64 = 32768;

/// Background color, a pale sky blue, channel by channel.
pub const BG_R: i64 = 34669;

pub const BG_G: i64 = 52953;

pub const BG_B: i64 = 64225;

/// The color returned for a ray that escapes the scene.
pub open spec fn background() -> MathVec {
    MathVec { x: BG_R as int, y: BG_G as int, z: BG_B as int }
}

/// The fixed light direction: toward the upper back left, unit length.
pub open spec fn light_direction() -> MathVec {
    vnorm(MathVec { x: SCALE as int, y: SCALE as int, z: -(SCALE as int) })
}

/// The white light color.
pub open spec fn light_color() -> MathVec {
    MathVec { x: SCALE as int, y: SCALE as int, z: SCALE as int }
}

/// Nonnegative part of a scalar.
pub open spec fn max0(x: int) -> int {
    if x < 0 {
        0
    } else {
        x
    }
}

/// Nonnegative part, executably.
pub fn pos_part(x: i64) -> (r: i64)
    ensures
        r as int == max0(x as int),
{
    if x < 0 {
        0
    } else {
        x
    }
}

/// The 64th fixed-point power, by six squarings.
pub open spec fn spec_pow64(x: int) -> int {
    let p2 = fmul_s(x, x);
    let p4 = fmul_s(p2, p2);
    let p8 = fmul_s(p4, p4);
    let p16 = fmul_s(p8, p8);
    let p32 = fmul_s(p16, p16);
    fmul_s(p32, p32)
}

/// The 64th fixed-point power, executably.
pub fn pow64(x: i64) -> (r: i64)
    requires
        fits(x as int),
    ensures
        r as int == spec_pow64(x as int),
        fits(r as int),
{
    let p2 = fmul(x, x);
    let p4 = fmul(p2, p2);
    let p8 = fmul(p4, p4);
    let p16 = fmul(p8, p8);
    let p32 = fmul(p16, p16);
    fmul(p32, p32)
}

/// The reflected direction as the code computes it, rounding included.
pub open spec fn spec_reflect(i: MathVec, n: MathVec) -> MathVec {
    vsub(i, vscale(n, sat(2 * vdot(n, i))))
}

/// Calculates a reflection vector given a source vector and normal vector.
pub fn reflect(i: Vector3, n: Vector3) -> (r: Vector3)
    requires
        i.wf(),
        n.wf(),
    ensures
        r@ == spec_reflect(i@, n@),
        r.wf(),
{
    i.sub(n.scale(fmuli(2, n.dot(i))))
}

/// The exact reflected vector, carried at scale `SCALE * SCALE` so that it
/// stays inside the integers: `i - n * 2 * dot(n, i)` with no rounding.
pub open spec fn reflect_exact(i: MathVec, n: MathVec) -> MathVec {
    MathVec {
        x: (SCALE * SCALE) * i.x - 2 * dot_exact(n, i) * n.x,
        y: (SCALE * SCALE) * i.y - 2 * dot_exact(n, i) * n.y,
        z: (SCALE * SCALE) * i.z - 2 * dot_exact(n, i) * n.z,
    }
}

/// Reflection flips the normal component of a vector and preserves its
/// magnitude: against an exactly unit-length normal, the exact reflected
/// vector's dot with the normal is the negation of the incident vector's,
/// both sides carrying the `SCALE * SCALE` factor that keeps the exact
/// reflection integral.
pub proof fn lemma_reflect_flips_normal_component(i: MathVec, n: MathVec)
    requires
        dot_exact(n, n) == SCALE * SCALE,
    ensures
        dot_exact(reflect_exact(i, n), n) == -((SCALE * SCALE) * dot_exact(i, n)),
{
    let s2 = SCALE * SCALE;
    let d = dot_exact(n, i);
    assert((s2 * i.x - 2 * d * n.x) * n.x == s2 * (i.x * n.x) - 2 * d * (n.x * n.x))
        by (nonlinear_arith);
    assert((s2 * i.y - 2 * d * n.y) * n.y == s2 * (i.y * n.y) - 2 * d * (n.y * n.y))
        by (nonlinear_arith);
    assert((s2 * i.z - 2 * d * n.z) * n.z == s2 * (i.z * n.z) - 2 * d * (n.z * n.z))
        by (nonlinear_arith);
    assert(s2 * (i.x * n.x) + s2 * (i.y * n.y) + s2 * (i.z * n.z) == s2 * dot_exact(i, n))
        by (nonlinear_arith);
    assert(2 * d * (n.x * n.x) + 2 * d * (n.y * n.y) + 2 * d * (n.z * n.z) == 2 * d * dot_exact(
        n,
        n,
    )) by (nonlinear_arith);
    assert(n.x * i.x == i.x * n.x) by (nonlinear_arith);
    assert(n.y * i.y == i.y * n.y) by (nonlinear_arith);
    assert(n.z * i.z == i.z * n.z) by (nonlinear_arith);
    assert(dot_exact(n, i) == dot_exact(i, n));
    assert(s2 * dot_exact(i, n) - 2 * dot_exact(i, n) * s2 == -(s2 * dot_exact(i, n)))
        by (nonlinear_arith);
}

/// The refracted direction as the code computes it: Snell's relation on
/// the entering or exiting side, with total internal reflection collapsed
/// to the zero vector.
pub open spec fn spec_refract(i: MathVec, n: MathVec, ior: int) -> MathVec {
    let cosi0 = spec_clamp(vdot(i, n), -(SCALE as int), SCALE as int);
    let cosi = if cosi0 < 0 {
        -cosi0
    } else {
        cosi0
    };
    let etai = if cosi0 < 0 {
        SCALE as int
    } else {
        ior
    };
    let etat = if cosi0 < 0 {
        ior
    } else {
        SCALE as int
    };
    let normal = if cosi0 < 0 {
        n
    } else {
        vneg(n)
    };
    let eta = fdiv_s(etai, etat);
    let k = sat(SCALE - fmul_s(fmul_s(eta, eta), sat(SCALE - fmul_s(cosi, cosi))));
    if k < 0 {
        MathVec { x: 0, y: 0, z: 0 }
    } else {
        vadd(vscale(i, eta), vscale(normal, sat(fmul_s(eta, cosi) - fsqrt_s(k))))
    }
}

/// Calculates a refraction vector given a source vector, normal vector,
/// and index of refraction.
pub fn refract(i: Vector3, n: Vector3, ior: i64) -> (r: Vector3)
    requires
        i.wf(),
        n.wf(),
        fits(ior as int),
        ior > 0,
    ensures
        r@ == spec_refract(i@, n@, ior as int),
        r.wf(),
{
    let cosi0 = clamp(i.dot(n), -SCALE, SCALE);
    let cosi = if cosi0 < 0 {
        -cosi0
    } else {
        cosi0
    };
    let etai = if cosi0 < 0 {
        SCALE
    } else {
        ior
    };
    let etat = if cosi0 < 0 {
        ior
    } else {
        SCALE
    };
    let normal = if cosi0 < 0 {
        n
    } else {
        n.neg()
    };
    let eta = fdiv(etai, etat);
    let k = fsub(SCALE, fmul(fmul(eta, eta), fsub(SCALE, fmul(cosi, cosi))));
    if k < 0 {
        Vector3::origin()
    } else {
        i.scale(eta).add(normal.scale(fsub(fmul(eta, cosi), fsqrt(k))))
    }
}

/// The sine of the transmitted angle as the code computes it, from Snell's
/// law; a value of one or more marks total internal reflection.
pub open spec fn spec_sint(i: MathVec, n: MathVec, ior: int) -> int {
    let cosi = spec_clamp(vdot(i, n), -(SCALE as int), SCALE as int);
    let etai = if cosi > 0 {
        ior
    } else {
        SCALE as int
    };
    let etat = if cosi > 0 {
        SCALE as int
    } else {
        ior
    };
    fmul_s(fdiv_s(etai, etat), fsqrt_s(max0(sat(SCALE - fmul_s(cosi, cosi)))))
}

/// The Fresnel reflectance as the code computes it: one under total
/// internal reflection or a degenerate grazing denominator, otherwise the
/// mean of the squared parallel and perpendicular amplitude ratios.
pub open spec fn spec_fresnel(i: MathVec, n: MathVec, ior: int) -> int {
    let cosi = spec_clamp(vdot(i, n), -(SCALE as int), SCALE as int);
    let etai = if cosi > 0 {
        ior
    } else {
        SCALE as int
    };
    let etat = if cosi > 0 {
        SCALE as int
    } else {
        ior
    };
    let sint = spec_sint(i, n, ior);
    if sint >= SCALE {
        SCALE as int
    } else {
        let cost = fsqrt_s(max0(sat(SCALE - fmul_s(sint, sint))));
        let cosa = sabs(cosi);
        let a1 = fmul_s(etat, cosa);
        let b1 = fmul_s(etai, cost);
        let a2 = fmul_s(etai, cosa);
        let b2 = fmul_s(etat, cost);
        if sat(a1 + b1) == 0 || sat(a2 + b2) == 0 {
            SCALE as int
        } else {
            let rs = fdiv_s(sat(a1 - b1), sat(a1 + b1));
            let rp = fdiv_s(sat(a2 - b2), sat(a2 + b2));
            fmul_s(sat(fmul_s(rs, rs) + fmul_s(rp, rp)), HALF as int)
        }
    }
}

/// Fresnel reflectance lies between zero and one for every physically
/// valid input (a positive index of refraction; the incidence cosine is
/// clamped into `[-1, 1]` by the computation itself), and total internal
/// reflection — a transmitted sine of one or more — forces it to exactly
/// one.
pub proof fn lemma_fresnel_range(i: MathVec, n: MathVec, ior: int)
    requires
        ior > 0,
    ensures
        0 <= spec_fresnel(i, n, ior) <= SCALE as int,
        spec_sint(i, n, ior) >= SCALE ==> spec_fresnel(i, n, ior) == SCALE as int,
{
    let s = SCALE as int;
    let cosi = spec_clamp(vdot(i, n), -s, s);
    let etai = if cosi > 0 {
        ior
    } else {
        s
    };
    let etat = if cosi > 0 {
        s
    } else {
        ior
    };
    let sint = spec_sint(i, n, ior);
    if sint >= s {
    } else {
        let costarg = max0(sat(s - fmul_s(sint, sint)));
        lemma_isqrt_bounds(costarg * s);
        let cost = fsqrt_s(costarg);
        let cosa = sabs(cosi);
        lemma_fmul_s_nonneg(etat, cosa);
        lemma_fmul_s_nonneg(etai, cost);
        lemma_fmul_s_nonneg(etai, cosa);
        lemma_fmul_s_nonneg(etat, cost);
        let a1 = fmul_s(etat, cosa);
        let b1 = fmul_s(etai, cost);
        let a2 = fmul_s(etai, cosa);
        let b2 = fmul_s(etat, cost);
        if sat(a1 + b1) == 0 || sat(a2 + b2) == 0 {
        } else {
            lemma_tdiv_ratio_bounded(sat(a1 - b1), sat(a1 + b1), s);
            lemma_tdiv_ratio_bounded(sat(a2 - b2), sat(a2 + b2), s);
            let rs = fdiv_s(sat(a1 - b1), sat(a1 + b1));
            let rp = fdiv_s(sat(a2 - b2), sat(a2 + b2));
            lemma_square_fraction_bounded(rs);
            lemma_square_fraction_bounded(rp);
            let sum = sat(fmul_s(rs, rs) + fmul_s(rp, rp));
            assert(sum * HALF as int <= s * s) by (nonlinear_arith)
                requires
                    0 <= sum <= 2 * (SCALE as int),
                    HALF as int * 2 == SCALE as int,
                    s == SCALE as int,
            {}
            assert(sum * HALF as int >= 0) by (nonlinear_arith)
                requires
                    sum >= 0,
            {}
            lemma_tdiv_ordered_nonneg(sum * HALF as int, s * s, s);
            vstd::arithmetic::div_mod::lemma_div_multiples_vanish(s, s);
        }
    }
}

/// Calculates Fresnel reflective transmittance.
pub fn fresnel(i: Vector3, n: Vector3, ior: i64) -> (kr: i64)
    requires
        i.wf(),
        n.wf(),
        fits(ior as int),
        ior > 0,
    ensures
        kr as int == spec_fresnel(i@, n@, ior as int),
        0 <= kr <= SCALE,
        spec_sint(i@, n@, ior as int) >= SCALE ==> kr == SCALE,
{
    proof {
        lemma_fresnel_range(i@, n@, ior as int);
    }
    let cosi = clamp(i.dot(n), -SCALE, SCALE);
    let etai = if cosi > 0 {
        ior
    } else {
        SCALE
    };
    let etat = if cosi > 0 {
        SCALE
    } else {
        ior
    };
    let sint = fmul(fdiv(etai, etat), fsqrt(pos_part(fsub(SCALE, fmul(cosi, cosi)))));
    if sint >= SCALE {
        SCALE
    } else {
        let cost = fsqrt(pos_part(fsub(SCALE, fmul(sint, sint))));
        let cosa = if cosi >= 0 {
            cosi
        } else {
            -cosi
        };
        let a1 = fmul(etat, cosa);
        let b1 = fmul(etai, cost);
        let a2 = fmul(etai, cosa);
        let b2 = fmul(etat, cost);
        let den1 = fadd(a1, b1);
        let den2 = fadd(a2, b2);
        if den1 == 0 || den2 == 0 {
            SCALE
        } else {
            let rs = fdiv(fsub(a1, b1), den1);
            let rp = fdiv(fsub(a2, b2), den2);
            fmul(fadd(fmul(rs, rs), fmul(rp, rp)), HALF)
        }
    }
}

/// The material a surface would attach to its hits.
pub open spec fn surface_material(s: MathSurface) -> Option<(int, Option<int>)> {
    match s {
        MathSurface::Sphere(sp) => sp.material,
        MathSurface::Plane(pl) => pl.material,
    }
}

/// A refractive index, when a material carries one, is positive.
pub open spec fn material_ior_pos(m: Option<(int, Option<int>)>) -> bool {
    match m {
        Some((_reflectivity, Some(ior))) => ior > 0,
        _ => true,
    }
}

/// A scene is well formed when every surface's scalars lie in the band and
/// every refractive index is positive.
pub open spec fn scene_wf(w: Seq<Surface>) -> bool {
    forall|k: int|
        0 <= k < w.len() ==> (#[trigger] w[k]).wf() && material_ior_pos(surface_material(w[k]@))
}

/// The surfaces' mathematical values, in scene order.
pub open spec fn world_model(w: Seq<Surface>) -> Seq<MathSurface> {
    w.map_values(|s: Surface| s@)
}

/// The closer of an already-chosen hit and a candidate: the candidate wins
/// only by a strictly smaller distance, so scan order breaks ties.
pub open spec fn closer(acc: Option<MathHit>, new: Option<MathHit>) -> Option<MathHit> {
    match new {
        None => acc,
        Some(h) => match acc {
            None => Some(h),
            Some(c) => if h.distance < c.distance {
                Some(h)
            } else {
                acc
            },
        },
    }
}

/// The nearest hit of a ray over a scene prefix, folded in scan order.
pub open spec fn nearest_hit(w: Seq<MathSurface>, r: MathRay) -> Option<MathHit>
    decreases w.len(),
{
    if w.len() == 0 {
        None
    } else {
        closer(nearest_hit(w.drop_last(), r), surface_hit(w.last(), r))
    }
}

/// A surface hit carries exactly the surface's own material.
pub proof fn lemma_surface_hit_material(s: MathSurface, r: MathRay)
    ensures
        surface_hit(s, r) is Some ==> (surface_hit(s, r)->Some_0).material == surface_material(s),
{
}

/// Linear scan of the scene for the nearest hit of the ray.
pub fn nearest(world: &Vec<Surface>, ray: Ray) -> (r: Option<RayHit>)
    requires
        scene_wf(world@),
        ray.wf(),
    ensures
        hit_model(r) == nearest_hit(world_model(world@), ray@),
        r is Some ==> r->Some_0.wf() && material_ior_pos((r->Some_0)@.material),
{
    let ghost m = world_model(world@);
    let mut closest: Option<RayHit> = None;
    let mut idx: usize = 0;
    while idx < world.len()
        invariant
            idx <= world@.len(),
            scene_wf(world@),
            ray.wf(),
            m == world_model(world@),
            hit_model(closest) == nearest_hit(m.take(idx as int), ray@),
            closest is Some ==> closest->Some_0.wf() && material_ior_pos(
                (closest->Some_0)@.material,
            ),
        decreases world@.len() - idx,
    {
        let obj = world[idx];
        let raycast = obj.intersect(ray);
        proof {
            lemma_surface_hit_material(world@[idx as int]@, ray@);
            assert(m.take(idx as int + 1).drop_last() =~= m.take(idx as int));
            assert(m.take(idx as int + 1).last() == m[idx as int]);
        }
        closest = match raycast {
            Some(hit) => match closest {
                Some(closest_hit) => if hit.distance() < closest_hit.distance() {
                    Some(hit)
                } else {
                    closest
                },
                None => Some(hit),
            },
            None => closest,
        };
        idx = idx + 1;
    }
    proof {
        assert(m.take(world@.len() as int) =~= m);
    }
    closest
}

/// The local illumination at a hit: ambient alone in shadow, otherwise
/// ambient plus Lambert diffuse plus Blinn-Phong specular with exponent 64.
pub open spec fn spec_shade(hit: MathHit, ray: MathRay, shadowed: bool) -> MathVec {
    let ambient = vscale(hit.color, AMBIENT_STRENGTH as int);
    if shadowed {
        ambient
    } else {
        let halfway = vnorm(vsub(light_direction(), ray.direction));
        let diffuse = vmul(
            vscale(hit.color, max0(vdot(hit.normal, light_direction()))),
            light_color(),
        );
        let specular = vscale(
            vscale(light_color(), SPECULAR_STRENGTH as int),
            spec_pow64(max0(vdot(hit.normal, halfway))),
        );
        vadd(vadd(diffuse, specular), ambient)
    }
}

/// The traced color of a ray: the background when nothing is hit, else the
/// local shade plus, below the bounce bound, the recursive reflective and
/// refractive contributions.
pub open spec fn spec_trace(depth: int, ray: MathRay, w: Seq<MathSurface>) -> MathVec
    decreases BOUNCES as int - depth, 1int,
{
    match nearest_hit(w, ray) {
        None => background(),
        Some(hit) => {
            let bias = vscale(hit.normal, HIT_BIAS as int);
            let shadow_ray = MathRay {
                origin: vadd(hit.position, bias),
                direction: light_direction(),
            };
            let shadowed = nearest_hit(w, shadow_ray) is Some;
            let base = spec_shade(hit, ray, shadowed);
            if depth < BOUNCES as int {
                spec_bounce(depth, ray, w, hit, base)
            } else {
                base
            }
        },
    }
}

/// The recursive contribution at a hit: a reflected ray always, weighted
/// by Fresnel reflectance when the material also refracts, by its plain
/// reflectivity otherwise.
pub open spec fn spec_bounce(
    depth: int,
    ray: MathRay,
    w: Seq<MathSurface>,
    hit: MathHit,
    base: MathVec,
) -> MathVec
    decreases BOUNCES as int - depth, 0int,
    when depth < BOUNCES as int
{
    match hit.material {
        None => base,
        Some((reflectivity, refract_option)) => {
            let outside = vdot(ray.direction, hit.normal) < 0;
            let bias = vscale(hit.normal, HIT_BIAS as int);
            let reflect_origin = if outside {
                vadd(hit.position, bias)
            } else {
                vsub(hit.position, bias)
            };
            let reflect_ray = MathRay {
                origin: reflect_origin,
                direction: vnorm(spec_reflect(ray.direction, hit.normal)),
            };
            let reflection_color = spec_trace(depth + 1, reflect_ray, w);
            match refract_option {
                Some(ior) => {
                    let kr = spec_fresnel(ray.direction, hit.normal, ior);
                    let refraction_color = if kr < SCALE {
                        let refract_origin = if outside {
                            vsub(hit.position, bias)
                        } else {
                            vadd(hit.position, bias)
                        };
                        let refract_ray = MathRay {
                            origin: refract_origin,
                            direction: vnorm(spec_refract(ray.direction, hit.normal, ior)),
                        };
                        spec_trace(depth + 1, refract_ray, w)
                    } else {
                        MathVec { x: 0, y: 0, z: 0 }
                    };
                    vadd(
                        vadd(base, vscale(reflection_color, kr)),
                        vscale(refraction_color, sat(SCALE - kr)),
                    )
                },
                None => vadd(base, vscale(reflection_color, reflectivity)),
            }
        },
    }
}

/// Tracing a ray that hits nothing returns exactly the configured
/// background color, at every depth.
pub proof fn lemma_trace_miss_background(depth: int, ray: MathRay, w: Seq<MathSurface>)
    requires
        nearest_hit(w, ray) is None,
    ensures
        spec_trace(depth, ray, w) == background(),
{
}

/// The shadow ray a hit casts: from the hit position nudged along the
/// normal, toward the light.
pub open spec fn shadow_ray_of(hit: MathHit) -> MathRay {
    MathRay {
        origin: vadd(hit.position, vscale(hit.normal, HIT_BIAS as int)),
        direction: light_direction(),
    }
}

/// Tracing a ray that hits a purely diffuse surface whose shadow ray is
/// blocked returns exactly the surface color scaled by the ambient
/// strength, at every depth.
pub proof fn lemma_trace_shadowed_diffuse(depth: int, ray: MathRay, w: Seq<MathSurface>)
    requires
        nearest_hit(w, ray) is Some,
        (nearest_hit(w, ray)->Some_0).material is None,
        nearest_hit(w, shadow_ray_of(nearest_hit(w, ray)->Some_0)) is Some,
    ensures
        spec_trace(depth, ray, w) == vscale(
            (nearest_hit(w, ray)->Some_0).color,
            AMBIENT_STRENGTH as int,
        ),
{
}

/// Traces a ray through the world.
pub fn trace(depth: u32, ray: Ray, world: &Vec<Surface>) -> (r: Vector3)
    requires
        depth <= BOUNCES,
        ray.wf(),
        scene_wf(world@),
    ensures
        r@ == spec_trace(depth as int, ray@, world_model(world@)),
        r.wf(),
    decreases BOUNCES - depth,
{
    // Light direction vector and color
    let light_dir = Vector3::new(SCALE, SCALE, -SCALE).normalize();
    let light_col = Vector3::new_scalar(SCALE);

    let closest_raycast = nearest(world, ray);

    // Checks if anything was hit
    match closest_raycast {
        None => {
            // Background color
            Vector3::new(BG_R, BG_G, BG_B)
        },
        Some(closest_hit) => {
            let hit_bias = closest_hit.normal().scale(HIT_BIAS);

            // Calculates shadow ray to see if we're in view of the light source
            let shadow_origin = closest_hit.position().add(hit_bias);
            let shadow_ray = Ray::new(shadow_origin, light_dir);
            let closest_shadow_raycast = nearest(world, shadow_ray);

            // Gets hit information and calculates ambient light
            let color = closest_hit.color();
            let normal = closest_hit.normal();
            let ambient = color.scale(AMBIENT_STRENGTH);

            // Checks if we're in view of the light source
            let out_base = if closest_shadow_raycast.is_some() {
                // View of light blocked
                ambient
            } else {
                // Calculates diffuse and specular lighting
                let halfway_dir = light_dir.sub(ray.direction()).normalize();
                let diffuse = color.scale(pos_part(normal.dot(light_dir))).mul(light_col);
                let specular = light_col.scale(SPECULAR_STRENGTH).scale(
                    pow64(pos_part(normal.dot(halfway_dir))),
                );
                diffuse.add(specular).add(ambient)
            };

            // Checks if this raycast exceeds our bounce limit
            if depth < BOUNCES {
                // Checks if the surface is reflectable
                match closest_hit.reflection_and_refraction_index() {
                    None => out_base,
                    Some((reflect_index, refract_option)) => {
                        // Checks if we're outside the surface
                        let outside = ray.direction().dot(closest_hit.normal()) < 0;

                        // Calculates the reflection vector and traces it
                        let reflect_origin = if outside {
                            closest_hit.position().add(hit_bias)
                        } else {
                            closest_hit.position().sub(hit_bias)
                        };
                        let reflect_ray = Ray::new(
                            reflect_origin,
                            reflect(ray.direction(), normal).normalize(),
                        );
                        let reflection_color = trace(depth + 1, reflect_ray, world);

                        // Checks if the surface is refractable
                        match refract_option {
                            Some(refract_index) => {
                                // Calculates the reflective transmittance
                                let kr = fresnel(ray.direction(), normal, refract_index);

                                // Checks if the surface has total internal reflection
                                let refraction_color = if kr < SCALE {
                                    // Calculates the refraction vector and traces it
                                    let refract_origin = if outside {
                                        closest_hit.position().sub(hit_bias)
                                    } else {
                                        closest_hit.position().add(hit_bias)
                                    };
                                    let refract_ray = Ray::new(
                                        refract_origin,
                                        refract(ray.direction(), normal, refract_index).normalize(),
                                    );
                                    trace(depth + 1, refract_ray, world)
                                } else {
                                    Vector3::origin()
                                };

                                // Adds the reflection and refraction color information
                                out_base.add(reflection_color.scale(kr)).add(
                                    refraction_color.scale(fsub(SCALE, kr)),
                                )
                            },
                            None => {
                                // Adds the reflection color information
                                out_base.add(reflection_color.scale(reflect_index))
                            },
                        }
                    },
                }
            } else {
                out_base
            }
        },
    }
}

/// A traced color channel scaled to a byte: multiplied by 255, rescaled,
/// and clamped into `[0, 255]`.
pub open spec fn spec_channel_byte(c: int) -> u8 {
    let v = tdiv(sat(255 * c), SCALE as int);
    if v < 0 {
        0
    } else if v > 255 {
        255
    } else {
        v as u8
    }
}

/// A traced color as an opaque pixel, channel by channel.
pub open spec fn spec_tone_map(c: MathVec) -> MathPixel {
    MathPixel {
        r: spec_channel_byte(c.x),
        g: spec_channel_byte(c.y),
        b: spec_channel_byte(c.z),
        a: 255,
    }
}

/// Scale a traced channel to a byte, executably.
pub fn channel_byte(c: i64) -> (r: u8)
    requires
        fits(c as int),
    ensures
        r == spec_channel_byte(c as int),
{
    let m = fmuli(255, c);
    if m < 0 {
        proof {
            vstd::arithmetic::div_mod::lemma_div_pos_is_pos(sabs(m as int), SCALE as int);
        }
        0
    } else {
        let v = (m as u64) / (SCALE as u64);
        if v > 255 {
            255
        } else {
            v as u8
        }
    }
}

/// The primary ray of a pixel: the camera direction nudged right and down
/// by the pixel's offsets across the viewport, renormalized.
pub open spec fn spec_primary_ray(x: int, y: int, width: int, height: int, cam: MathCamera)
    -> MathRay {
    let aspect = fdiv_s(sat(width * SCALE), sat(height * SCALE));
    let half_width = cam.half_width;
    let half_height = fmul_s(fdiv_s(SCALE as int, aspect), half_width);
    let camera_width = sat(2 * half_width);
    let camera_height = sat(2 * half_height);
    let pixel_width = fdiv_s(camera_width, sat((width - 1) * SCALE));
    let pixel_height = fdiv_s(camera_height, sat((height - 1) * SCALE));
    let x_vec = vscale(
        vcross(cam.up, vnorm(cam.direction)),
        sat(sat(x * pixel_width) - half_width),
    );
    let y_vec = vscale(vneg(cam.up), sat(sat(y * pixel_height) - half_height));
    MathRay { origin: cam.position, direction: vnorm(vadd(vadd(cam.direction, x_vec), y_vec)) }
}

/// The rendered value of one pixel: its primary ray traced from depth
/// zero, tone mapped.
pub open spec fn spec_trace_pixel(
    x: int,
    y: int,
    width: int,
    height: int,
    cam: MathCamera,
    w: Seq<MathSurface>,
) -> MathPixel {
    spec_tone_map(spec_trace(0, spec_primary_ray(x, y, width, height, cam), w))
}

/// Traces a given pixel of the viewport.
pub fn trace_pixel(
    x: u32,
    y: u32,
    width: u32,
    height: u32,
    camera: &Camera,
    world: &Vec<Surface>,
) -> (p: Pixel)
    requires
        2 <= width <= 16384,
        2 <= height <= 16384,
        x < width,
        y < height,
        camera.wf(),
        scene_wf(world@),
    ensures
        p@ == spec_trace_pixel(
            x as int,
            y as int,
            width as int,
            height as int,
            camera@,
            world_model(world@),
        ),
{
    // Calculates viewport information
    let wfp = fmuli(width as i64, SCALE);
    let hfp = fmuli(height as i64, SCALE);
    let aspect = fdiv(wfp, hfp);
    proof {
        let ws = (width as int) * (SCALE as int);
        let hs = (height as int) * (SCALE as int);
        assert(hs <= ws * SCALE as int) by (nonlinear_arith)
            requires
                2 <= width <= 16384,
                2 <= height <= 16384,
                ws == (width as int) * (SCALE as int),
                hs == (height as int) * (SCALE as int),
        {}
        vstd::arithmetic::div_mod::lemma_div_is_ordered(hs, ws * SCALE as int, hs);
        vstd::arithmetic::div_mod::lemma_div_multiples_vanish(1, hs);
        assert(hs * 1 == hs) by (nonlinear_arith);
    }
    let cam_right = camera.up().cross(camera.direction().normalize());
    let half_width = camera.half_width();
    let half_height = fmul(fdiv(SCALE, aspect), half_width);
    let camera_width = fmuli(2, half_width);
    let camera_height = fmuli(2, half_height);
    let pixel_width = fdiv(camera_width, fmuli(width as i64 - 1, SCALE));
    let pixel_height = fdiv(camera_height, fmuli(height as i64 - 1, SCALE));

    // Calculates x and y vector offsets
    let x_vec = cam_right.scale(fsub(fmuli(x as i64, pixel_width), half_width));
    let y_vec = camera.up().neg().scale(fsub(fmuli(y as i64, pixel_height), half_height));

    // Generates pixel ray
    let ray = Ray::new(camera.position(), camera.direction().add(x_vec).add(y_vec).normalize());

    // Traces the ray and converts the color from fixed point to bytes
    let color = trace(0, ray, world);
    Pixel::new(channel_byte(color.x), channel_byte(color.y), channel_byte(color.z), 255)
}

/// Traces a given chunk of pixels: the `len` pixels whose flat row-major
/// indices start at `start`.
pub fn trace_chunk(
    start: u32,
    len: u32,
    width: u32,
    height: u32,
    camera: &Camera,
    world: &Vec<Surface>,
) -> (chunk: Vec<Pixel>)
    requires
        2 <= width <= 16384,
        2 <= height <= 16384,
        start + len <= (width as int) * (height as int),
        camera.wf(),
        scene_wf(world@),
    ensures
        chunk@.len() == len as int,
        forall|i: int|
            0 <= i < len as int ==> (#[trigger] chunk@[i])@ == spec_trace_pixel(
                (start + i) % (width as int),
                (start + i) / (width as int),
                width as int,
                height as int,
                camera@,
                world_model(world@),
            ),
{
    proof {
        assert((width as int) * (height as int) <= 16384 * 16384) by (nonlinear_arith)
            requires
                2 <= width <= 16384,
                2 <= height <= 16384,
        {}
    }
    let mut chunk: Vec<Pixel> = Vec::new();
    let mut i: u32 = 0;
    while i < len
        invariant
            i <= len,
            2 <= width <= 16384,
            2 <= height <= 16384,
            start + len <= (width as int) * (height as int),
            (width as int) * (height as int) <= 16384 * 16384,
            camera.wf(),
            scene_wf(world@),
            chunk@.len() == i as int,
            forall|j: int|
                0 <= j < i as int ==> (#[trigger] chunk@[j])@ == spec_trace_pixel(
                    (start + j) % (width as int),
                    (start + j) / (width as int),
                    width as int,
                    height as int,
                    camera@,
                    world_model(world@),
                ),
        decreases len - i,
    {
        let idx = start + i;
        let x = idx % width;
        let y = idx / width;
        proof {
            let wi = width as int;
            let hi = height as int;
            vstd::arithmetic::div_mod::lemma_div_is_ordered(idx as int, wi * hi - 1, wi);
            assert(wi * hi - 1 == wi * (hi - 1) + (wi - 1)) by (nonlinear_arith);
            vstd::arithmetic::div_mod::lemma_div_multiples_vanish_fancy(hi - 1, wi - 1, wi);
        }
        let p = trace_pixel(x, y, width, height, camera, world);
        chunk.push(p);
        i = i + 1;
    }
    chunk
}

} // verus!
