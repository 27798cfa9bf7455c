//! Three-component vectors over fixed-point scalars, used uniformly for
//! positions, directions, normals and colors.
//!
//! Each executable operation is pinned to a spec-level mirror over
//! `MathVec`, the mathematical value of a vector: the contracts say exactly
//! which integer every component holds, including the saturation and the
//! truncating rescale of the fixed-point representation.

use vstd::prelude::*;

use crate::fixed::{fadd, fdiv, fmul, fsqrt, fsub};
use crate::fixed::{fdiv_s, fits, fmul_s, fsqrt_s, sat, tdiv, SCALE};

verus! {

/// The mathematical value of a `Vector3`: three unbounded integers, each
/// standing for `component / SCALE`.
pub struct MathVec {
    pub x: int,
    pub y: int,
    pub z: int,
}

/// Componentwise saturating sum.
pub open spec fn vadd(a: MathVec, b: MathVec) -> MathVec {
    MathVec { x: sat(a.x + b.x), y: sat(a.y + b.y), z: sat(a.z + b.z) }
}

/// Componentwise saturating difference.
pub open spec fn vsub(a: MathVec, b: MathVec) -> MathVec {
    MathVec { x: sat(a.x - b.x), y: sat(a.y - b.y), z: sat(a.z - b.z) }
}

/// Componentwise fixed-point product.
pub open spec fn vmul(a: MathVec, b: MathVec) -> MathVec {
    MathVec { x: fmul_s(a.x, b.x), y: fmul_s(a.y, b.y), z: fmul_s(a.z, b.z) }
}

/// Product with a fixed-point scalar.
pub open spec fn vscale(a: MathVec, s: int) -> MathVec {
    MathVec { x: fmul_s(a.x, s), y: fmul_s(a.y, s), z: fmul_s(a.z, s) }
}

/// Componentwise negation; the band is symmetric, so this is exact.
pub open spec fn vneg(a: MathVec) -> MathVec {
    MathVec { x: -a.x, y: -a.y, z: -a.z }
}

/// The exact, unrescaled sum of componentwise products.
pub open spec fn dot_exact(a: MathVec, b: MathVec) -> int {
    a.x * b.x + a.y * b.y + a.z * b.z
}

/// Fixed-point dot product: the exact sum of products, rescaled once.
pub open spec fn vdot(a: MathVec, b: MathVec) -> int {
    sat(tdiv(dot_exact(a, b), SCALE as int))
}

/// Right-handed cross product, each term rounded as the code rounds it.
pub open spec fn vcross(a: MathVec, b: MathVec) -> MathVec {
    MathVec {
        x: sat(fmul_s(a.y, b.z) - fmul_s(a.z, b.y)),
        y: sat(fmul_s(a.z, b.x) - fmul_s(a.x, b.z)),
        z: sat(fmul_s(a.x, b.y) - fmul_s(a.y, b.x)),
    }
}

/// Length: rounded-down square root of the squared length.
pub open spec fn vlen(a: MathVec) -> int {
    fsqrt_s(vdot(a, a))
}

/// Normalization: each component divided by the length in one step, to keep
/// the rounding tight; the zero vector is left at the origin, the guarded
/// choice for degenerate input.
pub open spec fn vnorm(a: MathVec) -> MathVec {
    let l = vlen(a);
    if l == 0 {
        MathVec { x: 0, y: 0, z: 0 }
    } else {
        MathVec { x: fdiv_s(a.x, l), y: fdiv_s(a.y, l), z: fdiv_s(a.z, l) }
    }
}

/// A vector fits when all three components lie in the scalar band.
pub open spec fn vfits(a: MathVec) -> bool {
    fits(a.x) && fits(a.y) && fits(a.z)
}

/// Vector3 holds three fixed-point scalars.
#[derive(Debug, Copy, Clone)]
pub struct Vector3 {
    pub x: i64,
    pub y: i64,
    pub z: i64,
}

impl View for Vector3 {
    type V = MathVec;

    open spec fn view(&self) -> MathVec {
        MathVec { x: self.x as int, y: self.y as int, z: self.z as int }
    }
}

pub proof fn lemma_dot_self_nonneg(a: MathVec)
    ensures
        vdot(a, a) >= 0,
{
    assert(a.x * a.x >= 0) by (nonlinear_arith);
    assert(a.y * a.y >= 0) by (nonlinear_arith);
    assert(a.z * a.z >= 0) by (nonlinear_arith);
    let p = a.x * a.x + a.y * a.y + a.z * a.z;
    assert(tdiv(p, SCALE as int) >= 0) by (nonlinear_arith)
        requires
            p >= 0,
    {}
}

/// Negating the left argument of a dot product negates the result exactly:
/// truncating division and saturation are both symmetric about zero.
pub proof fn lemma_vdot_neg_left(a: MathVec, b: MathVec)
    ensures
        vdot(vneg(a), b) == -vdot(a, b),
{
    assert((-a.x) * b.x == -(a.x * b.x)) by (nonlinear_arith);
    assert((-a.y) * b.y == -(a.y * b.y)) by (nonlinear_arith);
    assert((-a.z) * b.z == -(a.z * b.z)) by (nonlinear_arith);
}

/// The dot product is symmetric in its arguments.
pub proof fn lemma_vdot_comm(a: MathVec, b: MathVec)
    ensures
        vdot(a, b) == vdot(b, a),
{
    assert(a.x * b.x == b.x * a.x) by (nonlinear_arith);
    assert(a.y * b.y == b.y * a.y) by (nonlinear_arith);
    assert(a.z * b.z == b.z * a.z) by (nonlinear_arith);
}

impl Vector3 {
    /// All components lie in the scalar band.
    pub open spec fn wf(self) -> bool {
        vfits(self@)
    }

    /// The origin vector.
    pub fn origin() -> (r: Vector3)
        ensures
            r@ == (MathVec { x: 0, y: 0, z: 0 }),
            r.wf(),
    {
        Vector3 { x: 0, y: 0, z: 0 }
    }

    /// A vector with the three given fixed-point coordinates.
    pub fn new(x: i64, y: i64, z: i64) -> (r: Vector3)
        requires
            fits(x as int),
            fits(y as int),
            fits(z as int),
        ensures
            r@ == (MathVec { x: x as int, y: y as int, z: z as int }),
            r.wf(),
    {
        Vector3 { x, y, z }
    }

    /// A vector with the same scalar in all three slots.
    pub fn new_scalar(n: i64) -> (r: Vector3)
        requires
            fits(n as int),
        ensures
            r@ == (MathVec { x: n as int, y: n as int, z: n as int }),
            r.wf(),
    {
        Vector3 { x: n, y: n, z: n }
    }

    /// Fixed-point dot product of two vectors.
    pub fn dot(self, other: Vector3) -> (r: i64)
        requires
            self.wf(),
            other.wf(),
        ensures
            r as int == vdot(self@, other@),
            fits(r as int),
    {
        proof {
            crate::fixed::lemma_mul_bounds(
                self@.x,
                other@.x,
                crate::fixed::MAX_FP as int,
                crate::fixed::MAX_FP as int,
            );
            crate::fixed::lemma_mul_bounds(
                self@.y,
                other@.y,
                crate::fixed::MAX_FP as int,
                crate::fixed::MAX_FP as int,
            );
            crate::fixed::lemma_mul_bounds(
                self@.z,
                other@.z,
                crate::fixed::MAX_FP as int,
                crate::fixed::MAX_FP as int,
            );
        }
        let p: i128 = (self.x as i128) * (other.x as i128) + (self.y as i128) * (other.y as i128)
            + (self.z as i128) * (other.z as i128);
        crate::fixed::rescale(p)
    }

    /// Length of the vector: square root of the dot with itself.
    pub fn len(self) -> (r: i64)
        requires
            self.wf(),
        ensures
            r as int == vlen(self@),
            0 <= r,
            fits(r as int),
    {
        let d = self.dot(self);
        proof {
            lemma_dot_self_nonneg(self@);
        }
        fsqrt(d)
    }

    /// Right-handed cross product.
    pub fn cross(self, other: Vector3) -> (r: Vector3)
        requires
            self.wf(),
            other.wf(),
        ensures
            r@ == vcross(self@, other@),
            r.wf(),
    {
        Vector3 {
            x: fsub(fmul(self.y, other.z), fmul(self.z, other.y)),
            y: fsub(fmul(self.z, other.x), fmul(self.x, other.z)),
            z: fsub(fmul(self.x, other.y), fmul(self.y, other.x)),
        }
    }

    /// Normalization; the zero vector is returned unchanged, the guarded
    /// choice for degenerate input.
    pub fn normalize(self) -> (r: Vector3)
        requires
            self.wf(),
        ensures
            r@ == vnorm(self@),
            r.wf(),
    {
        let l = self.len();
        if l == 0 {
            Vector3::origin()
        } else {
            Vector3 { x: fdiv(self.x, l), y: fdiv(self.y, l), z: fdiv(self.z, l) }
        }
    }

    /// Componentwise saturating sum.
    pub fn add(self, rhs: Vector3) -> (r: Vector3)
        requires
            self.wf(),
            rhs.wf(),
        ensures
            r@ == vadd(self@, rhs@),
            r.wf(),
    {
        Vector3 { x: fadd(self.x, rhs.x), y: fadd(self.y, rhs.y), z: fadd(self.z, rhs.z) }
    }

    /// Componentwise saturating difference.
    pub fn sub(self, rhs: Vector3) -> (r: Vector3)
        requires
            self.wf(),
            rhs.wf(),
        ensures
            r@ == vsub(self@, rhs@),
            r.wf(),
    {
        Vector3 { x: fsub(self.x, rhs.x), y: fsub(self.y, rhs.y), z: fsub(self.z, rhs.z) }
    }

    /// Componentwise fixed-point product.
    pub fn mul(self, rhs: Vector3) -> (r: Vector3)
        requires
            self.wf(),
            rhs.wf(),
        ensures
            r@ == vmul(self@, rhs@),
            r.wf(),
    {
        Vector3 { x: fmul(self.x, rhs.x), y: fmul(self.y, rhs.y), z: fmul(self.z, rhs.z) }
    }

    /// Product with a fixed-point scalar.
    pub fn scale(self, rhs: i64) -> (r: Vector3)
        requires
            self.wf(),
            fits(rhs as int),
        ensures
            r@ == vscale(self@, rhs as int),
            r.wf(),
    {
        Vector3 { x: fmul(self.x, rhs), y: fmul(self.y, rhs), z: fmul(self.z, rhs) }
    }

    /// Componentwise negation, exact in the symmetric band.
    pub fn neg(self) -> (r: Vector3)
        requires
            self.wf(),
        ensures
            r@ == vneg(self@),
            r.wf(),
    {
        Vector3 { x: -self.x, y: -self.y, z: -self.z }
    }

}

} // verus!
