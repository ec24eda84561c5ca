//! Homogeneous 4-component tuples: points (`w == 1`) and vectors (`w == 0`).
//!
//! Equality (`==`) is approximate, component-wise within the geometric
//! tolerance, as geometric results are compared after rounding.

use crate::math::{
    approx, fxadd, fxdiv, fxmul, fxneg, fxsqrt, fxsub, ApproxEq, Fx, SCALE,
};
use vstd::prelude::*;

verus! {

#[derive(Clone, Copy, Debug)]
pub struct Vec4 {
    pub x: Fx,
    pub y: Fx,
    pub z: Fx,
    pub w: Fx,
}

/// Component-wise sum.
pub open spec fn vadd(a: Vec4, b: Vec4) -> Vec4 {
    Vec4 { x: fxadd(a.x, b.x), y: fxadd(a.y, b.y), z: fxadd(a.z, b.z), w: fxadd(a.w, b.w) }
}

/// Component-wise difference.
pub open spec fn vsub(a: Vec4, b: Vec4) -> Vec4 {
    Vec4 { x: fxsub(a.x, b.x), y: fxsub(a.y, b.y), z: fxsub(a.z, b.z), w: fxsub(a.w, b.w) }
}

/// Component-wise negation.
pub open spec fn vneg(a: Vec4) -> Vec4 {
    Vec4 { x: fxneg(a.x), y: fxneg(a.y), z: fxneg(a.z), w: fxneg(a.w) }
}

/// Every component scaled by one factor.
pub open spec fn vscale(a: Vec4, s: Fx) -> Vec4 {
    Vec4 { x: fxmul(a.x, s), y: fxmul(a.y, s), z: fxmul(a.z, s), w: fxmul(a.w, s) }
}

/// Every component divided by one factor.
pub open spec fn vdivide(a: Vec4, s: Fx) -> Vec4 {
    Vec4 { x: fxdiv(a.x, s), y: fxdiv(a.y, s), z: fxdiv(a.z, s), w: fxdiv(a.w, s) }
}

/// The four-component dot product, summed left to right.
pub open spec fn vdot(a: Vec4, b: Vec4) -> Fx {
    fxadd(fxadd(fxadd(fxmul(a.x, b.x), fxmul(a.y, b.y)), fxmul(a.z, b.z)), fxmul(a.w, b.w))
}

/// The three-component cross product, a vector.
pub open spec fn vcross(a: Vec4, b: Vec4) -> Vec4 {
    Vec4 {
        x: fxsub(fxmul(a.y, b.z), fxmul(a.z, b.y)),
        y: fxsub(fxmul(a.z, b.x), fxmul(a.x, b.z)),
        z: fxsub(fxmul(a.x, b.y), fxmul(a.y, b.x)),
        w: Fx { raw: 0 },
    }
}

/// The Euclidean length over all four components.
pub open spec fn vmagnitude(a: Vec4) -> Fx {
    fxsqrt(vdot(a, a))
}

/// The tuple scaled to length one; the zero tuple stays zero (every
/// component of a division by zero is zero).
pub open spec fn vnorm(a: Vec4) -> Vec4 {
    vdivide(a, vmagnitude(a))
}

/// The reflection of `a` about the normal `n`: `a - n * 2 * dot(a, n)`.
pub open spec fn vreflect(a: Vec4, n: Vec4) -> Vec4 {
    vsub(a, vscale(n, fxmul(Fx { raw: (2 * SCALE) as i64 }, vdot(a, n))))
}

/// All components approximately equal.
pub open spec fn vapprox(a: Vec4, b: Vec4) -> bool {
    approx(a.x, b.x) && approx(a.y, b.y) && approx(a.z, b.z) && approx(a.w, b.w)
}

impl Vec4 {
    pub fn new(x: Fx, y: Fx, z: Fx, w: Fx) -> (v: Vec4)
        ensures
            v == (Vec4 { x, y, z, w }),
    {
        Vec4 { x, y, z, w }
    }

    pub fn from_array(a: [Fx; 4]) -> (v: Vec4)
        ensures
            v == (Vec4 { x: a[0], y: a[1], z: a[2], w: a[3] }),
    {
        Vec4 { x: a[0], y: a[1], z: a[2], w: a[3] }
    }

    /// A point: `w == 1`.
    pub fn point(x: Fx, y: Fx, z: Fx) -> (v: Vec4)
        ensures
            v == (Vec4 { x, y, z, w: Fx { raw: SCALE } }),
    {
        Vec4 { x, y, z, w: Fx { raw: SCALE } }
    }

    /// A direction: `w == 0`.
    pub fn vector(x: Fx, y: Fx, z: Fx) -> (v: Vec4)
        ensures
            v == (Vec4 { x, y, z, w: Fx { raw: 0 } }),
    {
        Vec4 { x, y, z, w: Fx { raw: 0 } }
    }

    pub fn add(self, rhs: Vec4) -> (v: Vec4)
        ensures
            v == vadd(self, rhs),
    {
        Vec4 { x: self.x.add(rhs.x), y: self.y.add(rhs.y), z: self.z.add(rhs.z), w: self.w.add(rhs.w) }
    }

    pub fn sub(self, rhs: Vec4) -> (v: Vec4)
        ensures
            v == vsub(self, rhs),
    {
        Vec4 { x: self.x.sub(rhs.x), y: self.y.sub(rhs.y), z: self.z.sub(rhs.z), w: self.w.sub(rhs.w) }
    }

    pub fn neg(self) -> (v: Vec4)
        ensures
            v == vneg(self),
    {
        Vec4 { x: self.x.neg(), y: self.y.neg(), z: self.z.neg(), w: self.w.neg() }
    }

    pub fn scale(self, s: Fx) -> (v: Vec4)
        ensures
            v == vscale(self, s),
    {
        Vec4 { x: self.x.mul(s), y: self.y.mul(s), z: self.z.mul(s), w: self.w.mul(s) }
    }

    pub fn divide(self, s: Fx) -> (v: Vec4)
        ensures
            v == vdivide(self, s),
    {
        Vec4 { x: self.x.div(s), y: self.y.div(s), z: self.z.div(s), w: self.w.div(s) }
    }

    pub fn dot(self, rhs: &Vec4) -> (r: Fx)
        ensures
            r == vdot(self, *rhs),
    {
        self.x.mul(rhs.x).add(self.y.mul(rhs.y)).add(self.z.mul(rhs.z)).add(self.w.mul(rhs.w))
    }

    pub fn cross(self, rhs: &Vec4) -> (v: Vec4)
        ensures
            v == vcross(self, *rhs),
    {
        Vec4 {
            x: self.y.mul(rhs.z).sub(self.z.mul(rhs.y)),
            y: self.z.mul(rhs.x).sub(self.x.mul(rhs.z)),
            z: self.x.mul(rhs.y).sub(self.y.mul(rhs.x)),
            w: Fx { raw: 0 },
        }
    }

    pub fn magnitude(self) -> (r: Fx)
        ensures
            r == vmagnitude(self),
    {
        self.dot(&self).sqrt()
    }

    pub fn norm(self) -> (v: Vec4)
        ensures
            v == vnorm(self),
    {
        let m = self.magnitude();
        self.divide(m)
    }

    pub fn norm_mut(&mut self)
        ensures
            *final(self) == vnorm(*old(self)),
    {
        *self = self.norm();
    }

    pub fn reflect(self, n: &Vec4) -> (v: Vec4)
        ensures
            v == vreflect(self, *n),
    {
        let d = self.dot(n);
        let two = Fx { raw: 2 * SCALE };
        self.sub(n.scale(two.mul(d)))
    }
}

impl PartialEq for Vec4 {
    /// Approximate equality, component-wise.
    fn eq(&self, other: &Self) -> (r: bool) {
        self.x.approx_eq(&other.x) && self.y.approx_eq(&other.y) && self.z.approx_eq(&other.z)
            && self.w.approx_eq(&other.w)
    }
}

impl vstd::std_specs::cmp::PartialEqSpecImpl for Vec4 {
    open spec fn obeys_eq_spec() -> bool {
        true
    }

    open spec fn eq_spec(&self, other: &Self) -> bool {
        vapprox(*self, *other)
    }
}

impl ApproxEq for Vec4 {
    open spec fn approx_spec(&self, other: &Self) -> bool {
        vapprox(*self, *other)
    }

    fn approx_eq(&self, other: &Self) -> (r: bool)
        ensures
            r == self.approx_spec(other),
    {
        self.x.approx_eq(&other.x) && self.y.approx_eq(&other.y) && self.z.approx_eq(&other.z)
            && self.w.approx_eq(&other.w)
    }
}

} // verus!
