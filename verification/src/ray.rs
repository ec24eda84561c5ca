//! Rays: an origin point and a direction vector.

use crate::math::Fx;
use crate::matrix::{mvmul, Matrix};
use crate::vec4::{vadd, vapprox, vneg, vscale, Vec4};
use vstd::prelude::*;

verus! {

#[derive(Clone, Copy, Debug)]
pub struct Ray {
    pub origin: Vec4,
    pub direction: Vec4,
}

/// The point at parameter `t`: `origin + direction * t`.
pub open spec fn rposition(r: Ray, t: Fx) -> Vec4 {
    vadd(r.origin, vscale(r.direction, t))
}

/// The ray carried into another frame: both parts mapped by the matrix.
pub open spec fn rtransform(r: Ray, m: Matrix) -> Ray {
    Ray { origin: mvmul(m, r.origin), direction: mvmul(m, r.direction) }
}

/// The ray with its direction reversed.
pub open spec fn rneg(r: Ray) -> Ray {
    Ray { origin: r.origin, direction: vneg(r.direction) }
}

impl Ray {
    pub fn new(x: Fx, y: Fx, z: Fx, dx: Fx, dy: Fx, dz: Fx) -> (r: Ray)
        ensures
            r == (Ray { origin: Vec4 { x, y, z, w: Fx { raw: crate::math::SCALE } },
                direction: Vec4 { x: dx, y: dy, z: dz, w: Fx { raw: 0 } } }),
    {
        Ray { origin: Vec4::point(x, y, z), direction: Vec4::vector(dx, dy, dz) }
    }

    pub fn from_vec4(origin: Vec4, direction: Vec4) -> (r: Ray)
        ensures
            r == (Ray { origin, direction }),
    {
        Ray { origin, direction }
    }

    pub fn position(&self, t: Fx) -> (p: Vec4)
        ensures
            p == rposition(*self, t),
    {
        self.origin.add(self.direction.scale(t))
    }

    pub fn transform(&self, mat: &Matrix) -> (r: Ray)
        ensures
            r == rtransform(*self, *mat),
    {
        Ray { origin: mat.mul_vec(&self.origin), direction: mat.mul_vec(&self.direction) }
    }

    pub fn neg(&self) -> (r: Ray)
        ensures
            r == rneg(*self),
    {
        Ray { origin: self.origin, direction: self.direction.neg() }
    }

    pub fn neg_mut(&mut self)
        ensures
            *final(self) == rneg(*old(self)),
    {
        self.direction = self.direction.neg();
    }
}

impl PartialEq for Ray {
    /// Approximate equality of both parts.
    fn eq(&self, other: &Self) -> (r: bool) {
        self.origin == other.origin && self.direction == other.direction
    }
}

impl vstd::std_specs::cmp::PartialEqSpecImpl for Ray {
    open spec fn obeys_eq_spec() -> bool {
        true
    }

    open spec fn eq_spec(&self, other: &Self) -> bool {
        vapprox(self.origin, other.origin) && vapprox(self.direction, other.direction)
    }
}

} // verus!
