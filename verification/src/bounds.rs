//! Axis-aligned bounding boxes.
//!
//! A box is a min/max pair of points in a shape's object space. Boxes of
//! unbounded shapes carry the saturation bound as an infinity sentinel;
//! `is_finite` tells such boxes apart from real ones.

use crate::math::{fxdiv, fxmax, fxmin, fxmul, fxsub, Fx, EPSILON_RAW, HUGE_RAW, MAX_RAW};
use crate::matrix::{mvmul, Matrix};
use crate::ray::Ray;
use crate::vec4::Vec4;
use vstd::prelude::*;

verus! {

#[derive(Clone, Copy, Debug)]
pub struct Bounds {
    pub min: Vec4,
    pub max: Vec4,
}

/// A coordinate small enough to count as finite.
pub open spec fn finite_coord(a: Fx) -> bool {
    -HUGE_RAW < a.raw && a.raw < HUGE_RAW
}

/// All six coordinates are finite.
pub open spec fn bounds_finite(b: Bounds) -> bool {
    finite_coord(b.min.x) && finite_coord(b.min.y) && finite_coord(b.min.z) && finite_coord(
        b.max.x,
    ) && finite_coord(b.max.y) && finite_coord(b.max.z)
}

/// Both corners carried by the matrix.
pub open spec fn btransform(b: Bounds, m: Matrix) -> Bounds {
    Bounds { min: mvmul(m, b.min), max: mvmul(m, b.max) }
}

/// The entry/exit parameters of a ray against one slab. A near-zero
/// direction sends the numerators to the saturation bound, so a parallel
/// ray outside the slab gets an empty window.
pub open spec fn check_axis_spec(min_axis: Fx, max_axis: Fx, origin: Fx, direction: Fx) -> (
    Fx,
    Fx,
) {
    let tmin_num = fxsub(min_axis, origin);
    let tmax_num = fxsub(max_axis, origin);
    let pair = if direction.raw >= EPSILON_RAW || direction.raw <= -EPSILON_RAW {
        (fxdiv(tmin_num, direction), fxdiv(tmax_num, direction))
    } else {
        (fxmul(tmin_num, Fx { raw: MAX_RAW }), fxmul(tmax_num, Fx { raw: MAX_RAW }))
    };
    if pair.0.raw > pair.1.raw {
        (pair.1, pair.0)
    } else {
        pair
    }
}

/// The ray's slab windows across x, y and z overlap.
pub open spec fn bounds_hit(b: Bounds, r: Ray) -> bool {
    let xt = check_axis_spec(b.min.x, b.max.x, r.origin.x, r.direction.x);
    let yt = check_axis_spec(b.min.y, b.max.y, r.origin.y, r.direction.y);
    let zt = check_axis_spec(b.min.z, b.max.z, r.origin.z, r.direction.z);
    let tmin = fxmax(fxmax(xt.0, yt.0), zt.0);
    let tmax = fxmin(fxmin(xt.1, yt.1), zt.1);
    tmin.raw <= tmax.raw
}

impl Bounds {
    pub fn new(min: Vec4, max: Vec4) -> (b: Bounds)
        ensures
            b == (Bounds { min, max }),
    {
        Bounds { min, max }
    }

    pub fn transform(&self, transformation: &Matrix) -> (b: Bounds)
        ensures
            b == btransform(*self, *transformation),
    {
        Bounds { min: transformation.mul_vec(&self.min), max: transformation.mul_vec(&self.max) }
    }

    pub fn is_finite(&self) -> (r: bool)
        ensures
            r == bounds_finite(*self),
    {
        finite_exec(self.min.x) && finite_exec(self.min.y) && finite_exec(self.min.z)
            && finite_exec(self.max.x) && finite_exec(self.max.y) && finite_exec(self.max.z)
    }

    pub fn check_axis(min_axis: Fx, max_axis: Fx, origin: Fx, direction: Fx) -> (r: (Fx, Fx))
        ensures
            r == check_axis_spec(min_axis, max_axis, origin, direction),
    {
        let tmin_num = min_axis.sub(origin);
        let tmax_num = max_axis.sub(origin);
        let (tmin, tmax) = if direction.raw >= EPSILON_RAW || direction.raw <= -EPSILON_RAW {
            (tmin_num.div(direction), tmax_num.div(direction))
        } else {
            (tmin_num.mul(Fx { raw: MAX_RAW }), tmax_num.mul(Fx { raw: MAX_RAW }))
        };
        if tmin.raw > tmax.raw {
            (tmax, tmin)
        } else {
            (tmin, tmax)
        }
    }

    /// Whether the ray meets the box.
    pub fn intersection(&self, ray: &Ray) -> (r: bool)
        ensures
            r == bounds_hit(*self, *ray),
    {
        let xt = Bounds::check_axis(self.min.x, self.max.x, ray.origin.x, ray.direction.x);
        let yt = Bounds::check_axis(self.min.y, self.max.y, ray.origin.y, ray.direction.y);
        let zt = Bounds::check_axis(self.min.z, self.max.z, ray.origin.z, ray.direction.z);
        let tmin = xt.0.max(yt.0).max(zt.0);
        let tmax = xt.1.min(yt.1).min(zt.1);
        tmin.raw <= tmax.raw
    }
}

fn finite_exec(a: Fx) -> (r: bool)
    ensures
        r == finite_coord(a),
{
    -HUGE_RAW < a.raw && a.raw < HUGE_RAW
}

impl PartialEq for Bounds {
    /// Approximate equality of both corners.
    fn eq(&self, other: &Self) -> (r: bool) {
        crate::math::ApproxEq::approx_eq(&self.min, &other.min)
            && crate::math::ApproxEq::approx_eq(&self.max, &other.max)
    }
}

impl vstd::std_specs::cmp::PartialEqSpecImpl for Bounds {
    open spec fn obeys_eq_spec() -> bool {
        true
    }

    open spec fn eq_spec(&self, other: &Self) -> bool {
        crate::vec4::vapprox(self.min, other.min) && crate::vec4::vapprox(self.max, other.max)
    }
}

} // verus!
