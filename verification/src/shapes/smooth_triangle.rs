//! Smooth triangles: per-corner normals, interpolated by the barycentric
//! coordinates recorded on each hit.

use super::triangle::{corner_bounds, mt_hit, mt_hit_spec};
use super::Shape;
use crate::intersection::Intersection;
use crate::material::Material;
use crate::math::{fxadd, fxmul, fxsub, Fx, SCALE};
use crate::matrix::{eye_spec, Matrix};
use crate::ray::Ray;
use crate::vec4::{vadd, vcross, vnorm, vscale, vsub, Vec4};
use crate::bounds::Bounds;
use vstd::prelude::*;

verus! {

/// The hit of a ray, already in object space, against a smooth triangle:
/// the solve's parameter with its barycentric pair recorded for normal
/// interpolation.
pub open spec fn smooth_triangle_local_spec(t: SmoothTriangle, ray: Ray) -> Seq<Intersection> {
    match mt_hit_spec(t.p1, t.e1, t.e2, ray) {
        None => Seq::empty(),
        Some(huv) => seq![
            Intersection { t: huv.0, object: t.id, u: Some(huv.1), v: Some(huv.2) },
        ],
    }
}

/// The interpolated normal over the corner normals, before normalization:
/// `n2 * u + n3 * v + n1 * (1 - u - v)`, normalized.
pub open spec fn smooth_normal_spec(t: SmoothTriangle, u: Fx, v: Fx) -> Vec4 {
    let one = Fx { raw: SCALE };
    vnorm(
        vadd(
            vadd(vscale(t.n2, u), vscale(t.n3, v)),
            vscale(t.n1, fxsub(fxsub(one, u), v)),
        ),
    )
}

#[derive(Clone, Copy, Debug)]
pub struct SmoothTriangle {
    pub id: usize,
    /// Transform relative to the nearest enclosing group.
    pub local: Matrix,
    /// Fully resolved transform (object space to world space).
    pub transform: Matrix,
    /// Cached inverse of the resolved transform.
    pub inverse: Matrix,
    pub material: Material,
    pub p1: Vec4,
    pub p2: Vec4,
    pub p3: Vec4,
    pub n1: Vec4,
    pub n2: Vec4,
    pub n3: Vec4,
    pub e1: Vec4,
    pub e2: Vec4,
    pub normal: Vec4,
    pub bounds: Bounds,
}

/// The smooth triangle over three corners and their normals.
pub open spec fn smooth_triangle_make(
    id: usize,
    p1: Vec4,
    p2: Vec4,
    p3: Vec4,
    n1: Vec4,
    n2: Vec4,
    n3: Vec4,
) -> SmoothTriangle {
    let e1 = vsub(p2, p1);
    let e2 = vsub(p3, p1);
    SmoothTriangle {
        id,
        local: eye_spec(),
        transform: eye_spec(),
        inverse: eye_spec(),
        material: crate::material::default_material(),
        p1,
        p2,
        p3,
        n1,
        n2,
        n3,
        e1,
        e2,
        normal: vnorm(vcross(e2, e1)),
        bounds: corner_bounds(p1, p2, p3),
    }
}

impl SmoothTriangle {
    /// The hit of an object-space ray against this smooth triangle.
    pub fn local_intersect(&self, ray: &Ray) -> (r: Vec<Intersection>)
        ensures
            r@ == smooth_triangle_local_spec(*self, *ray),
    {
        let mut out: Vec<Intersection> = Vec::new();
        match mt_hit(&self.p1, &self.e1, &self.e2, ray) {
            None => {},
            Some(huv) => {
                out.push(Intersection::new(huv.0, self.id, Some(huv.1), Some(huv.2)));
            },
        }
        proof {
            assert(out@ =~= smooth_triangle_local_spec(*self, *ray));
        }
        out
    }

    /// The normal interpolated from the corner normals by a hit's
    /// barycentric pair; a missing pair counts as zero.
    pub fn local_normal(&self, i: &Intersection) -> (n: Vec4)
        ensures
            n == smooth_normal_spec(
                *self,
                match i.u {
                    Some(u) => u,
                    None => Fx { raw: 0 },
                },
                match i.v {
                    Some(v) => v,
                    None => Fx { raw: 0 },
                },
            ),
    {
        let one = Fx { raw: SCALE };
        let u = match i.u {
            Some(u) => u,
            None => Fx { raw: 0 },
        };
        let v = match i.v {
            Some(v) => v,
            None => Fx { raw: 0 },
        };
        self.n2.scale(u).add(self.n3.scale(v)).add(self.n1.scale(one.sub(u).sub(v))).norm()
    }

    /// An untransformed smooth triangle over three corners and their
    /// normals.
    pub fn new(id: usize, p1: Vec4, p2: Vec4, p3: Vec4, n1: Vec4, n2: Vec4, n3: Vec4) -> (s:
        Shape)
        ensures
            s == Shape::SmoothTriangle(smooth_triangle_make(id, p1, p2, p3, n1, n2, n3)),
    {
        let e1 = p2.sub(p1);
        let e2 = p3.sub(p1);
        let normal = e2.cross(&e1).norm();
        Shape::SmoothTriangle(
            SmoothTriangle {
                id,
                local: Matrix::eye(),
                transform: Matrix::eye(),
                inverse: Matrix::eye(),
                material: Material::default(),
                p1,
                p2,
                p3,
                n1,
                n2,
                n3,
                e1,
                e2,
                normal,
                bounds: Bounds {
                    min: Vec4::point(
                        p1.x.min(p2.x).min(p3.x),
                        p1.y.min(p2.y).min(p3.y),
                        p1.z.min(p2.z).min(p3.z),
                    ),
                    max: Vec4::point(
                        p1.x.max(p2.x).max(p3.x),
                        p1.y.max(p2.y).max(p3.y),
                        p1.z.max(p2.z).max(p3.z),
                    ),
                },
            },
        )
    }
}

} // verus!
