//! Flat triangles: one face normal, precomputed edges.

use super::Shape;
use crate::bounds::Bounds;
use crate::intersection::Intersection;
use crate::material::Material;
use crate::math::{abs_int, fxadd, fxdiv, fxmax, fxmin, fxmul, Fx, EPSILON_RAW, SCALE};
use crate::matrix::{eye_spec, Matrix};
use crate::ray::Ray;
use crate::vec4::{vcross, vdot, vnorm, vsub, Vec4};
use vstd::prelude::*;

verus! {

/// One step of the edge-based triangle solve: the ray parameter and the
/// barycentric pair, or nothing when the ray is near-parallel to the face
/// or the barycentric coordinates leave the triangle.
pub open spec fn mt_hit_spec(p1: Vec4, e1: Vec4, e2: Vec4, ray: Ray) -> Option<(Fx, Fx, Fx)> {
    let one = Fx { raw: SCALE };
    let dir_cross_e2 = vcross(ray.direction, e2);
    let det = vdot(e1, dir_cross_e2);
    if abs_int(det.raw as int) < EPSILON_RAW {
        None
    } else {
        let f = fxdiv(one, det);
        let p1_to_origin = vsub(ray.origin, p1);
        let u = fxmul(f, vdot(p1_to_origin, dir_cross_e2));
        if u.raw < 0 || u.raw > SCALE {
            None
        } else {
            let origin_cross_e1 = vcross(p1_to_origin, e1);
            let v = fxmul(f, vdot(ray.direction, origin_cross_e1));
            if v.raw < 0 || fxadd(u, v).raw > SCALE {
                None
            } else {
                Some((fxmul(f, vdot(e2, origin_cross_e1)), u, v))
            }
        }
    }
}

/// The edge-based triangle solve on concrete values.
pub fn mt_hit(p1: &Vec4, e1: &Vec4, e2: &Vec4, ray: &Ray) -> (r: Option<(Fx, Fx, Fx)>)
    ensures
        r == mt_hit_spec(*p1, *e1, *e2, *ray),
{
    let one = Fx { raw: SCALE };
    let dir_cross_e2 = ray.direction.cross(e2);
    let det = e1.dot(&dir_cross_e2);
    if -EPSILON_RAW < det.raw && det.raw < EPSILON_RAW {
        return None;
    }
    let f = one.div(det);
    let p1_to_origin = ray.origin.sub(*p1);
    let u = f.mul(p1_to_origin.dot(&dir_cross_e2));
    if u.raw < 0 || u.raw > SCALE {
        return None;
    }
    let origin_cross_e1 = p1_to_origin.cross(e1);
    let v = f.mul(ray.direction.dot(&origin_cross_e1));
    if v.raw < 0 || u.add(v).raw > SCALE {
        return None;
    }
    Some((f.mul(e2.dot(&origin_cross_e1)), u, v))
}

/// The hit of a ray, already in object space, against a flat triangle: the
/// solve's parameter, with no barycentric pair recorded.
pub open spec fn triangle_local_spec(t: Triangle, ray: Ray) -> Seq<Intersection> {
    match mt_hit_spec(t.p1, t.e1, t.e2, ray) {
        None => Seq::empty(),
        Some(huv) => seq![Intersection { t: huv.0, object: t.id, u: None, v: None }],
    }
}

#[derive(Clone, Copy, Debug)]
pub struct Triangle {
    pub id: usize,
    /// Transform relative to the nearest enclosing group.
    pub local: Matrix,
    /// Fully resolved transform (object space to world space).
    pub transform: Matrix,
    /// Cached inverse of the resolved transform.
    pub inverse: Matrix,
    pub material: Material,
    pub p1: Vec4,
    pub p2: Vec4,
    pub p3: Vec4,
    pub e1: Vec4,
    pub e2: Vec4,
    pub normal: Vec4,
    pub bounds: Bounds,
}

/// The tight object-space box around three corners.
pub open spec fn corner_bounds(p1: Vec4, p2: Vec4, p3: Vec4) -> Bounds {
    Bounds {
        min: Vec4 {
            x: fxmin(fxmin(p1.x, p2.x), p3.x),
            y: fxmin(fxmin(p1.y, p2.y), p3.y),
            z: fxmin(fxmin(p1.z, p2.z), p3.z),
            w: Fx { raw: SCALE },
        },
        max: Vec4 {
            x: fxmax(fxmax(p1.x, p2.x), p3.x),
            y: fxmax(fxmax(p1.y, p2.y), p3.y),
            z: fxmax(fxmax(p1.z, p2.z), p3.z),
            w: Fx { raw: SCALE },
        },
    }
}

/// The triangle over three corners: edges from the first corner and the
/// unit face normal.
pub open spec fn triangle_make(id: usize, p1: Vec4, p2: Vec4, p3: Vec4) -> Triangle {
    let e1 = vsub(p2, p1);
    let e2 = vsub(p3, p1);
    Triangle {
        id,
        local: eye_spec(),
        transform: eye_spec(),
        inverse: eye_spec(),
        material: crate::material::default_material(),
        p1,
        p2,
        p3,
        e1,
        e2,
        normal: vnorm(vcross(e2, e1)),
        bounds: corner_bounds(p1, p2, p3),
    }
}

impl Triangle {
    /// The hit of an object-space ray against this triangle.
    pub fn local_intersect(&self, ray: &Ray) -> (r: Vec<Intersection>)
        ensures
            r@ == triangle_local_spec(*self, *ray),
    {
        let mut out: Vec<Intersection> = Vec::new();
        match mt_hit(&self.p1, &self.e1, &self.e2, ray) {
            None => {},
            Some(huv) => {
                out.push(Intersection::new(huv.0, self.id, None, None));
            },
        }
        proof {
            assert(out@ =~= triangle_local_spec(*self, *ray));
        }
        out
    }

    /// An untransformed triangle over three corners.
    pub fn new(id: usize, p1: Vec4, p2: Vec4, p3: Vec4) -> (s: Shape)
        ensures
            s == Shape::Triangle(triangle_make(id, p1, p2, p3)),
    {
        let e1 = p2.sub(p1);
        let e2 = p3.sub(p1);
        let normal = e2.cross(&e1).norm();
        Shape::Triangle(
            Triangle {
                id,
                local: Matrix::eye(),
                transform: Matrix::eye(),
                inverse: Matrix::eye(),
                material: Material::default(),
                p1,
                p2,
                p3,
                e1,
                e2,
                normal,
                bounds: Bounds {
                    min: Vec4::point(
                        p1.x.min(p2.x).min(p3.x),
                        p1.y.min(p2.y).min(p3.y),
                        p1.z.min(p2.z).min(p3.z),
                    ),
                    max: Vec4::point(
                        p1.x.max(p2.x).max(p3.x),
                        p1.y.max(p2.y).max(p3.y),
                        p1.z.max(p2.z).max(p3.z),
                    ),
                },
            },
        )
    }
}

} // verus!
