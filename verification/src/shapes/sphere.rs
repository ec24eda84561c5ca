//! The unit sphere, centered at the origin of its object space.

use super::Shape;
use crate::bounds::Bounds;
use crate::intersection::Intersection;
use crate::material::{glass_material, Material};
use crate::math::{fxadd, fxdiv, fxmul, fxneg, fxsqrt, fxsub, Fx, SCALE};
use crate::matrix::{eye_spec, invertible, minverse, Matrix};
use crate::ray::Ray;
use crate::vec4::{vdot, vsub, Vec4};
use vstd::prelude::*;

verus! {

/// The hits of a ray, already in object space, against the unit sphere:
/// the roots of `|origin + t * direction|^2 == 1`, none when the
/// discriminant is negative, else the smaller root first.
pub open spec fn sphere_local_spec(id: usize, ray: Ray) -> Seq<Intersection> {
    let origin = Vec4 { x: Fx { raw: 0 }, y: Fx { raw: 0 }, z: Fx { raw: 0 }, w: Fx { raw: SCALE } };
    let two = Fx { raw: (2 * SCALE) as i64 };
    let four = Fx { raw: (4 * SCALE) as i64 };
    let one = Fx { raw: SCALE };
    let sphere_to_ray = vsub(ray.origin, origin);
    let a = vdot(ray.direction, ray.direction);
    let b = fxmul(vdot(ray.direction, sphere_to_ray), two);
    let c = fxsub(vdot(sphere_to_ray, sphere_to_ray), one);
    let discriminant = fxsub(fxmul(b, b), fxmul(fxmul(four, a), c));
    if discriminant.raw < 0 {
        Seq::empty()
    } else {
        let sq = fxsqrt(discriminant);
        let t1 = fxdiv(fxsub(fxneg(b), sq), fxmul(two, a));
        let t2 = fxdiv(fxadd(fxneg(b), sq), fxmul(two, a));
        seq![
            Intersection { t: t1, object: id, u: None, v: None },
            Intersection { t: t2, object: id, u: None, v: None },
        ]
    }
}

impl Sphere {
    /// The hits of an object-space ray against this unit sphere.
    pub fn local_intersect(&self, ray: &Ray) -> (r: Vec<Intersection>)
        ensures
            r@ == sphere_local_spec(self.id, *ray),
    {
        let origin = Vec4::point(Fx { raw: 0 }, Fx { raw: 0 }, Fx { raw: 0 });
        let two = Fx { raw: 2 * SCALE };
        let four = Fx { raw: 4 * SCALE };
        let one = Fx { raw: SCALE };
        let sphere_to_ray = ray.origin.sub(origin);
        let a = ray.direction.dot(&ray.direction);
        let b = ray.direction.dot(&sphere_to_ray).mul(two);
        let c = sphere_to_ray.dot(&sphere_to_ray).sub(one);
        let discriminant = b.mul(b).sub(four.mul(a).mul(c));
        let mut out: Vec<Intersection> = Vec::new();
        if discriminant.raw < 0 {
            proof {
                assert(out@ =~= sphere_local_spec(self.id, *ray));
            }
            return out;
        }
        let sq = discriminant.sqrt();
        let t1 = b.neg().sub(sq).div(two.mul(a));
        let t2 = b.neg().add(sq).div(two.mul(a));
        out.push(Intersection::new(t1, self.id, None, None));
        out.push(Intersection::new(t2, self.id, None, None));
        proof {
            assert(out@ =~= sphere_local_spec(self.id, *ray));
        }
        out
    }
}

#[derive(Clone, Copy, Debug)]
pub struct Sphere {
    pub id: usize,
    /// Transform relative to the nearest enclosing group.
    pub local: Matrix,
    /// Fully resolved transform (object space to world space).
    pub transform: Matrix,
    /// Cached inverse of the resolved transform.
    pub inverse: Matrix,
    pub material: Material,
    pub bounds: Bounds,
}

/// The unit sphere's object-space box.
pub open spec fn sphere_bounds() -> Bounds {
    Bounds {
        min: Vec4 {
            x: Fx { raw: (-crate::math::SCALE) as i64 },
            y: Fx { raw: (-crate::math::SCALE) as i64 },
            z: Fx { raw: (-crate::math::SCALE) as i64 },
            w: Fx { raw: crate::math::SCALE },
        },
        max: Vec4 {
            x: Fx { raw: crate::math::SCALE },
            y: Fx { raw: crate::math::SCALE },
            z: Fx { raw: crate::math::SCALE },
            w: Fx { raw: crate::math::SCALE },
        },
    }
}

impl Sphere {
    /// The unit sphere's object-space box.
    pub fn get_bounds() -> (b: Bounds)
        ensures
            b == sphere_bounds(),
    {
        let one = Fx { raw: crate::math::SCALE };
        let m = Fx { raw: (-crate::math::SCALE) as i64 };
        Bounds { min: Vec4::point(m, m, m), max: Vec4::point(one, one, one) }
    }

    /// An untransformed sphere with the stock material.
    pub fn new(id: usize) -> (s: Shape)
        ensures
            s == Shape::Sphere(
                Sphere {
                    id,
                    local: eye_spec(),
                    transform: eye_spec(),
                    inverse: eye_spec(),
                    material: crate::material::default_material(),
                    bounds: sphere_bounds(),
                },
            ),
    {
        Shape::Sphere(
            Sphere {
                id,
                local: Matrix::eye(),
                transform: Matrix::eye(),
                inverse: Matrix::eye(),
                material: Material::default(),
                bounds: Sphere::get_bounds(),
            },
        )
    }

    /// A sphere with the given transform already resolved.
    pub fn with_transformation(id: usize, mat: Matrix) -> (s: Shape)
        requires
            invertible(mat),
        ensures
            s == Shape::Sphere(
                Sphere {
                    id,
                    local: mat,
                    transform: mat,
                    inverse: minverse(mat),
                    material: crate::material::default_material(),
                    bounds: sphere_bounds(),
                },
            ),
    {
        Shape::Sphere(
            Sphere {
                id,
                local: mat,
                transform: mat,
                inverse: mat.inverse(),
                material: Material::default(),
                bounds: Sphere::get_bounds(),
            },
        )
    }

    /// An untransformed glass sphere with the given refractive index.
    pub fn glas(id: usize, refractive_index: Fx) -> (s: Shape)
        ensures
            s == Shape::Sphere(
                Sphere {
                    id,
                    local: eye_spec(),
                    transform: eye_spec(),
                    inverse: eye_spec(),
                    material: Material { refractive_index, ..glass_material() },
                    bounds: sphere_bounds(),
                },
            ),
    {
        let mut m1 = Material::glas();
        m1.refractive_index = refractive_index;
        Shape::Sphere(
            Sphere {
                id,
                local: Matrix::eye(),
                transform: Matrix::eye(),
                inverse: Matrix::eye(),
                material: m1,
                bounds: Sphere::get_bounds(),
            },
        )
    }
}

} // verus!
