//! The plane `y == 0`, unbounded in x and z.

use super::Shape;
use crate::bounds::Bounds;
use crate::intersection::Intersection;
use crate::material::Material;
use crate::math::{abs_int, fxdiv, fxneg, Fx, EPSILON_RAW, MAX_RAW, SCALE};
use crate::matrix::{eye_spec, invertible, minverse, Matrix};
use crate::ray::Ray;
use crate::vec4::Vec4;
use vstd::prelude::*;

verus! {

/// The hit of a ray, already in object space, against the plane `y == 0`:
/// nothing when the direction is nearly parallel to the plane, else the one
/// root `-origin.y / direction.y`.
pub open spec fn plane_local_spec(id: usize, ray: Ray) -> Seq<Intersection> {
    if abs_int(ray.direction.y.raw as int) < EPSILON_RAW {
        Seq::empty()
    } else {
        seq![
            Intersection {
                t: fxdiv(fxneg(ray.origin.y), ray.direction.y),
                object: id,
                u: None,
                v: None,
            },
        ]
    }
}

impl Plane {
    /// The hit of an object-space ray against this plane. A ray whose
    /// direction is within the tolerance of parallel yields no hit.
    pub fn local_intersect(&self, ray: &Ray) -> (r: Vec<Intersection>)
        ensures
            r@ == plane_local_spec(self.id, *ray),
            abs_int(ray.direction.y.raw as int) < EPSILON_RAW ==> r@ =~= Seq::<
                Intersection,
            >::empty(),
    {
        let mut out: Vec<Intersection> = Vec::new();
        let dy = ray.direction.y.raw;
        if -EPSILON_RAW < dy && dy < EPSILON_RAW {
            proof {
                assert(out@ =~= plane_local_spec(self.id, *ray));
            }
            return out;
        }
        let t = ray.origin.y.neg().div(ray.direction.y);
        out.push(Intersection::new(t, self.id, None, None));
        proof {
            assert(out@ =~= plane_local_spec(self.id, *ray));
        }
        out
    }
}

#[derive(Clone, Copy, Debug)]
pub struct Plane {
    pub id: usize,
    /// Transform relative to the nearest enclosing group.
    pub local: Matrix,
    /// Fully resolved transform (object space to world space).
    pub transform: Matrix,
    /// Cached inverse of the resolved transform.
    pub inverse: Matrix,
    pub material: Material,
    pub bounds: Bounds,
}

/// The plane's object-space box: unbounded in x and z, flat in y.
pub open spec fn plane_bounds() -> Bounds {
    Bounds {
        min: Vec4 {
            x: Fx { raw: (-MAX_RAW) as i64 },
            y: Fx { raw: 0 },
            z: Fx { raw: (-MAX_RAW) as i64 },
            w: Fx { raw: SCALE },
        },
        max: Vec4 {
            x: Fx { raw: MAX_RAW },
            y: Fx { raw: 0 },
            z: Fx { raw: MAX_RAW },
            w: Fx { raw: SCALE },
        },
    }
}

impl Plane {
    /// An untransformed plane with the stock material.
    pub fn new(id: usize) -> (s: Shape)
        ensures
            s == Shape::Plane(
                Plane {
                    id,
                    local: eye_spec(),
                    transform: eye_spec(),
                    inverse: eye_spec(),
                    material: crate::material::default_material(),
                    bounds: plane_bounds(),
                },
            ),
    {
        let inf = Fx { raw: MAX_RAW };
        let ninf = Fx { raw: (-MAX_RAW) as i64 };
        let nil = Fx { raw: 0 };
        Shape::Plane(
            Plane {
                id,
                local: Matrix::eye(),
                transform: Matrix::eye(),
                inverse: Matrix::eye(),
                material: Material::default(),
                bounds: Bounds {
                    min: Vec4::point(ninf, nil, ninf),
                    max: Vec4::point(inf, nil, inf),
                },
            },
        )
    }

    /// A plane with the given transform already resolved.
    pub fn with_transformation(id: usize, mat: Matrix) -> (s: Shape)
        requires
            invertible(mat),
        ensures
            s == Shape::Plane(
                Plane {
                    id,
                    local: mat,
                    transform: mat,
                    inverse: minverse(mat),
                    material: crate::material::default_material(),
                    bounds: plane_bounds(),
                },
            ),
    {
        let inf = Fx { raw: MAX_RAW };
        let ninf = Fx { raw: (-MAX_RAW) as i64 };
        let nil = Fx { raw: 0 };
        Shape::Plane(
            Plane {
                id,
                local: mat,
                transform: mat,
                inverse: mat.inverse(),
                material: Material::default(),
                bounds: Bounds {
                    min: Vec4::point(ninf, nil, ninf),
                    max: Vec4::point(inf, nil, inf),
                },
            },
        )
    }
}

} // verus!
