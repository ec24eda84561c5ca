//! The axis-aligned unit cube spanning -1 to 1 on each axis.

use super::Shape;
use crate::bounds::{check_axis_spec, Bounds};
use crate::intersection::Intersection;
use crate::material::Material;
use crate::math::{fxabs, fxmax, fxmin, Fx, SCALE};
use crate::matrix::{eye_spec, invertible, minverse, Matrix};
use crate::ray::Ray;
use crate::vec4::Vec4;
use vstd::prelude::*;

verus! {

/// The hits of a ray, already in object space, against the unit cube: the
/// widest entry and narrowest exit over the three slabs, none when they
/// cross.
pub open spec fn cube_local_spec(id: usize, ray: Ray) -> Seq<Intersection> {
    let lo = Fx { raw: (-SCALE) as i64 };
    let hi = Fx { raw: SCALE };
    let xt = check_axis_spec(lo, hi, ray.origin.x, ray.direction.x);
    let yt = check_axis_spec(lo, hi, ray.origin.y, ray.direction.y);
    let zt = check_axis_spec(lo, hi, ray.origin.z, ray.direction.z);
    let tmin = fxmax(fxmax(xt.0, yt.0), zt.0);
    let tmax = fxmin(fxmin(xt.1, yt.1), zt.1);
    if tmin.raw > tmax.raw {
        Seq::empty()
    } else {
        seq![
            Intersection { t: tmin, object: id, u: None, v: None },
            Intersection { t: tmax, object: id, u: None, v: None },
        ]
    }
}

/// The outward unit cube normal at an object-space surface point: along the
/// axis of the largest coordinate magnitude, x winning ties over y over z.
pub open spec fn cube_normal_spec(p: Vec4) -> Vec4 {
    let ax = fxabs(p.x);
    let ay = fxabs(p.y);
    let az = fxabs(p.z);
    let maxc = fxmax(fxmax(ax, ay), az);
    let one = Fx { raw: SCALE };
    let m = Fx { raw: (-SCALE) as i64 };
    if maxc == ax {
        Vec4 { x: if p.x.raw < 0 { m } else { one }, y: Fx { raw: 0 }, z: Fx { raw: 0 }, w: Fx { raw: 0 } }
    } else if maxc == ay {
        Vec4 { x: Fx { raw: 0 }, y: if p.y.raw < 0 { m } else { one }, z: Fx { raw: 0 }, w: Fx { raw: 0 } }
    } else {
        Vec4 { x: Fx { raw: 0 }, y: Fx { raw: 0 }, z: if p.z.raw < 0 { m } else { one }, w: Fx { raw: 0 } }
    }
}

impl Cube {
    /// The hits of an object-space ray against this unit cube.
    pub fn local_intersect(&self, ray: &Ray) -> (r: Vec<Intersection>)
        ensures
            r@ == cube_local_spec(self.id, *ray),
    {
        let xt = Cube::check_axis(ray.origin.x, ray.direction.x);
        let yt = Cube::check_axis(ray.origin.y, ray.direction.y);
        let zt = Cube::check_axis(ray.origin.z, ray.direction.z);
        let tmin = xt.0.max(yt.0).max(zt.0);
        let tmax = xt.1.min(yt.1).min(zt.1);
        let mut out: Vec<Intersection> = Vec::new();
        if tmin.raw > tmax.raw {
            proof {
                assert(out@ =~= cube_local_spec(self.id, *ray));
            }
            return out;
        }
        out.push(Intersection::new(tmin, self.id, None, None));
        out.push(Intersection::new(tmax, self.id, None, None));
        proof {
            assert(out@ =~= cube_local_spec(self.id, *ray));
        }
        out
    }

    /// The outward normal at an object-space surface point.
    pub fn local_normal(p: &Vec4) -> (n: Vec4)
        ensures
            n == cube_normal_spec(*p),
    {
        let ax = p.x.abs();
        let ay = p.y.abs();
        let az = p.z.abs();
        let maxc = ax.max(ay).max(az);
        let one = Fx { raw: SCALE };
        let m = Fx { raw: (-SCALE) as i64 };
        let nil = Fx { raw: 0 };
        if maxc.raw == ax.raw {
            Vec4::vector(if p.x.raw < 0 { m } else { one }, nil, nil)
        } else if maxc.raw == ay.raw {
            Vec4::vector(nil, if p.y.raw < 0 { m } else { one }, nil)
        } else {
            Vec4::vector(nil, nil, if p.z.raw < 0 { m } else { one })
        }
    }
}

#[derive(Clone, Copy, Debug)]
pub struct Cube {
    pub id: usize,
    /// Transform relative to the nearest enclosing group.
    pub local: Matrix,
    /// Fully resolved transform (object space to world space).
    pub transform: Matrix,
    /// Cached inverse of the resolved transform.
    pub inverse: Matrix,
    pub material: Material,
    pub bounds: Bounds,
}

/// The unit cube's object-space box.
pub open spec fn cube_bounds() -> Bounds {
    Bounds {
        min: Vec4 {
            x: Fx { raw: (-SCALE) as i64 },
            y: Fx { raw: (-SCALE) as i64 },
            z: Fx { raw: (-SCALE) as i64 },
            w: Fx { raw: SCALE },
        },
        max: Vec4 {
            x: Fx { raw: SCALE },
            y: Fx { raw: SCALE },
            z: Fx { raw: SCALE },
            w: Fx { raw: SCALE },
        },
    }
}

impl Cube {
    /// An untransformed cube with the stock material.
    pub fn new(id: usize) -> (s: Shape)
        ensures
            s == Shape::Cube(
                Cube {
                    id,
                    local: eye_spec(),
                    transform: eye_spec(),
                    inverse: eye_spec(),
                    material: crate::material::default_material(),
                    bounds: cube_bounds(),
                },
            ),
    {
        let one = Fx { raw: SCALE };
        let m = Fx { raw: (-SCALE) as i64 };
        Shape::Cube(
            Cube {
                id,
                local: Matrix::eye(),
                transform: Matrix::eye(),
                inverse: Matrix::eye(),
                material: Material::default(),
                bounds: Bounds { min: Vec4::point(m, m, m), max: Vec4::point(one, one, one) },
            },
        )
    }

    /// A cube with the given transform already resolved.
    pub fn with_transformation(id: usize, mat: Matrix) -> (s: Shape)
        requires
            invertible(mat),
        ensures
            s == Shape::Cube(
                Cube {
                    id,
                    local: mat,
                    transform: mat,
                    inverse: minverse(mat),
                    material: crate::material::default_material(),
                    bounds: cube_bounds(),
                },
            ),
    {
        let one = Fx { raw: SCALE };
        let m = Fx { raw: (-SCALE) as i64 };
        Shape::Cube(
            Cube {
                id,
                local: mat,
                transform: mat,
                inverse: mat.inverse(),
                material: Material::default(),
                bounds: Bounds { min: Vec4::point(m, m, m), max: Vec4::point(one, one, one) },
            },
        )
    }

    /// The entry and exit parameters of a ray against one slab of the unit
    /// cube.
    pub fn check_axis(origin: Fx, direction: Fx) -> (r: (Fx, Fx))
        ensures
            r == crate::bounds::check_axis_spec(
                Fx { raw: (-SCALE) as i64 },
                Fx { raw: SCALE },
                origin,
                direction,
            ),
    {
        Bounds::check_axis(Fx { raw: (-SCALE) as i64 }, Fx { raw: SCALE }, origin, direction)
    }
}

} // verus!
