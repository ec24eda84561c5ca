//! The shape abstraction: a closed sum over the six primitive kinds.
//!
//! Every shape carries a `local` transform (relative to its nearest
//! enclosing group), the fully resolved `transform`, and the cached
//! `inverse` of the resolved transform. World-space intersection carries
//! the ray into object space through the cached inverse and delegates to
//! the kind's local algorithm; a group instead fans the world ray out to
//! its children. The local entry points (`local_intersect`,
//! `local_normal_at`, `normal_at`) are a contract violation on a group, so
//! their `requires` rule groups out.

use crate::bounds::{bounds_finite, btransform, Bounds};
use crate::intersection::Intersection;
use crate::material::{default_material, Material};
use crate::math::{fxmax, fxmin, Fx, MAX_RAW, SCALE};
use crate::matrix::{mtranspose, mvmul, Matrix};
use crate::ray::{rtransform, Ray};
use crate::vec4::{vnorm, vsub, Vec4};
use vstd::prelude::*;

pub mod cube;
pub mod group;
pub mod plane;
pub mod smooth_triangle;
pub mod sphere;
pub mod triangle;

use cube::{cube_normal_spec, Cube};
use group::Group;
use plane::Plane;
use smooth_triangle::{smooth_normal_spec, SmoothTriangle};
use sphere::Sphere;
use triangle::Triangle;

verus! {

/// The next fresh shape id from a scene-local counter.
pub fn next_shape_id(counter: &mut usize) -> (id: usize)
    requires
        *old(counter) < usize::MAX,
    ensures
        id == *old(counter),
        *final(counter) == *old(counter) + 1,
{
    let id = *counter;
    *counter = *counter + 1;
    id
}

/// A scene shape of any of the six kinds.
#[derive(Debug)]
pub enum Shape {
    Sphere(Sphere),
    Plane(Plane),
    Cube(Cube),
    Triangle(Triangle),
    SmoothTriangle(SmoothTriangle),
    Group(Group),
}

impl Shape {
    pub open spec fn id_spec(self) -> usize {
        match self {
            Shape::Sphere(s) => s.id,
            Shape::Plane(s) => s.id,
            Shape::Cube(s) => s.id,
            Shape::Triangle(s) => s.id,
            Shape::SmoothTriangle(s) => s.id,
            Shape::Group(s) => s.id,
        }
    }

    pub open spec fn local_spec(self) -> Matrix {
        match self {
            Shape::Sphere(s) => s.local,
            Shape::Plane(s) => s.local,
            Shape::Cube(s) => s.local,
            Shape::Triangle(s) => s.local,
            Shape::SmoothTriangle(s) => s.local,
            Shape::Group(s) => s.local,
        }
    }

    pub open spec fn transform_spec(self) -> Matrix {
        match self {
            Shape::Sphere(s) => s.transform,
            Shape::Plane(s) => s.transform,
            Shape::Cube(s) => s.transform,
            Shape::Triangle(s) => s.transform,
            Shape::SmoothTriangle(s) => s.transform,
            Shape::Group(s) => s.transform,
        }
    }

    pub open spec fn inverse_spec(self) -> Matrix {
        match self {
            Shape::Sphere(s) => s.inverse,
            Shape::Plane(s) => s.inverse,
            Shape::Cube(s) => s.inverse,
            Shape::Triangle(s) => s.inverse,
            Shape::SmoothTriangle(s) => s.inverse,
            Shape::Group(s) => s.inverse,
        }
    }

    /// The shape's material; a group delegates to its first child, and an
    /// empty group reports the stock material.
    pub open spec fn material_spec(self) -> Material
        decreases self,
    {
        match self {
            Shape::Sphere(s) => s.material,
            Shape::Plane(s) => s.material,
            Shape::Cube(s) => s.material,
            Shape::Triangle(s) => s.material,
            Shape::SmoothTriangle(s) => s.material,
            Shape::Group(g) => first_material_spec(g.children@),
        }
    }

    /// The shape's own object-space box; a group's is the union of its
    /// children's boxes carried by their resolved transforms.
    pub open spec fn bounds_spec(self) -> Bounds
        decreases self, 0int,
    {
        match self {
            Shape::Sphere(s) => s.bounds,
            Shape::Plane(s) => s.bounds,
            Shape::Cube(s) => s.bounds,
            Shape::Triangle(s) => s.bounds,
            Shape::SmoothTriangle(s) => s.bounds,
            Shape::Group(g) => group_bounds_spec(g.children@),
        }
    }

    /// The kind's local-space hits for an object-space ray; empty for a
    /// group, whose geometry is its children's.
    pub open spec fn local_intersect_spec(self, ray: Ray) -> Seq<Intersection> {
        match self {
            Shape::Sphere(s) => sphere::sphere_local_spec(s.id, ray),
            Shape::Plane(s) => plane::plane_local_spec(s.id, ray),
            Shape::Cube(s) => cube::cube_local_spec(s.id, ray),
            Shape::Triangle(s) => triangle::triangle_local_spec(s, ray),
            Shape::SmoothTriangle(s) => smooth_triangle::smooth_triangle_local_spec(s, ray),
            Shape::Group(_) => Seq::empty(),
        }
    }

    /// The kind's local normal at an object-space point; a group has none.
    pub open spec fn local_normal_spec(self, local_point: Vec4, i: Intersection) -> Vec4 {
        match self {
            Shape::Sphere(_) => vsub(
                local_point,
                Vec4 { x: Fx { raw: 0 }, y: Fx { raw: 0 }, z: Fx { raw: 0 }, w: Fx { raw: SCALE } },
            ),
            Shape::Plane(_) => Vec4 {
                x: Fx { raw: 0 },
                y: Fx { raw: SCALE },
                z: Fx { raw: 0 },
                w: Fx { raw: 0 },
            },
            Shape::Cube(_) => cube_normal_spec(local_point),
            Shape::Triangle(t) => t.normal,
            Shape::SmoothTriangle(t) => smooth_normal_spec(
                t,
                match i.u {
                    Some(u) => u,
                    None => Fx { raw: 0 },
                },
                match i.v {
                    Some(v) => v,
                    None => Fx { raw: 0 },
                },
            ),
            Shape::Group(_) => Vec4 {
                x: Fx { raw: 0 },
                y: Fx { raw: SCALE },
                z: Fx { raw: 0 },
                w: Fx { raw: 0 },
            },
        }
    }

    /// The world-space normal: the point carried into object space, the
    /// local normal carried back through the transposed inverse with its
    /// direction component zeroed, normalized. A flat triangle reports its
    /// stored face normal unchanged.
    pub open spec fn normal_spec(self, world_point: Vec4, i: Intersection) -> Vec4 {
        match self {
            Shape::Triangle(t) => t.normal,
            _ => {
                let local_point = mvmul(self.inverse_spec(), world_point);
                let local_normal = self.local_normal_spec(local_point, i);
                let wn = mvmul(mtranspose(self.inverse_spec()), local_normal);
                vnorm(Vec4 { w: Fx { raw: 0 }, ..wn })
            },
        }
    }

    /// The world-space hits of a ray: a leaf transforms the ray into object
    /// space by its cached inverse and runs its local algorithm; a group
    /// concatenates its children's world-space hits, unsorted.
    pub open spec fn intersect_spec(self, ray: Ray) -> Seq<Intersection>
        decreases self,
    {
        match self {
            Shape::Group(g) => group_intersect_spec(g.children@, ray),
            _ => self.local_intersect_spec(rtransform(ray, self.inverse_spec())),
        }
    }

    pub fn id(&self) -> (r: usize)
        ensures
            r == self.id_spec(),
    {
        match self {
            Shape::Sphere(s) => s.id,
            Shape::Plane(s) => s.id,
            Shape::Cube(s) => s.id,
            Shape::Triangle(s) => s.id,
            Shape::SmoothTriangle(s) => s.id,
            Shape::Group(s) => s.id,
        }
    }

    pub fn transform(&self) -> (r: &Matrix)
        ensures
            *r == self.transform_spec(),
    {
        match self {
            Shape::Sphere(s) => &s.transform,
            Shape::Plane(s) => &s.transform,
            Shape::Cube(s) => &s.transform,
            Shape::Triangle(s) => &s.transform,
            Shape::SmoothTriangle(s) => &s.transform,
            Shape::Group(s) => &s.transform,
        }
    }

    pub fn inverse(&self) -> (r: &Matrix)
        ensures
            *r == self.inverse_spec(),
    {
        match self {
            Shape::Sphere(s) => &s.inverse,
            Shape::Plane(s) => &s.inverse,
            Shape::Cube(s) => &s.inverse,
            Shape::Triangle(s) => &s.inverse,
            Shape::SmoothTriangle(s) => &s.inverse,
            Shape::Group(s) => &s.inverse,
        }
    }

    /// The shape's material; a group delegates to its first child, and an
    /// empty group reports the stock material.
    pub fn material(&self) -> (r: Material)
        ensures
            r == self.material_spec(),
        decreases *self,
    {
        match self {
            Shape::Sphere(s) => s.material,
            Shape::Plane(s) => s.material,
            Shape::Cube(s) => s.material,
            Shape::Triangle(s) => s.material,
            Shape::SmoothTriangle(s) => s.material,
            Shape::Group(g) => {
                if g.children.len() == 0 {
                    Material::default()
                } else {
                    proof {
                        broadcast use vstd::std_specs::vec::axiom_vec_index_decreases;

                        assert(decreases_to!(*self => self->Group_0));
                        assert(decreases_to!(self->Group_0 => self->Group_0.children));
                        assert(decreases_to!(self->Group_0.children => self->Group_0.children[0]));
                    }
                    let c = &g.children[0];
                    c.material()
                }
            },
        }
    }

    /// The kind's local-space hits for an object-space ray. Calling this on
    /// a group is a contract violation: a group has no local geometry.
    pub fn local_intersect(&self, ray: &Ray) -> (r: Vec<Intersection>)
        requires
            !(self is Group),
        ensures
            r@ == self.local_intersect_spec(*ray),
    {
        match self {
            Shape::Sphere(s) => s.local_intersect(ray),
            Shape::Plane(s) => s.local_intersect(ray),
            Shape::Cube(s) => s.local_intersect(ray),
            Shape::Triangle(s) => s.local_intersect(ray),
            Shape::SmoothTriangle(s) => s.local_intersect(ray),
            Shape::Group(_) => {
                proof {
                    assert(false);
                }
                Vec::new()
            },
        }
    }

    /// The kind's local normal at an object-space point. Calling this on a
    /// group is a contract violation.
    pub fn local_normal_at(&self, local_point: Vec4, i: &Intersection) -> (n: Vec4)
        requires
            !(self is Group),
        ensures
            n == self.local_normal_spec(local_point, *i),
    {
        match self {
            Shape::Sphere(_) => {
                let nil = Fx { raw: 0 };
                local_point.sub(Vec4::point(nil, nil, nil))
            },
            Shape::Plane(_) => {
                let nil = Fx { raw: 0 };
                Vec4::vector(nil, Fx { raw: SCALE }, nil)
            },
            Shape::Cube(_) => Cube::local_normal(&local_point),
            Shape::Triangle(t) => t.normal,
            Shape::SmoothTriangle(t) => t.local_normal(i),
            Shape::Group(_) => {
                proof {
                    assert(false);
                }
                let nil = Fx { raw: 0 };
                Vec4::vector(nil, Fx { raw: SCALE }, nil)
            },
        }
    }

    /// The world-space normal at a world point. Calling this on a group is
    /// a contract violation.
    pub fn normal_at(&self, world_point: Vec4, i: &Intersection) -> (n: Vec4)
        requires
            !(self is Group),
        ensures
            n == self.normal_spec(world_point, *i),
    {
        match self {
            Shape::Triangle(t) => t.normal,
            _ => {
                let local_point = self.inverse().mul_vec(&world_point);
                let local_normal = self.local_normal_at(local_point, i);
                let mut world_normal = self.inverse().transpose().mul_vec(&local_normal);
                world_normal.w = Fx { raw: 0 };
                world_normal.norm()
            },
        }
    }

    /// The world-space hits of a ray against this shape.
    pub fn intersect(&self, ray: &Ray) -> (r: Vec<Intersection>)
        ensures
            r@ == self.intersect_spec(*ray),
        decreases *self,
    {
        match self {
            Shape::Group(g) => {
                let mut out: Vec<Intersection> = Vec::new();
                let mut k: usize = 0;
                proof {
                    assert(out@ =~= group_intersect_spec(g.children@.take(0), *ray));
                }
                while k < g.children.len()
                    invariant
                        k <= g.children.len(),
                        *self is Group,
                        self->Group_0.children == g.children,
                        out@ == group_intersect_spec(g.children@.take(k as int), *ray),
                    decreases g.children.len() - k,
                {
                    proof {
                        broadcast use vstd::std_specs::vec::axiom_vec_index_decreases;

                        assert(decreases_to!(*self => self->Group_0));
                        assert(decreases_to!(self->Group_0 => self->Group_0.children));
                        assert(decreases_to!(self->Group_0.children => self->Group_0.children[k as int]));
                    }
                    let mut xs = g.children[k].intersect(ray);
                    out.append(&mut xs);
                    proof {
                        assert(g.children@.take(k + 1).drop_last() =~= g.children@.take(k as int));
                        assert(g.children@.take(k + 1).last() == g.children@[k as int]);
                        assert(out@ =~= group_intersect_spec(g.children@.take(k + 1), *ray));
                    }
                    k = k + 1;
                }
                proof {
                    assert(g.children@.take(g.children@.len() as int) =~= g.children@);
                }
                out
            },
            _ => {
                let local_ray = ray.transform(self.inverse());
                self.local_intersect(&local_ray)
            },
        }
    }

    /// The shape's object-space box; a group's is the union of its
    /// children's transformed boxes, skipping non-finite ones.
    pub fn bounds(&self) -> (b: Bounds)
        ensures
            b == self.bounds_spec(),
        decreases *self,
    {
        match self {
            Shape::Sphere(s) => s.bounds,
            Shape::Plane(s) => s.bounds,
            Shape::Cube(s) => s.bounds,
            Shape::Triangle(s) => s.bounds,
            Shape::SmoothTriangle(s) => s.bounds,
            Shape::Group(g) => {
                let mut acc = empty_group_bounds();
                let mut k: usize = 0;
                proof {
                    assert(acc == group_bounds_spec(g.children@.take(0)));
                }
                while k < g.children.len()
                    invariant
                        k <= g.children.len(),
                        *self is Group,
                        self->Group_0.children == g.children,
                        acc == group_bounds_spec(g.children@.take(k as int)),
                    decreases g.children.len() - k,
                {
                    proof {
                        broadcast use vstd::std_specs::vec::axiom_vec_index_decreases;

                        assert(decreases_to!(*self => self->Group_0));
                        assert(decreases_to!(self->Group_0 => self->Group_0.children));
                        assert(decreases_to!(self->Group_0.children => self->Group_0.children[k as int]));
                    }
                    let child = &g.children[k];
                    let b = if child.is_group() {
                        child.bounds()
                    } else {
                        child.bounds().transform(child.transform())
                    };
                    if b.is_finite() {
                        acc = Bounds {
                            min: Vec4::point(
                                acc.min.x.min(b.min.x),
                                acc.min.y.min(b.min.y),
                                acc.min.z.min(b.min.z),
                            ),
                            max: Vec4::point(
                                acc.max.x.max(b.max.x),
                                acc.max.y.max(b.max.y),
                                acc.max.z.max(b.max.z),
                            ),
                        };
                    }
                    proof {
                        assert(b == child_box_spec(g.children@[k as int]));
                        assert(g.children@.take(k + 1).drop_last() =~= g.children@.take(k as int));
                        assert(g.children@.take(k + 1).last() == g.children@[k as int]);
                        assert(acc == group_bounds_spec(g.children@.take(k + 1)));
                    }
                    k = k + 1;
                }
                proof {
                    assert(g.children@.take(g.children@.len() as int) =~= g.children@);
                }
                acc
            },
        }
    }

    pub fn is_group(&self) -> (r: bool)
        ensures
            r == (*self is Group),
    {
        match self {
            Shape::Group(_) => true,
            _ => false,
        }
    }
}

impl Shape {
    /// Every transform product down the subtree clears the inversion
    /// tolerance when the subtree is resolved under `parent`.
    pub open spec fn resolvable(self, parent: Matrix) -> bool
        decreases self,
    {
        let t = crate::matrix::mmul(parent, self.local_spec());
        crate::matrix::invertible(t) && match self {
            Shape::Group(g) => forall|i: int|
                0 <= i < g.children@.len() ==> (#[trigger] g.children@[i]).resolvable(t),
            _ => true,
        }
    }

    /// `n` is `self` with every resolved transform recomputed under
    /// `parent`: locals and payloads kept, each `transform` the product of
    /// its parent's with its `local`, each `inverse` recomputed.
    pub open spec fn resolved_rel(self, n: Shape, parent: Matrix) -> bool
        decreases self,
    {
        let t = crate::matrix::mmul(parent, self.local_spec());
        match (self, n) {
            (Shape::Sphere(a), Shape::Sphere(b)) => b == Sphere {
                transform: t,
                inverse: crate::matrix::minverse(t),
                ..a
            },
            (Shape::Plane(a), Shape::Plane(b)) => b == Plane {
                transform: t,
                inverse: crate::matrix::minverse(t),
                ..a
            },
            (Shape::Cube(a), Shape::Cube(b)) => b == Cube {
                transform: t,
                inverse: crate::matrix::minverse(t),
                ..a
            },
            (Shape::Triangle(a), Shape::Triangle(b)) => b == Triangle {
                transform: t,
                inverse: crate::matrix::minverse(t),
                ..a
            },
            (Shape::SmoothTriangle(a), Shape::SmoothTriangle(b)) => b == SmoothTriangle {
                transform: t,
                inverse: crate::matrix::minverse(t),
                ..a
            },
            (Shape::Group(a), Shape::Group(b)) => {
                &&& b.id == a.id
                &&& b.local == a.local
                &&& b.transform == t
                &&& b.inverse == crate::matrix::minverse(t)
                &&& b.children@.len() == a.children@.len()
                &&& forall|i: int|
                    0 <= i < a.children@.len() ==> (#[trigger] a.children@[i]).resolved_rel(
                        b.children@[i],
                        t,
                    )
            },
            _ => false,
        }
    }

    /// The subtree's resolved transforms and cached inverses are consistent
    /// under `parent`: each `transform` is its parent's times its `local`,
    /// each `inverse` is the inverse of its `transform`.
    pub open spec fn resolved_ok(self, parent: Matrix) -> bool
        decreases self,
    {
        &&& self.transform_spec() == crate::matrix::mmul(parent, self.local_spec())
        &&& self.inverse_spec() == crate::matrix::minverse(self.transform_spec())
        &&& match self {
            Shape::Group(g) => forall|i: int|
                0 <= i < g.children@.len() ==> (#[trigger] g.children@[i]).resolved_ok(
                    self.transform_spec(),
                ),
            _ => true,
        }
    }

    /// A top-level shape is well formed: its `local` and resolved transform
    /// coincide, its cached inverse matches, and every descendant is
    /// resolved under its parent.
    pub open spec fn wf_top(self) -> bool {
        &&& self.local_spec() == self.transform_spec()
        &&& self.inverse_spec() == crate::matrix::minverse(self.transform_spec())
        &&& match self {
            Shape::Group(g) => forall|i: int|
                0 <= i < g.children@.len() ==> (#[trigger] g.children@[i]).resolved_ok(
                    self.transform_spec(),
                ),
            _ => true,
        }
    }

    /// The same observable shape: equal payloads, transforms and children,
    /// compared pointwise.
    pub open spec fn same_shape(self, n: Shape) -> bool
        decreases self,
    {
        match (self, n) {
            (Shape::Group(a), Shape::Group(b)) => {
                &&& b.id == a.id
                &&& b.local == a.local
                &&& b.transform == a.transform
                &&& b.inverse == a.inverse
                &&& b.children@.len() == a.children@.len()
                &&& forall|i: int|
                    0 <= i < a.children@.len() ==> (#[trigger] a.children@[i]).same_shape(
                        b.children@[i],
                    )
            },
            _ => self == n,
        }
    }

    /// The shape with its `local` transform rebased to its current resolved
    /// transform, as on insertion into a group.
    pub open spec fn rebased_spec(self) -> Shape {
        match self {
            Shape::Sphere(a) => Shape::Sphere(Sphere { local: a.transform, ..a }),
            Shape::Plane(a) => Shape::Plane(Plane { local: a.transform, ..a }),
            Shape::Cube(a) => Shape::Cube(Cube { local: a.transform, ..a }),
            Shape::Triangle(a) => Shape::Triangle(Triangle { local: a.transform, ..a }),
            Shape::SmoothTriangle(a) => Shape::SmoothTriangle(
                SmoothTriangle { local: a.transform, ..a },
            ),
            Shape::Group(a) => Shape::Group(Group { local: a.transform, ..a }),
        }
    }

    fn rebased(self) -> (n: Shape)
        ensures
            n == self.rebased_spec(),
    {
        match self {
            Shape::Sphere(mut a) => {
                a.local = a.transform;
                Shape::Sphere(a)
            },
            Shape::Plane(mut a) => {
                a.local = a.transform;
                Shape::Plane(a)
            },
            Shape::Cube(mut a) => {
                a.local = a.transform;
                Shape::Cube(a)
            },
            Shape::Triangle(mut a) => {
                a.local = a.transform;
                Shape::Triangle(a)
            },
            Shape::SmoothTriangle(mut a) => {
                a.local = a.transform;
                Shape::SmoothTriangle(a)
            },
            Shape::Group(mut a) => {
                a.local = a.transform;
                Shape::Group(a)
            },
        }
    }

    /// The shape with every resolved transform recomputed under `parent`.
    #[verifier::rlimit(100)]
    fn recomputed(&self, parent: &Matrix) -> (n: Shape)
        requires
            self.resolvable(*parent),
        ensures
            self.resolved_rel(n, *parent),
        decreases *self,
    {
        match self {
            Shape::Sphere(a) => {
                let t = parent.mul(&a.local);
                let n0 = Shape::Sphere(Sphere { transform: t, inverse: t.inverse(), ..*a });
                proof {
                    assert(self.resolved_rel(n0, *parent));
                }
                n0
            },
            Shape::Plane(a) => {
                let t = parent.mul(&a.local);
                let n0 = Shape::Plane(Plane { transform: t, inverse: t.inverse(), ..*a });
                proof {
                    assert(self.resolved_rel(n0, *parent));
                }
                n0
            },
            Shape::Cube(a) => {
                let t = parent.mul(&a.local);
                let n0 = Shape::Cube(Cube { transform: t, inverse: t.inverse(), ..*a });
                proof {
                    assert(self.resolved_rel(n0, *parent));
                }
                n0
            },
            Shape::Triangle(a) => {
                let t = parent.mul(&a.local);
                let n0 = Shape::Triangle(Triangle { transform: t, inverse: t.inverse(), ..*a });
                proof {
                    assert(self.resolved_rel(n0, *parent));
                }
                n0
            },
            Shape::SmoothTriangle(a) => {
                let t = parent.mul(&a.local);
                let n0 = Shape::SmoothTriangle(SmoothTriangle { transform: t, inverse: t.inverse(), ..*a });
                proof {
                    assert(self.resolved_rel(n0, *parent));
                }
                n0
            },
            Shape::Group(a) => {
                let t = parent.mul(&a.local);
                let inv = t.inverse();
                let mut nc: Vec<Shape> = Vec::new();
                let mut k: usize = 0;
                while k < a.children.len()
                    invariant
                        k <= a.children.len(),
                        nc@.len() == k,
                        *self is Group,
                        self->Group_0.children == a.children,
                        self.resolvable(*parent),
                        t == crate::matrix::mmul(*parent, self.local_spec()),
                        forall|j: int|
                            0 <= j < k ==> (#[trigger] a.children@[j]).resolved_rel(nc@[j], t),
                    decreases a.children.len() - k,
                {
                    proof {
                        broadcast use vstd::std_specs::vec::axiom_vec_index_decreases;

                        assert(decreases_to!(*self => self->Group_0));
                        assert(decreases_to!(self->Group_0 => self->Group_0.children));
                        assert(decreases_to!(self->Group_0.children => self->Group_0.children[k as int]));
                        assert(self.resolvable(*parent));
                        assert(self->Group_0.children@[k as int].resolvable(
                            crate::matrix::mmul(*parent, self.local_spec()),
                        ));
                        assert(a.children@[k as int].resolvable(t));
                    }
                    let c = a.children[k].recomputed(&t);
                    nc.push(c);
                    k = k + 1;
                }
                let n0 = Shape::Group(
                    Group { id: a.id, local: a.local, transform: t, inverse: inv, children: nc },
                );
                proof {
                    assert(self.resolved_rel(n0, *parent));
                }
                n0
            },
        }
    }

    /// Replace the shape's transform. On a group this re-bases the group
    /// and recomputes every descendant's resolved transform from its kept
    /// `local`, so insertion and re-transformation order cannot skew a
    /// child's effective transform.
    #[verifier::rlimit(100)]
    pub fn set_transformation(&mut self, mat: Matrix)
        requires
            crate::matrix::invertible(mat),
            (*old(self)) matches Shape::Group(g) ==> forall|i: int|
                0 <= i < g.children@.len() ==> (#[trigger] g.children@[i]).resolvable(mat),
        ensures
            old(self).retransformed_rel(*final(self), mat),
    {
        match self {
            Shape::Sphere(a) => {
                a.local = mat;
                a.transform = mat;
                a.inverse = mat.inverse();
            },
            Shape::Plane(a) => {
                a.local = mat;
                a.transform = mat;
                a.inverse = mat.inverse();
            },
            Shape::Cube(a) => {
                a.local = mat;
                a.transform = mat;
                a.inverse = mat.inverse();
            },
            Shape::Triangle(a) => {
                a.local = mat;
                a.transform = mat;
                a.inverse = mat.inverse();
            },
            Shape::SmoothTriangle(a) => {
                a.local = mat;
                a.transform = mat;
                a.inverse = mat.inverse();
            },
            Shape::Group(a) => {
                a.local = mat;
                a.transform = mat;
                a.inverse = mat.inverse();
                let ghost old_children = a.children@;
                let mut nc: Vec<Shape> = Vec::new();
                let mut k: usize = 0;
                while k < a.children.len()
                    invariant
                        k <= a.children.len(),
                        nc@.len() == k,
                        a.children@ == old_children,
                        a.transform == mat,
                        forall|i: int|
                            0 <= i < old_children.len() ==> (#[trigger] old_children[i]).resolvable(
                                mat,
                            ),
                        forall|j: int|
                            0 <= j < k ==> (#[trigger] old_children[j]).resolved_rel(nc@[j], mat),
                    decreases a.children.len() - k,
                {
                    let c = a.children[k].recomputed(&a.transform);
                    nc.push(c);
                    k = k + 1;
                }
                a.children = nc;
            },
        }
    }

    /// `n` is `self` with its transform replaced by `mat` and, on a group,
    /// every descendant recomputed.
    pub open spec fn retransformed_rel(self, n: Shape, mat: Matrix) -> bool {
        match (self, n) {
            (Shape::Sphere(a), Shape::Sphere(b)) => b == Sphere {
                local: mat,
                transform: mat,
                inverse: crate::matrix::minverse(mat),
                ..a
            },
            (Shape::Plane(a), Shape::Plane(b)) => b == Plane {
                local: mat,
                transform: mat,
                inverse: crate::matrix::minverse(mat),
                ..a
            },
            (Shape::Cube(a), Shape::Cube(b)) => b == Cube {
                local: mat,
                transform: mat,
                inverse: crate::matrix::minverse(mat),
                ..a
            },
            (Shape::Triangle(a), Shape::Triangle(b)) => b == Triangle {
                local: mat,
                transform: mat,
                inverse: crate::matrix::minverse(mat),
                ..a
            },
            (Shape::SmoothTriangle(a), Shape::SmoothTriangle(b)) => b == SmoothTriangle {
                local: mat,
                transform: mat,
                inverse: crate::matrix::minverse(mat),
                ..a
            },
            (Shape::Group(a), Shape::Group(b)) => {
                &&& b.id == a.id
                &&& b.local == mat
                &&& b.transform == mat
                &&& b.inverse == crate::matrix::minverse(mat)
                &&& b.children@.len() == a.children@.len()
                &&& forall|i: int|
                    0 <= i < a.children@.len() ==> (#[trigger] a.children@[i]).resolved_rel(
                        b.children@[i],
                        mat,
                    )
            },
            _ => false,
        }
    }

    /// Adopt a child: its `local` becomes its current resolved transform,
    /// composed immediately with this group's resolved transform, through
    /// every descendant.
    #[verifier::rlimit(100)]
    pub fn add_child(&mut self, shape: Shape)
        requires
            *old(self) is Group,
            shape.rebased_spec().resolvable(old(self).transform_spec()),
        ensures
            *final(self) is Group,
            final(self)->Group_0.id == old(self)->Group_0.id,
            final(self)->Group_0.local == old(self)->Group_0.local,
            final(self)->Group_0.transform == old(self)->Group_0.transform,
            final(self)->Group_0.inverse == old(self)->Group_0.inverse,
            final(self)->Group_0.children@.len() == old(self)->Group_0.children@.len() + 1,
            final(self)->Group_0.children@.drop_last() == old(self)->Group_0.children@,
            shape.rebased_spec().resolved_rel(
                final(self)->Group_0.children@.last(),
                old(self).transform_spec(),
            ),
    {
        let rebased = shape.rebased();
        match self {
            Shape::Group(g) => {
                let adopted = rebased.recomputed(&g.transform);
                g.children.push(adopted);
                proof {
                    assert(final(self)->Group_0.children@.drop_last() =~= old(
                        self,
                    )->Group_0.children@);
                }
            },
            _ => {
                proof {
                    assert(false);
                }
            },
        }
    }
}


impl Shape {
    /// `n` is `self` with the material replaced, fanned out through every
    /// group to all descendants.
    pub open spec fn material_set_rel(self, n: Shape, m: Material) -> bool
        decreases self,
    {
        match (self, n) {
            (Shape::Sphere(a), Shape::Sphere(b)) => b == Sphere { material: m, ..a },
            (Shape::Plane(a), Shape::Plane(b)) => b == Plane { material: m, ..a },
            (Shape::Cube(a), Shape::Cube(b)) => b == Cube { material: m, ..a },
            (Shape::Triangle(a), Shape::Triangle(b)) => b == Triangle { material: m, ..a },
            (Shape::SmoothTriangle(a), Shape::SmoothTriangle(b)) => b == SmoothTriangle {
                material: m,
                ..a
            },
            (Shape::Group(a), Shape::Group(b)) => {
                &&& b.id == a.id
                &&& b.local == a.local
                &&& b.transform == a.transform
                &&& b.inverse == a.inverse
                &&& b.children@.len() == a.children@.len()
                &&& forall|i: int|
                    0 <= i < a.children@.len() ==> (#[trigger] a.children@[i]).material_set_rel(
                        b.children@[i],
                        m,
                    )
            },
            _ => false,
        }
    }

    fn with_material(&self, m: &Material) -> (n: Shape)
        ensures
            self.material_set_rel(n, *m),
        decreases *self,
    {
        match self {
            Shape::Sphere(a) => Shape::Sphere(Sphere { material: *m, ..*a }),
            Shape::Plane(a) => Shape::Plane(Plane { material: *m, ..*a }),
            Shape::Cube(a) => Shape::Cube(Cube { material: *m, ..*a }),
            Shape::Triangle(a) => Shape::Triangle(Triangle { material: *m, ..*a }),
            Shape::SmoothTriangle(a) => Shape::SmoothTriangle(
                SmoothTriangle { material: *m, ..*a },
            ),
            Shape::Group(a) => {
                let mut nc: Vec<Shape> = Vec::new();
                let mut k: usize = 0;
                while k < a.children.len()
                    invariant
                        k <= a.children.len(),
                        nc@.len() == k,
                        *self is Group,
                        self->Group_0.children == a.children,
                        forall|j: int|
                            0 <= j < k ==> (#[trigger] a.children@[j]).material_set_rel(
                                nc@[j],
                                *m,
                            ),
                    decreases a.children.len() - k,
                {
                    proof {
                        broadcast use vstd::std_specs::vec::axiom_vec_index_decreases;

                        assert(decreases_to!(*self => self->Group_0));
                        assert(decreases_to!(self->Group_0 => self->Group_0.children));
                        assert(decreases_to!(self->Group_0.children => self->Group_0.children[k as int]));
                    }
                    let c = a.children[k].with_material(m);
                    nc.push(c);
                    k = k + 1;
                }
                let n0 = Shape::Group(
                    Group {
                        id: a.id,
                        local: a.local,
                        transform: a.transform,
                        inverse: a.inverse,
                        children: nc,
                    },
                );
                proof {
                    assert(self.material_set_rel(n0, *m));
                }
                n0
            },
        }
    }

    /// Replace the material; a group hands the material to every child.
    pub fn set_material(&mut self, material: Material)
        ensures
            old(self).material_set_rel(*final(self), material),
    {
        let n = self.with_material(&material);
        *self = n;
    }
}

/// A subtree whose resolved transforms are consistent under `parent` is
/// observably unchanged by recomputing them under the same parent.
proof fn lemma_resolved_rel_same(o: Shape, n: Shape, parent: Matrix)
    requires
        o.resolved_ok(parent),
        o.resolved_rel(n, parent),
    ensures
        o.same_shape(n),
    decreases o,
{
    match (o, n) {
        (Shape::Group(a), Shape::Group(b)) => {
            assert forall|i: int| 0 <= i < a.children@.len() implies (
            #[trigger] a.children@[i]).same_shape(b.children@[i]) by {
                lemma_resolved_rel_same(a.children@[i], b.children@[i], a.transform);
            }
        },
        _ => {},
    }
}

/// Observably equal shapes have equal transforms.
proof fn lemma_same_shape_fields(a: Shape, b: Shape)
    requires
        a.same_shape(b),
    ensures
        a.transform_spec() == b.transform_spec(),
        a.inverse_spec() == b.inverse_spec(),
        a.local_spec() == b.local_spec(),
        a.id_spec() == b.id_spec(),
        (a is Group) == (b is Group),
{
}

/// Observably equal shapes have equal boxes and report identical
/// intersections for every ray.
proof fn lemma_same_shape_observables(a: Shape, b: Shape)
    requires
        a.same_shape(b),
    ensures
        a.bounds_spec() == b.bounds_spec(),
        forall|r: Ray| a.intersect_spec(r) == #[trigger] b.intersect_spec(r),
    decreases a, 1int,
{
    match (a, b) {
        (Shape::Group(ga), Shape::Group(gb)) => {
            lemma_same_seq_observables(ga.children@, gb.children@);
            assert(a.bounds_spec() == b.bounds_spec());
            assert forall|r: Ray| a.intersect_spec(r) == #[trigger] b.intersect_spec(r) by {
                assert(a.intersect_spec(r) == group_intersect_spec(ga.children@, r));
                assert(b.intersect_spec(r) == group_intersect_spec(gb.children@, r));
            }
        },
        _ => {
            assert(a == b);
        },
    }
}

/// Pointwise observably equal children unions and fans agree.
proof fn lemma_same_seq_observables(sa: Seq<Shape>, sb: Seq<Shape>)
    requires
        sa.len() == sb.len(),
        forall|i: int| 0 <= i < sa.len() ==> (#[trigger] sa[i]).same_shape(sb[i]),
    ensures
        group_bounds_spec(sa) == group_bounds_spec(sb),
        forall|r: Ray| group_intersect_spec(sa, r) == #[trigger] group_intersect_spec(sb, r),
    decreases sa, 2int,
{
    if sa.len() > 0 {
        assert(forall|i: int|
            0 <= i < sa.drop_last().len() ==> (#[trigger] sa.drop_last()[i]).same_shape(
                sb.drop_last()[i],
            ));
        lemma_same_seq_observables(sa.drop_last(), sb.drop_last());
        lemma_same_shape_observables(sa.last(), sb.last());
        lemma_same_shape_fields(sa.last(), sb.last());
        assert(child_box_spec(sa.last()) == child_box_spec(sb.last()));
        assert(group_bounds_spec(sa) == group_bounds_spec(sb));
        assert forall|r: Ray| group_intersect_spec(sa, r) == #[trigger] group_intersect_spec(
            sb,
            r,
        ) by {
            assert(group_intersect_spec(sa.drop_last(), r) == group_intersect_spec(
                sb.drop_last(),
                r,
            ));
            assert(sa.last().intersect_spec(r) == sb.last().intersect_spec(r));
            assert(group_intersect_spec(sa, r) == group_intersect_spec(sa.drop_last(), r)
                + sa.last().intersect_spec(r));
            assert(group_intersect_spec(sb, r) == group_intersect_spec(sb.drop_last(), r)
                + sb.last().intersect_spec(r));
        }
    } else {
        assert(sa =~= sb);
    }
}

/// Re-assigning a well-formed shape its own transform is a pure re-basing:
/// every descendant keeps its effective world transform, so the shape's
/// world-space box and its hits for every ray are unchanged.
#[verifier::rlimit(100)]
#[verifier::spinoff_prover]
pub proof fn lemma_retransform_same_is_noop(s: Shape, n: Shape)
    requires
        s.wf_top(),
        s.retransformed_rel(n, s.transform_spec()),
    ensures
        s.same_shape(n),
        s.bounds_spec() == n.bounds_spec(),
        forall|r: Ray| s.intersect_spec(r) == #[trigger] n.intersect_spec(r),
{
    match (s, n) {
        (Shape::Group(a), Shape::Group(b)) => {
            assert forall|i: int| 0 <= i < a.children@.len() implies (
            #[trigger] a.children@[i]).same_shape(b.children@[i]) by {
                lemma_resolved_rel_same(a.children@[i], b.children@[i], a.transform);
            }
        },
        _ => {},
    }
    lemma_same_shape_observables(s, n);
}

/// Transform invariance of intersection: for any shape with local geometry
/// (a sphere among them) under any invertible transform, intersecting a
/// world ray equals intersecting the inverse-transformed ray against the
/// untransformed primitive, with identical parameters returned.
pub proof fn lemma_intersect_transform_invariance(s: Shape, r: Ray)
    requires
        !(s is Group),
    ensures
        s.intersect_spec(r) == s.local_intersect_spec(rtransform(r, s.inverse_spec())),
{
}

/// The normal of an untransformed sphere at a surface point is the
/// normalized vector from the origin to that point: with the identity
/// cached inverse, the world normal is the local point itself, read as a
/// direction and scaled to length one.
pub proof fn lemma_sphere_normal_untransformed(s: Shape, p: Vec4, i: Intersection)
    requires
        s is Sphere,
        s.inverse_spec() == crate::matrix::eye_spec(),
        p.x.raw > i64::MIN,
        p.y.raw > i64::MIN,
        p.z.raw > i64::MIN,
        p.w.raw > i64::MIN,
    ensures
        s.normal_spec(p, i) == vnorm(Vec4 { x: p.x, y: p.y, z: p.z, w: Fx { raw: 0 } }),
{
    crate::matrix::lemma_mvmul_eye(p);
    let origin = Vec4 { x: Fx { raw: 0 }, y: Fx { raw: 0 }, z: Fx { raw: 0 }, w: Fx { raw: SCALE } };
    let ln = vsub(p, origin);
    assert(ln.x == p.x && ln.y == p.y && ln.z == p.z);
    assert(crate::matrix::mtranspose(crate::matrix::eye_spec()) == crate::matrix::eye_spec());
    crate::matrix::lemma_mvmul_eye(ln);
}

/// The material of the first shape of a sequence; the stock material when
/// it is empty.
pub open spec fn first_material_spec(s: Seq<Shape>) -> Material
    decreases s,
{
    if s.len() == 0 {
        default_material()
    } else {
        s[0].material_spec()
    }
}

/// The concatenated world-space hits of a ray against a sequence of shapes.
pub open spec fn group_intersect_spec(s: Seq<Shape>, ray: Ray) -> Seq<Intersection>
    decreases s,
{
    if s.len() == 0 {
        Seq::empty()
    } else {
        group_intersect_spec(s.drop_last(), ray) + s.last().intersect_spec(ray)
    }
}

/// The starting box of a bounds union: inverted, so the first finite child
/// box replaces it.
pub open spec fn empty_group_bounds_spec() -> Bounds {
    Bounds {
        min: Vec4 {
            x: Fx { raw: MAX_RAW },
            y: Fx { raw: MAX_RAW },
            z: Fx { raw: MAX_RAW },
            w: Fx { raw: SCALE },
        },
        max: Vec4 {
            x: Fx { raw: (-MAX_RAW) as i64 },
            y: Fx { raw: (-MAX_RAW) as i64 },
            z: Fx { raw: (-MAX_RAW) as i64 },
            w: Fx { raw: SCALE },
        },
    }
}

fn empty_group_bounds() -> (b: Bounds)
    ensures
        b == empty_group_bounds_spec(),
{
    let inf = Fx { raw: MAX_RAW };
    let ninf = Fx { raw: (-MAX_RAW) as i64 };
    Bounds { min: Vec4::point(inf, inf, inf), max: Vec4::point(ninf, ninf, ninf) }
}

/// A child's box in the parent's frame: a group's box is already resolved,
/// a leaf's is carried by its resolved transform.
pub open spec fn child_box_spec(c: Shape) -> Bounds
    decreases c, 1int,
{
    if c is Group {
        c.bounds_spec()
    } else {
        btransform(c.bounds_spec(), c.transform_spec())
    }
}

/// The union box over a sequence of children, skipping non-finite child
/// boxes.
pub open spec fn group_bounds_spec(s: Seq<Shape>) -> Bounds
    decreases s, 2int,
{
    if s.len() == 0 {
        empty_group_bounds_spec()
    } else {
        let acc = group_bounds_spec(s.drop_last());
        let b = child_box_spec(s.last());
        if !bounds_finite(b) {
            acc
        } else {
            Bounds {
                min: Vec4 {
                    x: fxmin(acc.min.x, b.min.x),
                    y: fxmin(acc.min.y, b.min.y),
                    z: fxmin(acc.min.z, b.min.z),
                    w: Fx { raw: SCALE },
                },
                max: Vec4 {
                    x: fxmax(acc.max.x, b.max.x),
                    y: fxmax(acc.max.y, b.max.y),
                    z: fxmax(acc.max.z, b.max.z),
                    w: Fx { raw: SCALE },
                },
            }
        }
    }
}

} // verus!
