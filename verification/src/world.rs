//! The scene and the recursive shading pipeline.
//!
//! A world owns its top-level shapes and one point light. A primary ray is
//! intersected against every shape, the hits sorted by `t`; the visible hit
//! is shaded by local illumination plus reflected and refracted
//! contributions, each recursion strictly consuming the bounce budget, so a
//! ray's shading ends after at most the budget plus one evaluations.

use crate::color::{black_spec, cadd, cscale, Color};
use crate::intersection::{hit_spec, prepare_spec, schlick_spec, Intersection};
use crate::light::PointLight;
use crate::material::{default_material, lighting_spec, Material};
use crate::math::{fxmul, fxsqrt, fxsub, lemma_fxmul_zero, Fx, SCALE};
use crate::matrix::Matrix;
use crate::ray::Ray;
use crate::shapes::{group_intersect_spec, Shape};
use crate::vec4::{vdot, vmagnitude, vnorm, vsub, Vec4};
use vstd::prelude::*;

verus! {

#[derive(Debug)]
pub struct World {
    pub light: PointLight,
    pub shapes: Vec<Shape>,
}

/// Entries are ordered by `t`, adjacent-wise.
pub open spec fn sorted_by_t(s: Seq<Intersection>) -> bool {
    forall|k: int| 0 <= k < s.len() - 1 ==> (#[trigger] s[k]).t.raw <= s[k + 1].t.raw
}

/// `x` inserted behind the last entry whose `t` does not exceed it.
pub open spec fn insert_spec(s: Seq<Intersection>, x: Intersection) -> Seq<Intersection>
    decreases s,
{
    if s.len() == 0 {
        seq![x]
    } else if x.t.raw < s.last().t.raw {
        insert_spec(s.drop_last(), x).push(s.last())
    } else {
        s.push(x)
    }
}

/// Insertion sort: stable, ascending by `t`.
pub open spec fn sort_spec(s: Seq<Intersection>) -> Seq<Intersection>
    decreases s,
{
    if s.len() == 0 {
        Seq::empty()
    } else {
        insert_spec(sort_spec(s.drop_last()), s.last())
    }
}

/// Inserting into a sorted list keeps it sorted.
proof fn lemma_insert_sorted(s: Seq<Intersection>, x: Intersection)
    requires
        sorted_by_t(s),
    ensures
        sorted_by_t(insert_spec(s, x)),
        insert_spec(s, x).len() == s.len() + 1,
        s.len() == 0 ==> insert_spec(s, x) == seq![x],
        s.len() > 0 ==> insert_spec(s, x).last() == (if x.t.raw < s.last().t.raw {
            s.last()
        } else {
            x
        }),
    decreases s,
{
    if s.len() > 0 {
        assert(sorted_by_t(s.drop_last()));
        lemma_insert_sorted(s.drop_last(), x);
    }
}

/// The sort's output is sorted.
pub proof fn lemma_sort_sorted(s: Seq<Intersection>)
    ensures
        sorted_by_t(sort_spec(s)),
        sort_spec(s).len() == s.len(),
    decreases s,
{
    if s.len() > 0 {
        lemma_sort_sorted(s.drop_last());
        lemma_insert_sorted(sort_spec(s.drop_last()), s.last());
    }
}

/// Every hit of a ray against the world: the concatenated hits of every
/// top-level shape, sorted ascending by `t`.
pub open spec fn world_xs_spec(w: World, ray: Ray) -> Seq<Intersection> {
    sort_spec(group_intersect_spec(w.shapes@, ray))
}

/// The first shape of the sequence, in depth-first order, carrying the id.
pub open spec fn find_seq_spec(s: Seq<Shape>, id: usize) -> Option<Shape>
    decreases s, 1int,
{
    if s.len() == 0 {
        None
    } else {
        match find_in_shape_spec(s[0], id) {
            Some(f) => Some(f),
            None => find_seq_spec(s.subrange(1, s.len() as int), id),
        }
    }
}

/// The shape itself when it carries the id, else the first descendant that
/// does.
pub open spec fn find_in_shape_spec(s: Shape, id: usize) -> Option<Shape>
    decreases s, 2int,
{
    if s.id_spec() == id {
        Some(s)
    } else {
        match s {
            Shape::Group(g) => find_seq_spec(g.children@, id),
            _ => None,
        }
    }
}

/// The refractive index of the shape with the given id; vacuum when no
/// shape carries it.
pub open spec fn ri_of(shapes: Seq<Shape>, id: usize) -> Fx {
    match find_seq_spec(shapes, id) {
        Some(s) => s.material_spec().refractive_index,
        None => Fx { raw: SCALE },
    }
}

/// The material seen at a hit: the hit shape's, or the stock material for a
/// dangling id.
pub open spec fn material_of_id(w: World, id: usize) -> Material {
    match find_seq_spec(w.shapes@, id) {
        Some(s) => s.material_spec(),
        None => default_material(),
    }
}

/// The point is cut off from the light: the nearest hit on the ray from the
/// point toward the light lies closer than the light.
pub open spec fn is_shadowed_spec(w: World, point: Vec4) -> bool {
    let v = vsub(w.light.position, point);
    let dist = vmagnitude(v);
    let dir = vnorm(v);
    let xs = world_xs_spec(w, Ray { origin: point, direction: dir });
    match hit_spec(xs) {
        Some(h) => h.t.raw < dist.raw,
        None => false,
    }
}

/// The color seen along a ray: black on a miss, otherwise the visible hit
/// shaded with the remaining bounce budget.
pub open spec fn color_at_spec(w: World, ray: Ray, remaining: nat) -> Color
    decreases remaining, 3int,
{
    let xs = world_xs_spec(w, ray);
    match hit_spec(xs) {
        None => black_spec(),
        Some(h) => shade_hit_spec(w, prepare_spec(w, h, ray, xs), remaining),
    }
}

/// Local illumination (ambient only in shadow), plus the reflected and
/// refracted contributions; a material both reflective and transparent
/// blends them by the Schlick reflectance.
pub open spec fn shade_hit_spec(w: World, comps: crate::intersection::Computations, remaining: nat) -> Color
    decreases remaining, 2int,
{
    match find_seq_spec(w.shapes@, comps.object) {
        None => black_spec(),
        Some(s) => {
            let in_shadow = is_shadowed_spec(w, comps.over_point);
            let surface = lighting_spec(
                s.material_spec(),
                s.inverse_spec(),
                w.light,
                comps.point,
                comps.eyev,
                comps.normalv,
                in_shadow,
            );
            let reflected = reflected_color_spec(w, comps, remaining);
            let refracted = refracted_color_spec(w, comps, remaining);
            let mat = s.material_spec();
            if mat.reflective.raw > 0 && mat.transparency.raw > 0 {
                let reflectance = schlick_spec(comps);
                cadd(
                    cadd(surface, cscale(reflected, reflectance)),
                    cscale(refracted, fxsub(Fx { raw: SCALE }, reflectance)),
                )
            } else {
                cadd(cadd(surface, reflected), refracted)
            }
        },
    }
}

/// The reflected contribution: black when the budget is spent or the
/// material does not reflect, else the color along the reflection ray from
/// the biased point, scaled by the reflectivity.
pub open spec fn reflected_color_spec(
    w: World,
    comps: crate::intersection::Computations,
    remaining: nat,
) -> Color
    decreases remaining, 1int,
{
    let mat = material_of_id(w, comps.object);
    let c = if mat.reflective.raw == 0 || remaining == 0 {
        black_spec()
    } else {
        color_at_spec(
            w,
            Ray { origin: comps.over_point, direction: comps.reflectv },
            (remaining - 1) as nat,
        )
    };
    cscale(c, mat.reflective)
}

/// The refracted contribution: black when the budget is spent, the material
/// is opaque, or total internal reflection sets in; else the color along
/// the Snell-law ray from the under-point, scaled by the transparency.
pub open spec fn refracted_color_spec(
    w: World,
    comps: crate::intersection::Computations,
    remaining: nat,
) -> Color
    decreases remaining, 0int,
{
    let one = Fx { raw: SCALE };
    let mat = material_of_id(w, comps.object);
    if remaining == 0 {
        black_spec()
    } else if mat.transparency.raw == 0 {
        black_spec()
    } else {
        let n_ratio = crate::math::fxdiv(comps.n1, comps.n2);
        let cos_i = vdot(comps.eyev, comps.normalv);
        let sin2_t = fxmul(fxmul(n_ratio, n_ratio), fxsub(one, fxmul(cos_i, cos_i)));
        if sin2_t.raw > SCALE {
            black_spec()
        } else {
            let cos_t = fxsqrt(fxsub(one, sin2_t));
            let direction = vsub(
                crate::vec4::vscale(comps.normalv, fxsub(fxmul(n_ratio, cos_i), cos_t)),
                crate::vec4::vscale(comps.eyev, n_ratio),
            );
            cscale(
                color_at_spec(
                    w,
                    Ray { origin: comps.under_point, direction },
                    (remaining - 1) as nat,
                ),
                mat.transparency,
            )
        }
    }
}

impl World {
    pub fn new(light: PointLight) -> (w: World)
        ensures
            w.light == light,
            w.shapes@ =~= Seq::<Shape>::empty(),
    {
        World { light, shapes: Vec::new() }
    }

    /// The stock two-sphere scene: an outer colored sphere and an inner
    /// sphere at half scale, lit from the upper left.
    pub fn default() -> (w: World)
        ensures
            w.light.position == (Vec4 {
                x: Fx { raw: (-10 * SCALE) as i64 },
                y: Fx { raw: (10 * SCALE) as i64 },
                z: Fx { raw: (-10 * SCALE) as i64 },
                w: Fx { raw: SCALE },
            }),
            w.shapes@.len() == 2,
            w.shapes@[0].id_spec() == 1,
            w.shapes@[1].id_spec() == 2,
            w.shapes@[0].material_spec().diffuse == (Fx { raw: (7 * (SCALE / 10)) as i64 }),
            w.shapes@[1].transform_spec() == crate::transform::scaling_spec(
                Fx { raw: (SCALE / 2) as i64 },
                Fx { raw: (SCALE / 2) as i64 },
                Fx { raw: (SCALE / 2) as i64 },
            ),
            !(w.shapes@[0] is Group) && !(w.shapes@[1] is Group),
    {
        let m10 = Fx { raw: -10 * SCALE };
        let p10 = Fx { raw: 10 * SCALE };
        let mut world = World {
            light: PointLight::new(Vec4::point(m10, p10, m10), Color::white()),
            shapes: Vec::new(),
        };
        let mut s1 = crate::shapes::sphere::Sphere::new(1);
        let mut mat1 = Material::default();
        mat1.set_color(
            Color {
                r: Fx { raw: 8 * (SCALE / 10) },
                g: Fx { raw: SCALE },
                b: Fx { raw: 6 * (SCALE / 10) },
            },
        );
        mat1.diffuse = Fx { raw: 7 * (SCALE / 10) };
        mat1.specular = Fx { raw: 2 * (SCALE / 10) };
        s1.set_material(mat1);

        let mut s2 = crate::shapes::sphere::Sphere::new(2);
        s2.set_material(Material::default());
        let half = Fx { raw: SCALE / 2 };
        let scale_half = Matrix::scaling(half, half, half);
        proof {
            crate::transform::lemma_scaling_det(half, half, half);
            assert(fxmul(half, half) == Fx { raw: (SCALE / 4) as i64 }) by {
                assert(crate::math::abs_int(2500000000000000) == 2500000000000000);
                assert(crate::math::abs_int(100000000) == 100000000);
                assert(2500000000000000int / 100000000int == 25000000int);
            }
            assert(fxmul(half, fxmul(half, half)) == Fx { raw: (SCALE / 8) as i64 }) by {
                assert(crate::math::abs_int(1250000000000000) == 1250000000000000);
                assert(crate::math::abs_int(100000000) == 100000000);
                assert(1250000000000000int / 100000000int == 12500000int);
            }
        }
        s2.set_transformation(scale_half);

        world.add_shape(s1);
        world.add_shape(s2);
        world
    }

    pub fn add_shape(&mut self, shape: Shape)
        ensures
            final(self).light == old(self).light,
            final(self).shapes@ == old(self).shapes@.push(shape),
    {
        self.shapes.push(shape);
    }

    /// The first shape, in depth-first order, carrying the id.
    pub fn find_shape(&self, id: usize) -> (r: Option<&Shape>)
        ensures
            match r {
                Some(f) => find_seq_spec(self.shapes@, id) == Some(*f),
                None => find_seq_spec(self.shapes@, id) is None,
            },
    {
        find_in_seq(&self.shapes, id)
    }

    /// Every hit of the ray against the scene, sorted ascending by `t`.
    pub fn intersect(&self, ray: &Ray) -> (r: Vec<Intersection>)
        ensures
            r@ == world_xs_spec(*self, *ray),
            sorted_by_t(r@),
    {
        let mut xs: Vec<Intersection> = Vec::new();
        let mut k: usize = 0;
        proof {
            assert(xs@ =~= group_intersect_spec(self.shapes@.take(0), *ray));
        }
        while k < self.shapes.len()
            invariant
                k <= self.shapes.len(),
                xs@ == group_intersect_spec(self.shapes@.take(k as int), *ray),
            decreases self.shapes.len() - k,
        {
            let mut more = self.shapes[k].intersect(ray);
            xs.append(&mut more);
            proof {
                assert(self.shapes@.take(k + 1).drop_last() =~= self.shapes@.take(k as int));
                assert(self.shapes@.take(k + 1).last() == self.shapes@[k as int]);
                assert(xs@ =~= group_intersect_spec(self.shapes@.take(k + 1), *ray));
            }
            k = k + 1;
        }
        proof {
            assert(self.shapes@.take(self.shapes@.len() as int) =~= self.shapes@);
        }
        let sorted = sort_by_t(xs);
        proof {
            lemma_sort_sorted(group_intersect_spec(self.shapes@, *ray));
        }
        sorted
    }

    /// Whether the point is cut off from the light.
    pub fn is_shadowed(&self, point: &Vec4) -> (r: bool)
        ensures
            r == is_shadowed_spec(*self, *point),
    {
        let v = self.light.position.sub(*point);
        let dist = v.magnitude();
        let dir = v.norm();
        let r = Ray::from_vec4(*point, dir);
        let intersections = self.intersect(&r);
        match Intersection::hit(&intersections) {
            Some(h) => h.t.raw < dist.raw,
            None => false,
        }
    }

    /// The color seen along a ray, with the given bounce budget.
    pub fn color_at(&self, ray: &Ray, remaining: usize) -> (c: Color)
        ensures
            c == color_at_spec(*self, *ray, remaining as nat),
        decreases remaining, 3int,
    {
        let xs = self.intersect(ray);
        match Intersection::hit(&xs) {
            Some(h) => {
                let comps = h.prepare_computations(ray, &xs, self);
                self.shade_hit(&comps, remaining)
            },
            None => Color::black(),
        }
    }

    /// Shade the visible hit: local illumination plus reflection and
    /// refraction; a hit whose shape is missing from the scene shades
    /// black.
    pub fn shade_hit(&self, comps: &crate::intersection::Computations, remaining: usize) -> (c:
        Color)
        ensures
            c == shade_hit_spec(*self, *comps, remaining as nat),
        decreases remaining, 2int,
    {
        let found = self.find_shape(comps.object);
        match found {
            None => Color::black(),
            Some(s) => {
                let mat = s.material();
                let in_shadow = self.is_shadowed(&comps.over_point);
                let surface = Material::lighting(
                    &mat,
                    s,
                    &self.light,
                    &comps.point,
                    &comps.eyev,
                    &comps.normalv,
                    in_shadow,
                );
                let reflected = self.reflected_color(comps, remaining);
                let refracted = self.refracted_color(comps, remaining);
                if mat.reflective.raw > 0 && mat.transparency.raw > 0 {
                    let reflectance = comps.schlick();
                    let one = Fx { raw: SCALE };
                    surface.add(reflected.scale(reflectance)).add(
                        refracted.scale(one.sub(reflectance)),
                    )
                } else {
                    surface.add(reflected).add(refracted)
                }
            },
        }
    }

    /// The reflected contribution at a hit. A spent budget contributes
    /// black whatever the material.
    pub fn reflected_color(
        &self,
        comps: &crate::intersection::Computations,
        remaining: usize,
    ) -> (c: Color)
        ensures
            c == reflected_color_spec(*self, *comps, remaining as nat),
            remaining == 0 ==> c == black_spec(),
        decreases remaining, 1int,
    {
        let mat = match self.find_shape(comps.object) {
            Some(s) => s.material(),
            None => Material::default(),
        };
        let c = if mat.reflective.raw == 0 || remaining == 0 {
            Color::black()
        } else {
            let reflect_ray = Ray::from_vec4(comps.over_point, comps.reflectv);
            self.color_at(&reflect_ray, remaining - 1)
        };
        proof {
            if remaining == 0 {
                lemma_fxmul_zero(mat.reflective);
            }
        }
        c.scale(mat.reflective)
    }

    /// The refracted contribution at a hit. A spent budget contributes
    /// black whatever the material; so does total internal reflection.
    pub fn refracted_color(
        &self,
        comps: &crate::intersection::Computations,
        remaining: usize,
    ) -> (c: Color)
        ensures
            c == refracted_color_spec(*self, *comps, remaining as nat),
            remaining == 0 ==> c == black_spec(),
        decreases remaining, 0int,
    {
        if remaining == 0 {
            return Color::black();
        }
        let mat = match self.find_shape(comps.object) {
            Some(s) => s.material(),
            None => Material::default(),
        };
        if mat.transparency.raw == 0 {
            return Color::black();
        }
        let one = Fx { raw: SCALE };
        let n_ratio = comps.n1.div(comps.n2);
        let cos_i = comps.eyev.dot(&comps.normalv);
        let sin2_t = n_ratio.mul(n_ratio).mul(one.sub(cos_i.mul(cos_i)));
        if sin2_t.raw > SCALE {
            return Color::black();
        }
        let cos_t = one.sub(sin2_t).sqrt();
        let direction = comps.normalv.scale(n_ratio.mul(cos_i).sub(cos_t)).sub(
            comps.eyev.scale(n_ratio),
        );
        let refract_ray = Ray::from_vec4(comps.under_point, direction);
        self.color_at(&refract_ray, remaining - 1).scale(mat.transparency)
    }
}

/// The insertion step on concrete values, mirroring `insert_spec`.
fn insert_by_t(out: &mut Vec<Intersection>, x: Intersection)
    ensures
        final(out)@ == insert_spec(old(out)@, x),
    decreases old(out)@.len(),
{
    if out.len() == 0 {
        out.push(x);
        proof {
            assert(out@ =~= seq![x]);
        }
        return ;
    }
    let last = out[out.len() - 1];
    if x.t.raw < last.t.raw {
        let popped = out.pop().unwrap();
        insert_by_t(out, x);
        out.push(popped);
        proof {
            assert(old(out)@.drop_last() =~= old(out)@.subrange(
                0,
                old(out)@.len() - 1,
            ));
        }
    } else {
        out.push(x);
    }
}

/// Insertion sort on concrete values, mirroring `sort_spec`.
fn sort_by_t(xs: Vec<Intersection>) -> (r: Vec<Intersection>)
    ensures
        r@ == sort_spec(xs@),
{
    let mut out: Vec<Intersection> = Vec::new();
    let mut k: usize = 0;
    proof {
        assert(out@ =~= sort_spec(xs@.take(0)));
    }
    while k < xs.len()
        invariant
            k <= xs.len(),
            out@ == sort_spec(xs@.take(k as int)),
        decreases xs.len() - k,
    {
        insert_by_t(&mut out, xs[k]);
        proof {
            assert(xs@.take(k + 1).drop_last() =~= xs@.take(k as int));
            assert(xs@.take(k + 1).last() == xs@[k as int]);
        }
        k = k + 1;
    }
    proof {
        assert(xs@.take(xs@.len() as int) =~= xs@);
    }
    out
}

/// Depth-first search by id over a sequence of shapes.
fn find_in_seq(shapes: &Vec<Shape>, id: usize) -> (r: Option<&Shape>)
    ensures
        match r {
            Some(f) => find_seq_spec(shapes@, id) == Some(*f),
            None => find_seq_spec(shapes@, id) is None,
        },
{
    let mut k: usize = 0;
    proof {
        assert(shapes@.subrange(0, shapes@.len() as int) =~= shapes@);
    }
    while k < shapes.len()
        invariant
            k <= shapes.len(),
            find_seq_spec(shapes@, id) == find_seq_spec(
                shapes@.subrange(k as int, shapes@.len() as int),
                id,
            ),
        decreases shapes.len() - k,
    {
        let found = find_in_shape(&shapes[k], id);
        proof {
            let rest = shapes@.subrange(k as int, shapes@.len() as int);
            assert(rest[0] == shapes@[k as int]);
            assert(rest.subrange(1, rest.len() as int) =~= shapes@.subrange(
                k + 1,
                shapes@.len() as int,
            ));
        }
        if found.is_some() {
            return found;
        }
        k = k + 1;
    }
    proof {
        assert(shapes@.subrange(shapes@.len() as int, shapes@.len() as int) =~= Seq::<
            Shape,
        >::empty());
    }
    None
}

/// The shape itself when it carries the id, else a depth-first search of
/// its children.
fn find_in_shape(shape: &Shape, id: usize) -> (r: Option<&Shape>)
    ensures
        match r {
            Some(f) => find_in_shape_spec(*shape, id) == Some(*f),
            None => find_in_shape_spec(*shape, id) is None,
        },
    decreases *shape,
{
    if shape.id() == id {
        return Some(shape);
    }
    match shape {
        Shape::Group(g) => {
            let mut k: usize = 0;
            proof {
                assert(g.children@.subrange(0, g.children@.len() as int) =~= g.children@);
            }
            while k < g.children.len()
                invariant
                    k <= g.children.len(),
                    *shape is Group,
                    shape->Group_0.children == g.children,
                    shape.id_spec() != id,
                    find_in_shape_spec(*shape, id) == find_seq_spec(
                        g.children@.subrange(k as int, g.children@.len() as int),
                        id,
                    ),
                decreases g.children.len() - k,
            {
                proof {
                    broadcast use vstd::std_specs::vec::axiom_vec_index_decreases;

                    assert(decreases_to!(*shape => shape->Group_0));
                    assert(decreases_to!(shape->Group_0 => shape->Group_0.children));
                    assert(decreases_to!(shape->Group_0.children => shape->Group_0.children[k as int]));
                }
                let found = find_in_shape(&g.children[k], id);
                proof {
                    let rest = g.children@.subrange(k as int, g.children@.len() as int);
                    assert(rest[0] == g.children@[k as int]);
                    assert(rest.subrange(1, rest.len() as int) =~= g.children@.subrange(
                        k + 1,
                        g.children@.len() as int,
                    ));
                }
                if found.is_some() {
                    return found;
                }
                k = k + 1;
            }
            proof {
                assert(g.children@.subrange(g.children@.len() as int, g.children@.len() as int)
                    =~= Seq::<Shape>::empty());
            }
            None
        },
        _ => None,
    }
}

} // verus!
