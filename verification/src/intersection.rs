//! Intersections and the per-hit shading frame.
//!
//! An intersection records the ray parameter `t`, the id of the hit shape,
//! and, for smooth triangles, the barycentric pair (u, v). `hit` selects the
//! visible intersection: among those with `t >= 0`, one with minimal `t`.
//! Equality (`==`) is approximate on `t` alone, as the original ordering is.

use crate::math::{
    approx, fxadd, fxdiv, fxmul, fxpow, fxsqrt, fxsub, ApproxEq, Fx, EPSILON_RAW, SCALE,
};
use crate::ray::{rposition, Ray};
use crate::vec4::{vadd, vdot, vneg, vreflect, vscale, vsub, Vec4};
use crate::world::{find_seq_spec, ri_of, World};
use vstd::prelude::*;

verus! {

/// The derived shading frame at a hit.
#[derive(Clone, Copy, Debug)]
pub struct Computations {
    /// Id of the hit shape.
    pub object: usize,
    pub point: Vec4,
    pub eyev: Vec4,
    pub normalv: Vec4,
    pub inside: bool,
    pub over_point: Vec4,
    pub reflectv: Vec4,
    pub n1: Fx,
    pub n2: Fx,
    pub under_point: Vec4,
}

/// The shading frame from its raw parts: the normal flipped toward the eye
/// (recording `inside`), the reflection of the ray direction, and the two
/// points biased off the surface by the tolerance along the facing normal.
pub open spec fn comps_new_spec(
    object: usize,
    point: Vec4,
    eyev: Vec4,
    normalv: Vec4,
    raydir: Vec4,
    n1: Fx,
    n2: Fx,
) -> Computations {
    let inside = vdot(normalv, eyev).raw < 0;
    let nv = if inside {
        vneg(normalv)
    } else {
        normalv
    };
    let eps = Fx { raw: EPSILON_RAW };
    Computations {
        object,
        point,
        eyev,
        normalv: nv,
        inside,
        over_point: vadd(point, vscale(nv, eps)),
        reflectv: vreflect(raydir, nv),
        n1,
        n2,
        under_point: vsub(point, vscale(nv, eps)),
    }
}

/// The Schlick approximation to the Fresnel reflectance: exactly one under
/// total internal reflection, else `r0 + (1 - r0) * (1 - cos)^5` with the
/// transmitted cosine when leaving the denser medium.
pub open spec fn schlick_spec(c: Computations) -> Fx {
    let one = Fx { raw: SCALE };
    let cos0 = vdot(c.eyev, c.normalv);
    let sin2_t = fxmul(
        fxmul(fxdiv(c.n1, c.n2), fxdiv(c.n1, c.n2)),
        fxsub(one, fxmul(cos0, cos0)),
    );
    if c.n1.raw > c.n2.raw && sin2_t.raw > SCALE {
        one
    } else {
        let cos = if c.n1.raw > c.n2.raw {
            fxsqrt(fxsub(one, sin2_t))
        } else {
            cos0
        };
        let r0q = fxdiv(fxsub(c.n1, c.n2), fxadd(c.n1, c.n2));
        let r0 = fxmul(r0q, r0q);
        fxadd(r0, fxmul(fxsub(one, r0), fxpow(fxsub(one, cos), 5)))
    }
}

/// Under total internal reflection the Schlick reflectance is exactly one.
pub proof fn lemma_schlick_total_internal_reflection(c: Computations)
    requires
        c.n1.raw > c.n2.raw,
        ({
            let one = Fx { raw: SCALE };
            let cos0 = vdot(c.eyev, c.normalv);
            fxmul(
                fxmul(fxdiv(c.n1, c.n2), fxdiv(c.n1, c.n2)),
                fxsub(one, fxmul(cos0, cos0)),
            ).raw > SCALE
        }),
    ensures
        schlick_spec(c) == (Fx { raw: SCALE }),
{
}

/// The index of the first stack entry carrying the id, or -1.
pub open spec fn first_pos(stack: Seq<(usize, Fx)>, id: usize, k: int) -> int
    decreases stack.len() - k,
{
    if k < 0 || k >= stack.len() {
        -1
    } else if stack[k].0 == id {
        k
    } else {
        first_pos(stack, id, k + 1)
    }
}

/// Toggle membership: push the entry when the id is absent, else remove its
/// first occurrence. This models entering and leaving a transparent solid.
pub open spec fn toggle_stack_spec(stack: Seq<(usize, Fx)>, id: usize, ri: Fx) -> Seq<
    (usize, Fx),
> {
    let p = first_pos(stack, id, 0);
    if p < 0 {
        stack.push((id, ri))
    } else {
        stack.remove(p)
    }
}

/// The refractive index at the top of the containment stack: vacuum when it
/// is empty.
pub open spec fn top_ri(stack: Seq<(usize, Fx)>) -> Fx {
    if stack.len() == 0 {
        Fx { raw: SCALE }
    } else {
        stack.last().1
    }
}

/// Walk the sorted hits, maintaining the stack of solids the ray is
/// currently inside; at the target hit, the indices before and after the
/// boundary are n1 and n2. Zero when the target index is never reached.
pub open spec fn n1n2_from(
    shapes: Seq<crate::shapes::Shape>,
    xs: Seq<Intersection>,
    tgt: int,
    j: int,
    stack: Seq<(usize, Fx)>,
) -> (Fx, Fx)
    decreases xs.len() - j,
{
    if j < 0 || j >= xs.len() {
        (Fx { raw: 0 }, Fx { raw: 0 })
    } else {
        let i = xs[j];
        let stack2 = toggle_stack_spec(stack, i.object, ri_of(shapes, i.object));
        if j == tgt {
            (top_ri(stack), top_ri(stack2))
        } else {
            n1n2_from(shapes, xs, tgt, j + 1, stack2)
        }
    }
}

/// The index of the last entry equal to the target, or -1.
pub open spec fn last_match(xs: Seq<Intersection>, t: Intersection) -> int
    decreases xs,
{
    if xs.len() == 0 {
        -1
    } else if xs.last() == t {
        xs.len() - 1
    } else {
        last_match(xs.drop_last(), t)
    }
}

/// The refractive pair at the target hit of a sorted intersection list.
pub open spec fn n1n2_spec(w: World, xs: Seq<Intersection>, target: Intersection) -> (Fx, Fx) {
    n1n2_from(w.shapes@, xs, last_match(xs, target), 0, Seq::empty())
}

/// The shading frame for a hit: the world point at the hit's parameter, the
/// eye vector back along the ray, the hit shape's world normal (zero for a
/// dangling or composite id), and the refractive pair from the full list.
pub open spec fn prepare_spec(w: World, i: Intersection, ray: Ray, xs: Seq<Intersection>) -> Computations {
    let point = rposition(ray, i.t);
    let eyev = vneg(ray.direction);
    let normalv = match find_seq_spec(w.shapes@, i.object) {
        Some(s) => if s is Group {
            Vec4 { x: Fx { raw: 0 }, y: Fx { raw: 0 }, z: Fx { raw: 0 }, w: Fx { raw: 0 } }
        } else {
            s.normal_spec(point, i)
        },
        None => Vec4 { x: Fx { raw: 0 }, y: Fx { raw: 0 }, z: Fx { raw: 0 }, w: Fx { raw: 0 } },
    };
    let nn = n1n2_spec(w, xs, i);
    comps_new_spec(i.object, point, eyev, normalv, ray.direction, nn.0, nn.1)
}

impl Computations {
    /// The shading frame from its raw parts.
    pub fn new(
        object: usize,
        point: Vec4,
        eyev: Vec4,
        normalv: Vec4,
        raydir: Vec4,
        n1: Fx,
        n2: Fx,
    ) -> (c: Computations)
        ensures
            c == comps_new_spec(object, point, eyev, normalv, raydir, n1, n2),
    {
        let inside = normalv.dot(&eyev).raw < 0;
        let nv = if inside {
            normalv.neg()
        } else {
            normalv
        };
        let eps = Fx { raw: EPSILON_RAW };
        let reflectv = raydir.reflect(&nv);
        let over_point = point.add(nv.scale(eps));
        let under_point = point.sub(nv.scale(eps));
        Computations {
            object,
            point,
            eyev,
            normalv: nv,
            inside,
            over_point,
            reflectv,
            n1,
            n2,
            under_point,
        }
    }

    /// Id of the hit shape.
    pub fn object(&self) -> (r: usize)
        ensures
            r == self.object,
    {
        self.object
    }

    /// The Schlick approximation to the Fresnel reflectance.
    pub fn schlick(&self) -> (r: Fx)
        ensures
            r == schlick_spec(*self),
    {
        let one = Fx { raw: SCALE };
        let mut cos = self.eyev.dot(&self.normalv);
        if self.n1.raw > self.n2.raw {
            let n = self.n1.div(self.n2);
            let sin2_t = n.mul(n).mul(one.sub(cos.mul(cos)));
            if sin2_t.raw > SCALE {
                return one;
            }
            cos = one.sub(sin2_t).sqrt();
        }
        let r0q = self.n1.sub(self.n2).div(self.n1.add(self.n2));
        let r0 = r0q.mul(r0q);
        r0.add(one.sub(r0).mul(one.sub(cos).pow(5)))
    }
}

#[derive(Clone, Copy, Debug)]
pub struct Intersection {
    pub t: Fx,
    /// Id of the hit shape.
    pub object: usize,
    pub u: Option<Fx>,
    pub v: Option<Fx>,
}

/// The running selection of `hit` after the first `j` entries, starting
/// from `best`: a later entry with `t >= 0` replaces the selection when its
/// `t` is no larger.
pub open spec fn hit_from(s: Seq<Intersection>, j: int, best: Option<Intersection>) -> Option<
    Intersection,
>
    decreases s.len() - j,
{
    if j < 0 || j >= s.len() {
        best
    } else {
        let cur = s[j];
        let next = if cur.t.raw >= 0 && (best is None || cur.t.raw <= best->0.t.raw) {
            Some(cur)
        } else {
            best
        };
        hit_from(s, j + 1, next)
    }
}

/// The visible intersection of a list: the minimal `t >= 0` entry, the last
/// of equals.
pub open spec fn hit_spec(s: Seq<Intersection>) -> Option<Intersection> {
    hit_from(s, 0, None)
}

/// The selection is drawn from the list, is visible, and is minimal.
proof fn lemma_hit_from(s: Seq<Intersection>, j: int, best: Option<Intersection>)
    requires
        0 <= j <= s.len(),
        best is Some ==> best->0.t.raw >= 0,
        best is Some ==> exists|k: int| 0 <= k < j && s[k] == best->0,
        forall|k: int| 0 <= k < j && s[k].t.raw >= 0 ==> best is Some && best->0.t.raw
            <= s[k].t.raw,
    ensures
        hit_from(s, j, best) is Some ==> {
            let h = hit_from(s, j, best)->0;
            h.t.raw >= 0 && s.contains(h) && forall|k: int|
                0 <= k < s.len() && s[k].t.raw >= 0 ==> h.t.raw <= s[k].t.raw
        },
        hit_from(s, j, best) is None ==> forall|k: int| 0 <= k < s.len() ==> s[k].t.raw < 0,
    decreases s.len() - j,
{
    if j < s.len() {
        let cur = s[j];
        let next = if cur.t.raw >= 0 && (best is None || cur.t.raw <= best->0.t.raw) {
            Some(cur)
        } else {
            best
        };
        lemma_hit_from(s, j + 1, next);
    }
}

impl Intersection {
    pub fn new(t: Fx, object: usize, u: Option<Fx>, v: Option<Fx>) -> (i: Intersection)
        ensures
            i == (Intersection { t, object, u, v }),
    {
        Intersection { t, object, u, v }
    }

    /// Two records agree exactly, field for field.
    pub fn same(&self, other: &Intersection) -> (r: bool)
        ensures
            r == (*self == *other),
    {
        let uv_same = match (self.u, other.u) {
            (None, None) => true,
            (Some(a), Some(b)) => a.raw == b.raw,
            _ => false,
        } && match (self.v, other.v) {
            (None, None) => true,
            (Some(a), Some(b)) => a.raw == b.raw,
            _ => false,
        };
        self.t.raw == other.t.raw && self.object == other.object && uv_same
    }

    /// The visible intersection: among entries with `t >= 0`, one of minimal
    /// `t` (the last of equals); nothing when every entry lies behind the
    /// ray.
    pub fn hit(int_list: &Vec<Intersection>) -> (r: Option<Intersection>)
        ensures
            r == hit_spec(int_list@),
            r is Some ==> {
                &&& r->0.t.raw >= 0
                &&& int_list@.contains(r->0)
                &&& forall|k: int|
                    0 <= k < int_list@.len() && int_list@[k].t.raw >= 0 ==> r->0.t.raw
                        <= int_list@[k].t.raw
            },
            r is None ==> forall|k: int| 0 <= k < int_list@.len() ==> int_list@[k].t.raw < 0,
    {
        let mut best: Option<Intersection> = None;
        let mut j: usize = 0;
        while j < int_list.len()
            invariant
                0 <= j <= int_list.len(),
                hit_spec(int_list@) == hit_from(int_list@, j as int, best),
            decreases int_list.len() - j,
        {
            let cur = int_list[j];
            let replace = cur.t.raw >= 0 && (match best {
                Option::None => true,
                Option::Some(b) => cur.t.raw <= b.t.raw,
            });
            if replace {
                best = Some(cur);
            }
            j = j + 1;
        }
        proof {
            lemma_hit_from(int_list@, 0, None);
        }
        best
    }
}

/// The first stack entry carrying the id, scanned from the bottom.
fn find_first_pos(stack: &Vec<(usize, Fx)>, id: usize) -> (r: Option<usize>)
    ensures
        match r {
            Some(p) => p < stack@.len() && first_pos(stack@, id, 0) == p as int,
            None => first_pos(stack@, id, 0) == -1,
        },
{
    let mut m: usize = 0;
    while m < stack.len()
        invariant
            m <= stack.len(),
            first_pos(stack@, id, 0) == first_pos(stack@, id, m as int),
        decreases stack.len() - m,
    {
        if stack[m].0 == id {
            return Some(m);
        }
        m = m + 1;
    }
    None
}

/// Toggle membership of an id on the containment stack.
fn toggle_stack(stack: &mut Vec<(usize, Fx)>, id: usize, ri: Fx)
    ensures
        final(stack)@ == toggle_stack_spec(old(stack)@, id, ri),
{
    match find_first_pos(stack, id) {
        Some(p) => {
            stack.remove(p);
        },
        None => {
            stack.push((id, ri));
        },
    }
}

/// The refractive index at the top of the stack.
fn top_of(stack: &Vec<(usize, Fx)>) -> (r: Fx)
    ensures
        r == top_ri(stack@),
{
    if stack.len() == 0 {
        Fx { raw: SCALE }
    } else {
        stack[stack.len() - 1].1
    }
}

impl Intersection {
    /// The index of the last entry equal to this one, scanned from the end.
    fn find_last_match(&self, xs: &Vec<Intersection>) -> (r: Option<usize>)
        ensures
            match r {
                Some(p) => p < xs@.len() && last_match(xs@, *self) == p as int,
                None => last_match(xs@, *self) == -1,
            },
    {
        let mut k: usize = xs.len();
        proof {
            assert(xs@.take(xs@.len() as int) =~= xs@);
        }
        while k > 0
            invariant
                k <= xs.len(),
                last_match(xs@, *self) == last_match(xs@.take(k as int), *self),
            decreases k,
        {
            proof {
                assert(xs@.take(k as int).last() == xs@[k - 1]);
                assert(xs@.take(k as int).drop_last() =~= xs@.take(k - 1));
            }
            if xs[k - 1].same(self) {
                return Some(k - 1);
            }
            k = k - 1;
        }
        proof {
            assert(xs@.take(0) =~= Seq::<Intersection>::empty());
        }
        None
    }

    /// The shading frame for this hit of the ray, given the full sorted
    /// intersection list of the ray (needed for the refractive pair) and
    /// the scene the hit shape lives in.
    pub fn prepare_computations(&self, ray: &Ray, int_list: &Vec<Intersection>, world: &World) -> (c:
        Computations)
        ensures
            c == prepare_spec(*world, *self, *ray, int_list@),
    {
        let point = ray.position(self.t);
        let eyev = ray.direction.neg();
        let nil = Fx { raw: 0 };
        let normalv = match world.find_shape(self.object) {
            Some(s) => {
                if s.is_group() {
                    Vec4::vector(nil, nil, nil)
                } else {
                    s.normal_at(point, self)
                }
            },
            None => Vec4::vector(nil, nil, nil),
        };
        let tgt = self.find_last_match(int_list);
        let ghost tgt_i: int = last_match(int_list@, *self);
        let mut stack: Vec<(usize, Fx)> = Vec::new();
        let mut n1 = Fx { raw: 0 };
        let mut n2 = Fx { raw: 0 };
        let mut j: usize = 0;
        let mut done = false;
        proof {
            assert(stack@ =~= Seq::<(usize, Fx)>::empty());
        }
        while !done && j < int_list.len()
            invariant
                j <= int_list@.len(),
                tgt_i == last_match(int_list@, *self),
                match tgt {
                    Some(p) => tgt_i == p as int && (p as int) < int_list@.len(),
                    None => tgt_i == -1,
                },
                !done ==> n1n2_spec(*world, int_list@, *self) == n1n2_from(
                    world.shapes@,
                    int_list@,
                    tgt_i,
                    j as int,
                    stack@,
                ),
                !done ==> n1 == (Fx { raw: 0 }) && n2 == (Fx { raw: 0 }),
                done ==> (n1, n2) == n1n2_spec(*world, int_list@, *self),
            decreases int_list@.len() - j, (if done { 0int } else { 1int }),
        {
            let i = int_list[j];
            let ri = match world.find_shape(i.object) {
                Some(s) => s.material().refractive_index,
                None => Fx { raw: SCALE },
            };
            let is_target = match tgt {
                Some(p) => p == j,
                None => false,
            };
            if is_target {
                n1 = top_of(&stack);
                toggle_stack(&mut stack, i.object, ri);
                n2 = top_of(&stack);
                done = true;
            } else {
                toggle_stack(&mut stack, i.object, ri);
            }
            j = j + 1;
        }
        Computations::new(self.object, point, eyev, normalv, ray.direction, n1, n2)
    }
}

impl PartialEq for Intersection {
    /// Approximate equality on the ray parameter.
    fn eq(&self, other: &Self) -> (r: bool) {
        self.t.approx_eq(&other.t)
    }
}

impl vstd::std_specs::cmp::PartialEqSpecImpl for Intersection {
    open spec fn obeys_eq_spec() -> bool {
        true
    }

    open spec fn eq_spec(&self, other: &Self) -> bool {
        approx(self.t, other.t)
    }
}

} // verus!
