//! Procedural surface patterns.
//!
//! The shading core reads a pattern only through `pattern_at`: the world
//! point is carried into the object's frame by the shape's cached inverse,
//! then into the pattern's own frame, and the pattern's rule picks a color.
//! The test pattern reports the world point itself as a color, so tests can
//! watch which point reached it.

use crate::color::{cadd, cmul, cscale, csub, Color};
use crate::math::{floor_units, fxadd, fxfloor, fxmul, fxsqrt, fxsub, Fx, SCALE};
use crate::matrix::{eye_spec, invertible, minverse, mvmul, Matrix};
use crate::vec4::Vec4;
use vstd::prelude::*;

verus! {

/// Alternating whole-unit bands along x.
#[derive(Clone, Copy, Debug)]
pub struct StripePattern {
    pub a: Color,
    pub b: Color,
    pub transform: Matrix,
    pub inverse: Matrix,
}

/// A linear blend from `a` to `b` over each whole unit of x.
#[derive(Clone, Copy, Debug)]
pub struct Gradient {
    pub a: Color,
    pub b: Color,
    pub transform: Matrix,
    pub inverse: Matrix,
}

/// Alternating whole-unit rings around the y axis.
#[derive(Clone, Copy, Debug)]
pub struct Ring {
    pub a: Color,
    pub b: Color,
    pub transform: Matrix,
    pub inverse: Matrix,
}

/// Alternating unit cubes.
#[derive(Clone, Copy, Debug)]
pub struct Checker {
    pub a: Color,
    pub b: Color,
    pub transform: Matrix,
    pub inverse: Matrix,
}

/// Reports the queried world point as a color.
#[derive(Clone, Copy, Debug)]
pub struct TestPattern {
    pub transform: Matrix,
    pub inverse: Matrix,
}

/// A pattern of any of the five kinds.
#[derive(Clone, Copy, Debug)]
pub enum Pattern {
    Stripe(StripePattern),
    Gradient(Gradient),
    Ring(Ring),
    Checker(Checker),
    Test(TestPattern),
}

/// The pattern's color at a point already in pattern space.
pub open spec fn color_at_spec(p: Pattern, point: Vec4) -> Color {
    match p {
        Pattern::Stripe(s) => if floor_units(point.x) % 2 == 0 {
            s.a
        } else {
            s.b
        },
        Pattern::Gradient(g) => cadd(
            g.a,
            cscale(csub(g.b, g.a), fxsub(point.x, fxfloor(point.x))),
        ),
        Pattern::Ring(r) => {
            let d = fxsqrt(fxadd(fxmul(point.x, point.x), fxmul(point.z, point.z)));
            if floor_units(d) % 2 == 0 {
                r.a
            } else {
                r.b
            }
        },
        Pattern::Checker(c) => {
            let sum = floor_units(point.x) + floor_units(point.y) + floor_units(point.z);
            if sum % 2 == 0 {
                c.a
            } else {
                c.b
            }
        },
        Pattern::Test(_) => Color { r: point.x, g: point.y, b: point.z },
    }
}

/// The pattern's own frame-to-pattern inverse.
pub open spec fn pattern_inverse(p: Pattern) -> Matrix {
    match p {
        Pattern::Stripe(s) => s.inverse,
        Pattern::Gradient(g) => g.inverse,
        Pattern::Ring(r) => r.inverse,
        Pattern::Checker(c) => c.inverse,
        Pattern::Test(t) => t.inverse,
    }
}

/// The pattern's color for a world point on a shape: the point carried into
/// object space by the shape's inverse, then into pattern space. The test
/// pattern reads the world point unchanged.
pub open spec fn pattern_at_spec(p: Pattern, object_inverse: Matrix, world_point: Vec4) -> Color {
    match p {
        Pattern::Test(_) => color_at_spec(p, world_point),
        _ => {
            let object_point = mvmul(object_inverse, world_point);
            let pattern_point = mvmul(pattern_inverse(p), object_point);
            color_at_spec(p, pattern_point)
        },
    }
}

impl StripePattern {
    pub fn new(a: Color, b: Color) -> (p: Pattern)
        ensures
            p == Pattern::Stripe(
                StripePattern { a, b, transform: eye_spec(), inverse: eye_spec() },
            ),
    {
        Pattern::Stripe(StripePattern { a, b, transform: Matrix::eye(), inverse: Matrix::eye() })
    }
}

impl Gradient {
    pub fn new(a: Color, b: Color) -> (p: Pattern)
        ensures
            p == Pattern::Gradient(Gradient { a, b, transform: eye_spec(), inverse: eye_spec() }),
    {
        Pattern::Gradient(Gradient { a, b, transform: Matrix::eye(), inverse: Matrix::eye() })
    }
}

impl Ring {
    pub fn new(a: Color, b: Color) -> (p: Pattern)
        ensures
            p == Pattern::Ring(Ring { a, b, transform: eye_spec(), inverse: eye_spec() }),
    {
        Pattern::Ring(Ring { a, b, transform: Matrix::eye(), inverse: Matrix::eye() })
    }
}

impl Checker {
    pub fn new(a: Color, b: Color) -> (p: Pattern)
        ensures
            p == Pattern::Checker(Checker { a, b, transform: eye_spec(), inverse: eye_spec() }),
    {
        Pattern::Checker(Checker { a, b, transform: Matrix::eye(), inverse: Matrix::eye() })
    }
}

impl TestPattern {
    pub fn new() -> (p: Pattern)
        ensures
            p == Pattern::Test(TestPattern { transform: eye_spec(), inverse: eye_spec() }),
    {
        Pattern::Test(TestPattern { transform: Matrix::eye(), inverse: Matrix::eye() })
    }
}

impl Pattern {
    /// The color at a point already in pattern space.
    pub fn color_at(&self, point: &Vec4) -> (c: Color)
        ensures
            c == color_at_spec(*self, *point),
    {
        match self {
            Pattern::Stripe(s) => {
                if point.x.floor_units_exec() % 2 == 0 {
                    s.a
                } else {
                    s.b
                }
            },
            Pattern::Gradient(g) => {
                let dist = g.b.sub(g.a);
                let fraction = point.x.sub(point.x.floor());
                g.a.add(dist.scale(fraction))
            },
            Pattern::Ring(r) => {
                let d = point.x.mul(point.x).add(point.z.mul(point.z)).sqrt();
                if d.floor_units_exec() % 2 == 0 {
                    r.a
                } else {
                    r.b
                }
            },
            Pattern::Checker(c) => {
                let sum: i64 = point.x.floor_units_exec() + point.y.floor_units_exec()
                    + point.z.floor_units_exec();
                if sum % 2 == 0 {
                    c.a
                } else {
                    c.b
                }
            },
            Pattern::Test(_) => Color { r: point.x, g: point.y, b: point.z },
        }
    }

    /// The color for a world point on a shape with the given cached inverse.
    pub fn pattern_at(&self, object_inverse: &Matrix, world_point: &Vec4) -> (c: Color)
        ensures
            c == pattern_at_spec(*self, *object_inverse, *world_point),
    {
        match self {
            Pattern::Test(_) => self.color_at(world_point),
            _ => {
                let object_point = object_inverse.mul_vec(world_point);
                let pinv = match self {
                    Pattern::Stripe(s) => s.inverse,
                    Pattern::Gradient(g) => g.inverse,
                    Pattern::Ring(r) => r.inverse,
                    Pattern::Checker(c) => c.inverse,
                    Pattern::Test(t) => t.inverse,
                };
                let pattern_point = pinv.mul_vec(&object_point);
                self.color_at(&pattern_point)
            },
        }
    }

    /// Replace the pattern's transform, recomputing the cached inverse.
    pub fn set_transformation(&mut self, matrix: Matrix)
        requires
            invertible(matrix),
        ensures
            *final(self) == set_transformation_spec(*old(self), matrix),
    {
        let inv = matrix.inverse();
        match self {
            Pattern::Stripe(s) => {
                s.transform = matrix;
                s.inverse = inv;
            },
            Pattern::Gradient(g) => {
                g.transform = matrix;
                g.inverse = inv;
            },
            Pattern::Ring(r) => {
                r.transform = matrix;
                r.inverse = inv;
            },
            Pattern::Checker(c) => {
                c.transform = matrix;
                c.inverse = inv;
            },
            Pattern::Test(t) => {
                t.transform = matrix;
                t.inverse = inv;
            },
        }
    }
}

/// The pattern with its transform and cached inverse replaced.
pub open spec fn set_transformation_spec(p: Pattern, matrix: Matrix) -> Pattern {
    let inv = minverse(matrix);
    match p {
        Pattern::Stripe(s) => Pattern::Stripe(
            StripePattern { transform: matrix, inverse: inv, ..s },
        ),
        Pattern::Gradient(g) => Pattern::Gradient(Gradient { transform: matrix, inverse: inv, ..g }),
        Pattern::Ring(r) => Pattern::Ring(Ring { transform: matrix, inverse: inv, ..r }),
        Pattern::Checker(c) => Pattern::Checker(Checker { transform: matrix, inverse: inv, ..c }),
        Pattern::Test(t) => Pattern::Test(TestPattern { transform: matrix, inverse: inv }),
    }
}

} // verus!
