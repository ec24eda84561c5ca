//! 4x4 matrices over fixed-point scalars.
//!
//! A matrix is four row tuples. Determinant and inverse follow the cofactor
//! expansion; `inverse` demands a determinant of magnitude at least the
//! geometric tolerance, since inverting a (near-)singular transform is a
//! fatal configuration error for the scene that owns it.
//! Equality (`==`) is approximate, entry-wise within the geometric tolerance.

use crate::math::{approx, fxadd, fxdiv, fxmul, fxneg, fxsub, abs_int, ApproxEq, Fx, EPSILON_RAW, SCALE};
use crate::vec4::{vapprox, vdot, Vec4};
use vstd::prelude::*;

verus! {

#[derive(Clone, Copy, Debug)]
pub struct Matrix {
    pub r0: Vec4,
    pub r1: Vec4,
    pub r2: Vec4,
    pub r3: Vec4,
}

/// The zero matrix.
pub open spec fn zero_spec() -> Matrix {
    Matrix {
        r0: Vec4 { x: Fx { raw: 0 }, y: Fx { raw: 0 }, z: Fx { raw: 0 }, w: Fx { raw: 0 } },
        r1: Vec4 { x: Fx { raw: 0 }, y: Fx { raw: 0 }, z: Fx { raw: 0 }, w: Fx { raw: 0 } },
        r2: Vec4 { x: Fx { raw: 0 }, y: Fx { raw: 0 }, z: Fx { raw: 0 }, w: Fx { raw: 0 } },
        r3: Vec4 { x: Fx { raw: 0 }, y: Fx { raw: 0 }, z: Fx { raw: 0 }, w: Fx { raw: 0 } },
    }
}

/// The identity matrix.
pub open spec fn eye_spec() -> Matrix {
    Matrix {
        r0: Vec4 { x: Fx { raw: SCALE }, y: Fx { raw: 0 }, z: Fx { raw: 0 }, w: Fx { raw: 0 } },
        r1: Vec4 { x: Fx { raw: 0 }, y: Fx { raw: SCALE }, z: Fx { raw: 0 }, w: Fx { raw: 0 } },
        r2: Vec4 { x: Fx { raw: 0 }, y: Fx { raw: 0 }, z: Fx { raw: SCALE }, w: Fx { raw: 0 } },
        r3: Vec4 { x: Fx { raw: 0 }, y: Fx { raw: 0 }, z: Fx { raw: 0 }, w: Fx { raw: SCALE } },
    }
}

/// The row `r` of the matrix.
pub open spec fn mrow(m: Matrix, r: int) -> Vec4 {
    if r == 0 {
        m.r0
    } else if r == 1 {
        m.r1
    } else if r == 2 {
        m.r2
    } else {
        m.r3
    }
}

/// The component `c` of a row.
pub open spec fn vcomp(v: Vec4, c: int) -> Fx {
    if c == 0 {
        v.x
    } else if c == 1 {
        v.y
    } else if c == 2 {
        v.z
    } else {
        v.w
    }
}

/// The entry at row `r`, column `c`.
pub open spec fn mget(m: Matrix, r: int, c: int) -> Fx {
    vcomp(mrow(m, r), c)
}

/// The transpose.
pub open spec fn mtranspose(m: Matrix) -> Matrix {
    Matrix {
        r0: Vec4 { x: m.r0.x, y: m.r1.x, z: m.r2.x, w: m.r3.x },
        r1: Vec4 { x: m.r0.y, y: m.r1.y, z: m.r2.y, w: m.r3.y },
        r2: Vec4 { x: m.r0.z, y: m.r1.z, z: m.r2.z, w: m.r3.z },
        r3: Vec4 { x: m.r0.w, y: m.r1.w, z: m.r2.w, w: m.r3.w },
    }
}

/// The matrix product: each entry is the dot of a row of `a` with a column
/// of `b`.
pub open spec fn mmul(a: Matrix, b: Matrix) -> Matrix {
    let t = mtranspose(b);
    Matrix {
        r0: Vec4 { x: vdot(a.r0, t.r0), y: vdot(a.r0, t.r1), z: vdot(a.r0, t.r2), w: vdot(a.r0, t.r3) },
        r1: Vec4 { x: vdot(a.r1, t.r0), y: vdot(a.r1, t.r1), z: vdot(a.r1, t.r2), w: vdot(a.r1, t.r3) },
        r2: Vec4 { x: vdot(a.r2, t.r0), y: vdot(a.r2, t.r1), z: vdot(a.r2, t.r2), w: vdot(a.r2, t.r3) },
        r3: Vec4 { x: vdot(a.r3, t.r0), y: vdot(a.r3, t.r1), z: vdot(a.r3, t.r2), w: vdot(a.r3, t.r3) },
    }
}

/// The matrix applied to a tuple.
pub open spec fn mvmul(m: Matrix, v: Vec4) -> Vec4 {
    Vec4 { x: vdot(m.r0, v), y: vdot(m.r1, v), z: vdot(m.r2, v), w: vdot(m.r3, v) }
}

/// The determinant of a 3x3 block given by its nine entries, row-major.
#[verifier::inline]
pub open spec fn det3_spec(
    a: Fx,
    b: Fx,
    c: Fx,
    d: Fx,
    e: Fx,
    f: Fx,
    g: Fx,
    h: Fx,
    i: Fx,
) -> Fx {
    fxadd(
        fxsub(
            fxmul(a, fxsub(fxmul(e, i), fxmul(f, h))),
            fxmul(b, fxsub(fxmul(d, i), fxmul(f, g))),
        ),
        fxmul(c, fxsub(fxmul(d, h), fxmul(e, g))),
    )
}

/// The k-th row or column index left after removing `skip`.
pub open spec fn oth(k: int, skip: int) -> int {
    if k < skip {
        k
    } else {
        k + 1
    }
}

/// The minor at row `r`, column `c`: the determinant of the matrix with
/// that row and column removed.
#[verifier::opaque]
pub open spec fn minor4(m: Matrix, r: int, c: int) -> Fx {
    det3_spec(
        mget(m, oth(0, r), oth(0, c)),
        mget(m, oth(0, r), oth(1, c)),
        mget(m, oth(0, r), oth(2, c)),
        mget(m, oth(1, r), oth(0, c)),
        mget(m, oth(1, r), oth(1, c)),
        mget(m, oth(1, r), oth(2, c)),
        mget(m, oth(2, r), oth(0, c)),
        mget(m, oth(2, r), oth(1, c)),
        mget(m, oth(2, r), oth(2, c)),
    )
}

/// The cofactor at row `r`, column `c`: the minor with the checkerboard
/// sign.
#[verifier::opaque]
pub open spec fn cof4(m: Matrix, r: int, c: int) -> Fx {
    if (r + c) % 2 == 0 {
        minor4(m, r, c)
    } else {
        fxneg(minor4(m, r, c))
    }
}

/// The determinant: cofactor expansion along the first row.
#[verifier::opaque]
pub open spec fn det4(m: Matrix) -> Fx {
    fxadd(
        fxadd(
            fxadd(fxmul(m.r0.x, cof4(m, 0, 0)), fxmul(m.r0.y, cof4(m, 0, 1))),
            fxmul(m.r0.z, cof4(m, 0, 2)),
        ),
        fxmul(m.r0.w, cof4(m, 0, 3)),
    )
}

/// The determinant's magnitude reaches the geometric tolerance, so the
/// matrix can be inverted.
pub open spec fn invertible(m: Matrix) -> bool {
    abs_int(det4(m).raw as int) >= EPSILON_RAW
}

/// The inverse: the transposed cofactor matrix, each entry divided by the
/// determinant.
#[verifier::opaque]
pub open spec fn minverse(m: Matrix) -> Matrix {
    let d = det4(m);
    Matrix {
        r0: Vec4 {
            x: fxdiv(cof4(m, 0, 0), d),
            y: fxdiv(cof4(m, 1, 0), d),
            z: fxdiv(cof4(m, 2, 0), d),
            w: fxdiv(cof4(m, 3, 0), d),
        },
        r1: Vec4 {
            x: fxdiv(cof4(m, 0, 1), d),
            y: fxdiv(cof4(m, 1, 1), d),
            z: fxdiv(cof4(m, 2, 1), d),
            w: fxdiv(cof4(m, 3, 1), d),
        },
        r2: Vec4 {
            x: fxdiv(cof4(m, 0, 2), d),
            y: fxdiv(cof4(m, 1, 2), d),
            z: fxdiv(cof4(m, 2, 2), d),
            w: fxdiv(cof4(m, 3, 2), d),
        },
        r3: Vec4 {
            x: fxdiv(cof4(m, 0, 3), d),
            y: fxdiv(cof4(m, 1, 3), d),
            z: fxdiv(cof4(m, 2, 3), d),
            w: fxdiv(cof4(m, 3, 3), d),
        },
    }
}

/// All entries approximately equal.
pub open spec fn mapprox(a: Matrix, b: Matrix) -> bool {
    vapprox(a.r0, b.r0) && vapprox(a.r1, b.r1) && vapprox(a.r2, b.r2) && vapprox(a.r3, b.r3)
}

/// Applying the identity matrix returns the tuple unchanged, at any value
/// away from the raw range's asymmetric edge.
pub proof fn lemma_mvmul_eye(v: Vec4)
    requires
        v.x.raw > i64::MIN,
        v.y.raw > i64::MIN,
        v.z.raw > i64::MIN,
        v.w.raw > i64::MIN,
    ensures
        mvmul(eye_spec(), v) == v,
{
    let one = Fx { raw: SCALE };
    let nil = Fx { raw: 0 };
    crate::math::lemma_fxmul_one(v.x);
    crate::math::lemma_fxmul_one(v.y);
    crate::math::lemma_fxmul_one(v.z);
    crate::math::lemma_fxmul_one(v.w);
    crate::math::lemma_fxmul_zero(v.x);
    crate::math::lemma_fxmul_zero(v.y);
    crate::math::lemma_fxmul_zero(v.z);
    crate::math::lemma_fxmul_zero(v.w);
    assert(vdot(eye_spec().r0, v) == fxadd(fxadd(fxadd(v.x, nil), nil), nil));
    assert(vdot(eye_spec().r0, v) == v.x);
    assert(vdot(eye_spec().r1, v) == fxadd(fxadd(fxadd(nil, v.y), nil), nil));
    assert(vdot(eye_spec().r1, v) == v.y);
    assert(vdot(eye_spec().r2, v) == fxadd(fxadd(fxadd(nil, nil), v.z), nil));
    assert(vdot(eye_spec().r2, v) == v.z);
    assert(vdot(eye_spec().r3, v) == fxadd(fxadd(fxadd(nil, nil), nil), v.w));
    assert(vdot(eye_spec().r3, v) == v.w);
}

fn det3(a: Fx, b: Fx, c: Fx, d: Fx, e: Fx, f: Fx, g: Fx, h: Fx, i: Fx) -> (r: Fx)
    ensures
        r == det3_spec(a, b, c, d, e, f, g, h, i),
{
    a.mul(e.mul(i).sub(f.mul(h))).sub(b.mul(d.mul(i).sub(f.mul(g)))).add(
        c.mul(d.mul(h).sub(e.mul(g))),
    )
}

/// The k-th index left after removing `skip` from 0..4.
fn oth_exec(k: usize, skip: usize) -> (r: usize)
    requires
        k < 3,
        skip < 4,
    ensures
        r == oth(k as int, skip as int),
        r < 4,
{
    if k < skip {
        k
    } else {
        k + 1
    }
}

impl Matrix {
    /// The zero matrix.
    pub fn new() -> (m: Matrix)
        ensures
            m == zero_spec(),
    {
        let z = Vec4::vector(Fx { raw: 0 }, Fx { raw: 0 }, Fx { raw: 0 });
        Matrix { r0: z, r1: z, r2: z, r3: z }
    }

    /// The identity matrix.
    pub fn eye() -> (m: Matrix)
        ensures
            m == eye_spec(),
    {
        let one = Fx { raw: SCALE };
        let nil = Fx { raw: 0 };
        Matrix {
            r0: Vec4 { x: one, y: nil, z: nil, w: nil },
            r1: Vec4 { x: nil, y: one, z: nil, w: nil },
            r2: Vec4 { x: nil, y: nil, z: one, w: nil },
            r3: Vec4 { x: nil, y: nil, z: nil, w: one },
        }
    }

    /// A matrix from four row tuples.
    pub fn from_array(rows: [Vec4; 4]) -> (m: Matrix)
        ensures
            m == (Matrix { r0: rows[0], r1: rows[1], r2: rows[2], r3: rows[3] }),
    {
        Matrix { r0: rows[0], r1: rows[1], r2: rows[2], r3: rows[3] }
    }

    /// The entry at row `r`, column `c`.
    pub fn get(&self, r: usize, c: usize) -> (v: Fx)
        requires
            r < 4,
            c < 4,
        ensures
            v == mget(*self, r as int, c as int),
    {
        let row = if r == 0 {
            self.r0
        } else if r == 1 {
            self.r1
        } else if r == 2 {
            self.r2
        } else {
            self.r3
        };
        if c == 0 {
            row.x
        } else if c == 1 {
            row.y
        } else if c == 2 {
            row.z
        } else {
            row.w
        }
    }

    pub fn transpose(&self) -> (m: Matrix)
        ensures
            m == mtranspose(*self),
    {
        Matrix {
            r0: Vec4 { x: self.r0.x, y: self.r1.x, z: self.r2.x, w: self.r3.x },
            r1: Vec4 { x: self.r0.y, y: self.r1.y, z: self.r2.y, w: self.r3.y },
            r2: Vec4 { x: self.r0.z, y: self.r1.z, z: self.r2.z, w: self.r3.z },
            r3: Vec4 { x: self.r0.w, y: self.r1.w, z: self.r2.w, w: self.r3.w },
        }
    }

    /// The matrix product `self * rhs`.
    pub fn mul(&self, rhs: &Matrix) -> (m: Matrix)
        ensures
            m == mmul(*self, *rhs),
    {
        let t = rhs.transpose();
        Matrix {
            r0: Vec4 {
                x: self.r0.dot(&t.r0),
                y: self.r0.dot(&t.r1),
                z: self.r0.dot(&t.r2),
                w: self.r0.dot(&t.r3),
            },
            r1: Vec4 {
                x: self.r1.dot(&t.r0),
                y: self.r1.dot(&t.r1),
                z: self.r1.dot(&t.r2),
                w: self.r1.dot(&t.r3),
            },
            r2: Vec4 {
                x: self.r2.dot(&t.r0),
                y: self.r2.dot(&t.r1),
                z: self.r2.dot(&t.r2),
                w: self.r2.dot(&t.r3),
            },
            r3: Vec4 {
                x: self.r3.dot(&t.r0),
                y: self.r3.dot(&t.r1),
                z: self.r3.dot(&t.r2),
                w: self.r3.dot(&t.r3),
            },
        }
    }

    /// The matrix applied to a tuple.
    pub fn mul_vec(&self, v: &Vec4) -> (r: Vec4)
        ensures
            r == mvmul(*self, *v),
    {
        Vec4 {
            x: self.r0.dot(v),
            y: self.r1.dot(v),
            z: self.r2.dot(v),
            w: self.r3.dot(v),
        }
    }

    /// The cofactor at row `r`, column `c`.
    fn cofactor(&self, r: usize, c: usize) -> (v: Fx)
        requires
            r < 4,
            c < 4,
        ensures
            v == cof4(*self, r as int, c as int),
    {
        proof {
            reveal(cof4);
            reveal(minor4);
        }
        let r0i = oth_exec(0, r);
        let r1i = oth_exec(1, r);
        let r2i = oth_exec(2, r);
        let c0i = oth_exec(0, c);
        let c1i = oth_exec(1, c);
        let c2i = oth_exec(2, c);
        let minor = det3(
            self.get(r0i, c0i),
            self.get(r0i, c1i),
            self.get(r0i, c2i),
            self.get(r1i, c0i),
            self.get(r1i, c1i),
            self.get(r1i, c2i),
            self.get(r2i, c0i),
            self.get(r2i, c1i),
            self.get(r2i, c2i),
        );
        if (r + c) % 2 == 0 {
            minor
        } else {
            minor.neg()
        }
    }

    /// The determinant.
    pub fn det(&self) -> (d: Fx)
        ensures
            d == det4(*self),
    {
        proof {
            reveal(det4);
        }
        self.r0.x.mul(self.cofactor(0, 0)).add(self.r0.y.mul(self.cofactor(0, 1))).add(
            self.r0.z.mul(self.cofactor(0, 2)),
        ).add(self.r0.w.mul(self.cofactor(0, 3)))
    }

    /// The determinant clears the tolerance, so `inverse` may be called.
    pub fn is_invertible(&self) -> (r: bool)
        ensures
            r == invertible(*self),
    {
        self.det().abs().raw >= EPSILON_RAW
    }

    /// The inverse. A scene transform whose determinant magnitude falls
    /// below the tolerance is malformed, and callers must refuse it rather
    /// than call this.
    pub fn inverse(&self) -> (m: Matrix)
        requires
            invertible(*self),
        ensures
            m == minverse(*self),
    {
        proof {
            reveal(minverse);
        }
        let d = self.det();
        Matrix {
            r0: Vec4 {
                x: self.cofactor(0, 0).div(d),
                y: self.cofactor(1, 0).div(d),
                z: self.cofactor(2, 0).div(d),
                w: self.cofactor(3, 0).div(d),
            },
            r1: Vec4 {
                x: self.cofactor(0, 1).div(d),
                y: self.cofactor(1, 1).div(d),
                z: self.cofactor(2, 1).div(d),
                w: self.cofactor(3, 1).div(d),
            },
            r2: Vec4 {
                x: self.cofactor(0, 2).div(d),
                y: self.cofactor(1, 2).div(d),
                z: self.cofactor(2, 2).div(d),
                w: self.cofactor(3, 2).div(d),
            },
            r3: Vec4 {
                x: self.cofactor(0, 3).div(d),
                y: self.cofactor(1, 3).div(d),
                z: self.cofactor(2, 3).div(d),
                w: self.cofactor(3, 3).div(d),
            },
        }
    }
}

impl PartialEq for Matrix {
    /// Approximate equality, entry-wise.
    fn eq(&self, other: &Self) -> (r: bool) {
        self.r0.approx_eq(&other.r0) && self.r1.approx_eq(&other.r1)
            && self.r2.approx_eq(&other.r2) && self.r3.approx_eq(&other.r3)
    }
}

impl vstd::std_specs::cmp::PartialEqSpecImpl for Matrix {
    open spec fn obeys_eq_spec() -> bool {
        true
    }

    open spec fn eq_spec(&self, other: &Self) -> bool {
        mapprox(*self, *other)
    }
}

impl ApproxEq for Matrix {
    open spec fn approx_spec(&self, other: &Self) -> bool {
        mapprox(*self, *other)
    }

    fn approx_eq(&self, other: &Self) -> (r: bool)
        ensures
            r == self.approx_spec(other),
    {
        self.r0.approx_eq(&other.r0) && self.r1.approx_eq(&other.r1)
            && self.r2.approx_eq(&other.r2) && self.r3.approx_eq(&other.r3)
    }
}

} // verus!
