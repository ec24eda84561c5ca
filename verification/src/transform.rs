//! Affine transform constructors.
//!
//! Rotations need trigonometry and are built by the caller from precomputed
//! entries via `Matrix::from_array`; the axis-aligned constructors live here.

use crate::math::{
    fxadd, fxmul, fxsub, lemma_fxmul_one, lemma_fxmul_zero, Fx, SCALE,
};
use crate::matrix::{cof4, det4, eye_spec, minor4, Matrix};
use crate::vec4::Vec4;
use vstd::prelude::*;

verus! {

/// The determinant of a scaling transform is the product of its factors.
pub proof fn lemma_scaling_det(x: Fx, y: Fx, z: Fx)
    requires
        x.raw > i64::MIN,
        y.raw > i64::MIN,
        z.raw > i64::MIN,
    ensures
        det4(scaling_spec(x, y, z)) == fxmul(x, fxmul(y, z)),
{
    reveal(det4);
    reveal(cof4);
    reveal(minor4);
    let m = scaling_spec(x, y, z);
    let one = Fx { raw: SCALE };
    let nil = Fx { raw: 0 };
    lemma_fxmul_zero(y);
    lemma_fxmul_zero(z);
    lemma_fxmul_zero(one);
    lemma_fxmul_zero(nil);
    lemma_fxmul_one(z);
    lemma_fxmul_zero(fxmul(y, z));
    lemma_fxmul_zero(cof4(m, 0, 1));
    lemma_fxmul_zero(cof4(m, 0, 2));
    lemma_fxmul_zero(cof4(m, 0, 3));
    assert(fxsub(fxmul(z, one), fxmul(nil, nil)) == z);
    assert(fxsub(fxmul(nil, one), fxmul(nil, nil)) == nil);
    assert(fxsub(fxmul(nil, nil), fxmul(z, nil)) == nil);
    assert(minor4(m, 0, 0) == fxadd(fxsub(fxmul(y, z), nil), nil));
    assert(minor4(m, 0, 0) == fxmul(y, z));
    assert(cof4(m, 0, 0) == fxmul(y, z));
    assert(det4(m) == fxadd(
        fxadd(fxadd(fxmul(x, fxmul(y, z)), nil), nil),
        nil,
    ));
    assert(fxadd(fxmul(x, fxmul(y, z)), nil) == fxmul(x, fxmul(y, z)));
}

/// The translation by (x, y, z).
pub open spec fn translation_spec(x: Fx, y: Fx, z: Fx) -> Matrix {
    Matrix {
        r0: Vec4 { x: Fx { raw: SCALE }, y: Fx { raw: 0 }, z: Fx { raw: 0 }, w: x },
        r1: Vec4 { x: Fx { raw: 0 }, y: Fx { raw: SCALE }, z: Fx { raw: 0 }, w: y },
        r2: Vec4 { x: Fx { raw: 0 }, y: Fx { raw: 0 }, z: Fx { raw: SCALE }, w: z },
        r3: eye_spec().r3,
    }
}

/// The scaling by (x, y, z).
pub open spec fn scaling_spec(x: Fx, y: Fx, z: Fx) -> Matrix {
    Matrix {
        r0: Vec4 { x: x, y: Fx { raw: 0 }, z: Fx { raw: 0 }, w: Fx { raw: 0 } },
        r1: Vec4 { x: Fx { raw: 0 }, y: y, z: Fx { raw: 0 }, w: Fx { raw: 0 } },
        r2: Vec4 { x: Fx { raw: 0 }, y: Fx { raw: 0 }, z: z, w: Fx { raw: 0 } },
        r3: eye_spec().r3,
    }
}

/// The shear with the six off-diagonal factors.
pub open spec fn shearing_spec(xy: Fx, xz: Fx, yx: Fx, yz: Fx, zx: Fx, zy: Fx) -> Matrix {
    Matrix {
        r0: Vec4 { x: Fx { raw: SCALE }, y: xy, z: xz, w: Fx { raw: 0 } },
        r1: Vec4 { x: yx, y: Fx { raw: SCALE }, z: yz, w: Fx { raw: 0 } },
        r2: Vec4 { x: zx, y: zy, z: Fx { raw: SCALE }, w: Fx { raw: 0 } },
        r3: eye_spec().r3,
    }
}

impl Matrix {
    pub fn translation(x: Fx, y: Fx, z: Fx) -> (m: Matrix)
        ensures
            m == translation_spec(x, y, z),
    {
        let mut m = Matrix::eye();
        m.r0.w = x;
        m.r1.w = y;
        m.r2.w = z;
        m
    }

    pub fn scaling(x: Fx, y: Fx, z: Fx) -> (m: Matrix)
        ensures
            m == scaling_spec(x, y, z),
    {
        let mut m = Matrix::new();
        m.r0.x = x;
        m.r1.y = y;
        m.r2.z = z;
        m.r3.w = Fx { raw: SCALE };
        m
    }

    pub fn shearing(xy: Fx, xz: Fx, yx: Fx, yz: Fx, zx: Fx, zy: Fx) -> (m: Matrix)
        ensures
            m == shearing_spec(xy, xz, yx, yz, zx, zy),
    {
        let mut m = Matrix::eye();
        m.r0.y = xy;
        m.r0.z = xz;
        m.r1.x = yx;
        m.r1.z = yz;
        m.r2.x = zx;
        m.r2.y = zy;
        m
    }
}

} // verus!
