//! Fixed-point scalar arithmetic.
//!
//! A scalar carries its value as `raw / SCALE`. Every operation is total:
//! results saturate at the symmetric raw bound instead of wrapping, and
//! division by zero yields zero (callers of the geometric algorithms guard
//! near-zero divisors with `EPSILON_RAW` as the original algorithms demand).
//! Each executable operation is specified exactly by a spec-level mirror
//! (`fxadd`, `fxmul`, ...), so contracts downstream pin results down to the
//! raw unit.

use vstd::arithmetic::div_mod::lemma_div_multiples_vanish;
use vstd::prelude::*;

verus! {

/// Raw units per whole unit.
pub const SCALE: i64 = 100_000_000;

/// Largest raw magnitude a scalar can carry; arithmetic saturates here.
pub const MAX_RAW: i64 = 0x7fff_ffff_ffff_ffff;

/// Raw value of the geometric tolerance (1e-4 whole units).
pub const EPSILON_RAW: i64 = 10_000;

/// Raw magnitude from which a coordinate counts as infinite (bounds of
/// unbounded shapes use the saturation bound itself as their sentinel).
pub const HUGE_RAW: i64 = 0x16345785d8a0000;

/// A fixed-point scalar: the value is `raw / SCALE`.
#[derive(Clone, Copy, Debug, PartialEq, Eq, Structural)]
pub struct Fx {
    pub raw: i64,
}

/// Magnitude of an unbounded integer.
pub open spec fn abs_int(a: int) -> int {
    if a < 0 {
        -a
    } else {
        a
    }
}

/// Saturate an unbounded integer into the symmetric raw range.
pub open spec fn clip(x: int) -> int {
    if x > MAX_RAW {
        MAX_RAW as int
    } else if x < -MAX_RAW {
        -MAX_RAW
    } else {
        x
    }
}

/// Integer division rounding toward zero; zero when the divisor is zero.
pub open spec fn dtz(a: int, b: int) -> int {
    if b == 0 {
        0
    } else {
        let q = abs_int(a) / abs_int(b);
        if (a < 0) != (b < 0) {
            -q
        } else {
            q
        }
    }
}

/// The sum of two scalars, saturating.
pub open spec fn fxadd(a: Fx, b: Fx) -> Fx {
    Fx { raw: clip(a.raw + b.raw) as i64 }
}

/// The difference of two scalars, saturating.
pub open spec fn fxsub(a: Fx, b: Fx) -> Fx {
    Fx { raw: clip(a.raw - b.raw) as i64 }
}

/// The negation of a scalar, saturating.
pub open spec fn fxneg(a: Fx) -> Fx {
    Fx { raw: clip(-a.raw) as i64 }
}

/// The product of two scalars: exact product of raws, rescaled toward zero,
/// saturating.
pub open spec fn fxmul(a: Fx, b: Fx) -> Fx {
    Fx { raw: clip(dtz(a.raw * b.raw, SCALE as int)) as i64 }
}

/// The quotient of two scalars, rounded toward zero, saturating; zero when
/// the divisor is zero.
pub open spec fn fxdiv(a: Fx, b: Fx) -> Fx {
    Fx { raw: clip(dtz(a.raw * SCALE, b.raw as int)) as i64 }
}

/// `r` is the integer square root of `n`.
pub open spec fn is_isqrt(n: int, r: int) -> bool {
    0 <= r && r * r <= n && n < (r + 1) * (r + 1)
}

/// The integer square root of a nonnegative integer.
pub open spec fn isqrt_val(n: int) -> int {
    choose|r: int| is_isqrt(n, r)
}

/// The square root of a scalar, rounded down to the raw unit; zero on
/// negative input.
pub open spec fn fxsqrt(a: Fx) -> Fx {
    if a.raw < 0 {
        Fx { raw: 0 }
    } else {
        Fx { raw: clip(isqrt_val(a.raw * SCALE)) as i64 }
    }
}

/// The magnitude of a scalar, saturating.
pub open spec fn fxabs(a: Fx) -> Fx {
    Fx { raw: clip(abs_int(a.raw as int)) as i64 }
}

/// The smaller of two scalars.
pub open spec fn fxmin(a: Fx, b: Fx) -> Fx {
    if a.raw <= b.raw {
        a
    } else {
        b
    }
}

/// The larger of two scalars.
pub open spec fn fxmax(a: Fx, b: Fx) -> Fx {
    if a.raw >= b.raw {
        a
    } else {
        b
    }
}

/// Two scalars agree within the geometric tolerance.
pub open spec fn approx(a: Fx, b: Fx) -> bool {
    abs_int(a.raw - b.raw) < EPSILON_RAW
}

fn clamp_raw(x: i128) -> (r: i64)
    ensures
        r == clip(x as int),
{
    if x > MAX_RAW as i128 {
        MAX_RAW
    } else if x < -(MAX_RAW as i128) {
        -MAX_RAW
    } else {
        x as i64
    }
}

/// Division of machine integers rounding toward zero.
fn dtz_i128(a: i128, b: i128) -> (r: i128)
    requires
        -(i128::MAX as int) <= a,
        -(i128::MAX as int) <= b,
    ensures
        r == dtz(a as int, b as int),
{
    if b == 0 {
        return 0;
    }
    let an: u128 = if a < 0 {
        (-a) as u128
    } else {
        a as u128
    };
    let bn: u128 = if b < 0 {
        (-b) as u128
    } else {
        b as u128
    };
    let q: u128 = an / bn;
    proof {
        assert(an == abs_int(a as int));
        assert(bn == abs_int(b as int));
        vstd::arithmetic::div_mod::lemma_div_nonincreasing(an as int, bn as int);
        vstd::arithmetic::div_mod::lemma_div_is_ordered_by_denominator(an as int, 1, bn as int);
    }
    if (a < 0) != (b < 0) {
        -(q as i128)
    } else {
        q as i128
    }
}

/// The integer square root, by bisection.
fn isqrt(n: u128) -> (r: u128)
    ensures
        is_isqrt(n as int, r as int),
{
    if n == 0 {
        return 0;
    }
    let mut lo: u128 = 0;
    let mut hi: u128 = 0x1_0000_0000_0000_0000;
    while lo + 1 < hi
        invariant
            lo < hi,
            hi <= 0x1_0000_0000_0000_0000,
            (lo as int) * (lo as int) <= n,
            (n as int) < (hi as int) * (hi as int),
        decreases hi - lo,
    {
        let mid: u128 = lo + (hi - lo) / 2;
        proof {
            assert((mid as int) * (mid as int) <= u128::MAX) by (nonlinear_arith)
                requires
                    0 <= mid < 0x1_0000_0000_0000_0000,
            ;
        }
        let sq = mid * mid;
        if sq <= n {
            lo = mid;
        } else {
            hi = mid;
        }
    }
    lo
}

/// The integer square root is unique.
pub proof fn lemma_isqrt_unique(n: int, r: int)
    requires
        is_isqrt(n, r),
    ensures
        isqrt_val(n) == r,
{
    assert(is_isqrt(n, isqrt_val(n)));
    let s = isqrt_val(n);
    if s < r {
        assert((s + 1) * (s + 1) <= r * r) by (nonlinear_arith)
            requires
                0 <= s,
                s + 1 <= r,
        ;
    }
    if r < s {
        assert((r + 1) * (r + 1) <= s * s) by (nonlinear_arith)
            requires
                0 <= r,
                r + 1 <= s,
        ;
    }
}

impl Fx {
    /// The scalar with the given raw value.
    pub fn new(raw: i64) -> (r: Fx)
        ensures
            r.raw == raw,
    {
        Fx { raw }
    }

    /// The scalar for a whole number of units, saturating.
    pub fn from_int(units: i64) -> (r: Fx)
        ensures
            r.raw == clip(units * SCALE),
    {
        proof {
            assert(-(i128::MAX as int) < (units as int) * (SCALE as int) < i128::MAX as int)
                by (nonlinear_arith)
                requires
                    i64::MIN <= units <= i64::MAX,
            ;
        }
        let p: i128 = units as i128 * SCALE as i128;
        Fx { raw: clamp_raw(p) }
    }

    pub fn add(self, rhs: Fx) -> (r: Fx)
        ensures
            r == fxadd(self, rhs),
    {
        let s: i128 = self.raw as i128 + rhs.raw as i128;
        Fx { raw: clamp_raw(s) }
    }

    pub fn sub(self, rhs: Fx) -> (r: Fx)
        ensures
            r == fxsub(self, rhs),
    {
        let s: i128 = self.raw as i128 - rhs.raw as i128;
        Fx { raw: clamp_raw(s) }
    }

    pub fn neg(self) -> (r: Fx)
        ensures
            r == fxneg(self),
    {
        let s: i128 = -(self.raw as i128);
        Fx { raw: clamp_raw(s) }
    }

    pub fn mul(self, rhs: Fx) -> (r: Fx)
        ensures
            r == fxmul(self, rhs),
    {
        proof {
            assert(-(i128::MAX as int) < (self.raw as int) * (rhs.raw as int) < i128::MAX as int)
                by (nonlinear_arith)
                requires
                    i64::MIN <= self.raw <= i64::MAX,
                    i64::MIN <= rhs.raw <= i64::MAX,
            ;
        }
        let p: i128 = self.raw as i128 * rhs.raw as i128;
        let q = dtz_i128(p, SCALE as i128);
        Fx { raw: clamp_raw(q) }
    }

    pub fn div(self, rhs: Fx) -> (r: Fx)
        ensures
            r == fxdiv(self, rhs),
    {
        proof {
            assert(-(i128::MAX as int) < (self.raw as int) * (SCALE as int) < i128::MAX as int)
                by (nonlinear_arith)
                requires
                    i64::MIN <= self.raw <= i64::MAX,
            ;
        }
        let p: i128 = self.raw as i128 * SCALE as i128;
        let q = dtz_i128(p, rhs.raw as i128);
        Fx { raw: clamp_raw(q) }
    }

    pub fn sqrt(self) -> (r: Fx)
        ensures
            r == fxsqrt(self),
    {
        if self.raw < 0 {
            Fx { raw: 0 }
        } else {
            let n: u128 = self.raw as u128 * SCALE as u128;
            let s = isqrt(n);
            proof {
                lemma_isqrt_unique(n as int, s as int);
                assert((s as int) * (s as int) <= n < (0x1_0000_0000_0000_0000int)
                    * 0x1_0000_0000_0000_0000);
                assert(s < 0x1_0000_0000_0000_0000) by (nonlinear_arith)
                    requires
                        0 <= s,
                        (s as int) * (s as int) < (0x1_0000_0000_0000_0000int)
                            * 0x1_0000_0000_0000_0000,
                ;
            }
            Fx { raw: clamp_raw(s as i128) }
        }
    }

    pub fn abs(self) -> (r: Fx)
        ensures
            r == fxabs(self),
    {
        let s: i128 = self.raw as i128;
        let m: i128 = if s < 0 {
            -s
        } else {
            s
        };
        Fx { raw: clamp_raw(m) }
    }

    pub fn min(self, rhs: Fx) -> (r: Fx)
        ensures
            r == fxmin(self, rhs),
    {
        if self.raw <= rhs.raw {
            self
        } else {
            rhs
        }
    }

    pub fn max(self, rhs: Fx) -> (r: Fx)
        ensures
            r == fxmax(self, rhs),
    {
        if self.raw >= rhs.raw {
            self
        } else {
            rhs
        }
    }

    /// Strictly less than.
    pub fn lt(self, rhs: Fx) -> (r: bool)
        ensures
            r == (self.raw < rhs.raw),
    {
        self.raw < rhs.raw
    }

    /// Less than or equal.
    pub fn le(self, rhs: Fx) -> (r: bool)
        ensures
            r == (self.raw <= rhs.raw),
    {
        self.raw <= rhs.raw
    }
}

/// The whole-unit floor of a scalar.
pub open spec fn floor_units(a: Fx) -> int {
    a.raw as int / (SCALE as int)
}

/// The scalar rounded down to a whole unit, saturating.
pub open spec fn fxfloor(a: Fx) -> Fx {
    Fx { raw: clip(floor_units(a) * SCALE) as i64 }
}

/// The scalar raised to a whole power, by repeated multiplication from the
/// left.
pub open spec fn fxpow(b: Fx, e: nat) -> Fx
    decreases e,
{
    if e == 0 {
        Fx { raw: SCALE }
    } else {
        fxmul(fxpow(b, (e - 1) as nat), b)
    }
}

/// The quotient by a positive divisor sits between zero and a literal
/// fraction of the dividend.
proof fn lemma_quot_small(x: int, s: int)
    requires
        0 <= x,
        1 < s,
    ensures
        0 <= x / s,
        s * (x / s) <= x,
{
    vstd::arithmetic::div_mod::lemma_fundamental_div_mod(x, s);
    vstd::arithmetic::div_mod::lemma_mod_bound(x, s);
    vstd::arithmetic::div_mod::lemma_div_pos_is_pos(x, s);
}

/// Floor division of a negative value, through the magnitude's ceiling.
proof fn lemma_neg_div(m: int, s: int)
    requires
        m > 0,
        s > 1,
    ensures
        (-m) / s == -((m + s - 1) / s),
{
    let a = m / s;
    let b = m % s;
    vstd::arithmetic::div_mod::lemma_fundamental_div_mod(m, s);
    vstd::arithmetic::div_mod::lemma_mod_bound(m, s);
    if b == 0 {
        assert(m + s - 1 == a * s + (s - 1)) by (nonlinear_arith)
            requires
                m == s * a,
        ;
        assert(-m == (-a) * s + 0) by (nonlinear_arith)
            requires
                m == s * a,
        ;
        vstd::arithmetic::div_mod::lemma_fundamental_div_mod_converse(m + s - 1, s, a, s - 1);
        vstd::arithmetic::div_mod::lemma_fundamental_div_mod_converse(-m, s, -a, 0);
    } else {
        assert(m + s - 1 == (a + 1) * s + (b - 1)) by (nonlinear_arith)
            requires
                m == s * a + b,
        ;
        assert(-m == (-(a + 1)) * s + (s - b)) by (nonlinear_arith)
            requires
                m == s * a + b,
        ;
        vstd::arithmetic::div_mod::lemma_fundamental_div_mod_converse(m + s - 1, s, a + 1, b - 1);
        vstd::arithmetic::div_mod::lemma_fundamental_div_mod_converse(-m, s, -(a + 1), s - b);
    }
}

impl Fx {
    /// The whole-unit floor, as a machine integer.
    pub fn floor_units_exec(self) -> (r: i64)
        ensures
            r == floor_units(self),
    {
        if self.raw >= 0 {
            let q: u64 = (self.raw as u64) / (SCALE as u64);
            proof {
                lemma_quot_small(self.raw as int, SCALE as int);
            }
            q as i64
        } else {
            let m: u128 = (-(self.raw as i128)) as u128;
            let n: u128 = m + (SCALE - 1) as u128;
            let q: u128 = n / (SCALE as u128);
            proof {
                lemma_neg_div(m as int, SCALE as int);
                lemma_quot_small(n as int, SCALE as int);
            }
            (-(q as i128)) as i64
        }
    }

    /// The scalar rounded down to a whole unit.
    pub fn floor(self) -> (r: Fx)
        ensures
            r == fxfloor(self),
    {
        let u = self.floor_units_exec();
        proof {
            assert(-(i128::MAX as int) < (u as int) * (SCALE as int) < i128::MAX as int)
                by (nonlinear_arith)
                requires
                    i64::MIN <= u <= i64::MAX,
            ;
        }
        let p: i128 = u as i128 * SCALE as i128;
        Fx { raw: clamp_raw(p) }
    }

    /// The scalar raised to a whole power.
    pub fn pow(self, e: u64) -> (r: Fx)
        ensures
            r == fxpow(self, e as nat),
    {
        let mut acc = Fx { raw: SCALE };
        let mut k: u64 = 0;
        while k < e
            invariant
                k <= e,
                acc == fxpow(self, k as nat),
            decreases e - k,
        {
            acc = acc.mul(self);
            k = k + 1;
        }
        acc
    }
}

/// Values agree within the geometric tolerance.
pub trait ApproxEq {
    /// What approximate agreement means for this type.
    spec fn approx_spec(&self, other: &Self) -> bool;

    fn approx_eq(&self, other: &Self) -> (r: bool)
        ensures
            r == self.approx_spec(other),
    ;
}

impl ApproxEq for Fx {
    open spec fn approx_spec(&self, other: &Self) -> bool {
        approx(*self, *other)
    }

    fn approx_eq(&self, other: &Self) -> (r: bool)
        ensures
            r == self.approx_spec(other),
    {
        let d: i128 = self.raw as i128 - other.raw as i128;
        let m: i128 = if d < 0 {
            -d
        } else {
            d
        };
        m < EPSILON_RAW as i128
    }
}

/// Multiplying by one returns the operand, at any representable value.
pub proof fn lemma_fxmul_one(a: Fx)
    requires
        a.raw > i64::MIN,
    ensures
        fxmul(a, Fx { raw: SCALE }) == a,
        fxmul(Fx { raw: SCALE }, a) == a,
{
    let p = (a.raw as int) * (SCALE as int);
    lemma_div_multiples_vanish(a.raw as int, SCALE as int);
    if a.raw >= 0 {
        assert(abs_int(p) == p) by (nonlinear_arith)
            requires
                p == (a.raw as int) * (SCALE as int),
                a.raw >= 0,
                SCALE > 0,
        ;
        assert(abs_int(p) / (SCALE as int) == a.raw);
    } else {
        assert(abs_int(p) == -p) by (nonlinear_arith)
            requires
                p == (a.raw as int) * (SCALE as int),
                a.raw < 0,
                SCALE > 0,
        ;
        assert(-p == (-a.raw) * (SCALE as int)) by (nonlinear_arith)
            requires
                p == (a.raw as int) * (SCALE as int),
        ;
        lemma_div_multiples_vanish(-a.raw as int, SCALE as int);
        assert(abs_int(p) / (SCALE as int) == -a.raw);
    }
}

/// Multiplying by zero returns zero.
pub proof fn lemma_fxmul_zero(a: Fx)
    ensures
        fxmul(a, Fx { raw: 0 }) == (Fx { raw: 0 }),
        fxmul(Fx { raw: 0 }, a) == (Fx { raw: 0 }),
{
    assert((a.raw as int) * 0 == 0) by (nonlinear_arith);
    assert(0int * (a.raw as int) == 0) by (nonlinear_arith);
    assert(abs_int(0) / (SCALE as int) == 0);
}

} // verus!
