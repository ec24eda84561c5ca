//! Linear RGB colors.
//!
//! Components are unclamped fixed-point scalars; clamping and quantization
//! happen only in `to_rgb_u8`, when a color leaves for image assembly.
//! Equality (`==`) is approximate, component-wise within the geometric
//! tolerance, matching how rendered colors are compared.

use crate::math::{approx, fxadd, fxmul, fxsub, ApproxEq, Fx, SCALE};
use vstd::prelude::*;

verus! {

#[derive(Clone, Copy, Debug)]
pub struct Color {
    pub r: Fx,
    pub g: Fx,
    pub b: Fx,
}

/// Component-wise sum.
pub open spec fn cadd(a: Color, b: Color) -> Color {
    Color { r: fxadd(a.r, b.r), g: fxadd(a.g, b.g), b: fxadd(a.b, b.b) }
}

/// Component-wise difference.
pub open spec fn csub(a: Color, b: Color) -> Color {
    Color { r: fxsub(a.r, b.r), g: fxsub(a.g, b.g), b: fxsub(a.b, b.b) }
}

/// Component-wise (Hadamard) product.
pub open spec fn cmul(a: Color, b: Color) -> Color {
    Color { r: fxmul(a.r, b.r), g: fxmul(a.g, b.g), b: fxmul(a.b, b.b) }
}

/// Every component scaled by one factor.
pub open spec fn cscale(a: Color, s: Fx) -> Color {
    Color { r: fxmul(a.r, s), g: fxmul(a.g, s), b: fxmul(a.b, s) }
}

/// All components approximately equal.
pub open spec fn capprox(a: Color, b: Color) -> bool {
    approx(a.r, b.r) && approx(a.g, b.g) && approx(a.b, b.b)
}

/// The all-zero color.
pub open spec fn black_spec() -> Color {
    Color { r: Fx { raw: 0 }, g: Fx { raw: 0 }, b: Fx { raw: 0 } }
}

/// A component clamped to [0, 1] and quantized to 8 bits, rounding to
/// nearest.
pub open spec fn to_channel(c: Fx) -> int {
    if c.raw <= 0 {
        0
    } else if c.raw >= SCALE {
        255
    } else {
        (c.raw * 255 + SCALE / 2) / (SCALE as int)
    }
}

impl Color {
    pub fn new(r: Fx, g: Fx, b: Fx) -> (c: Color)
        ensures
            c == (Color { r, g, b }),
    {
        Color { r, g, b }
    }

    /// The zero color.
    pub fn default() -> (c: Color)
        ensures
            c == black_spec(),
    {
        Color { r: Fx { raw: 0 }, g: Fx { raw: 0 }, b: Fx { raw: 0 } }
    }

    pub fn black() -> (c: Color)
        ensures
            c == black_spec(),
    {
        Color::default()
    }

    pub fn white() -> (c: Color)
        ensures
            c == (Color { r: Fx { raw: SCALE }, g: Fx { raw: SCALE }, b: Fx { raw: SCALE } }),
    {
        Color { r: Fx { raw: SCALE }, g: Fx { raw: SCALE }, b: Fx { raw: SCALE } }
    }

    pub fn red() -> (c: Color)
        ensures
            c == (Color { r: Fx { raw: SCALE }, g: Fx { raw: 0 }, b: Fx { raw: 0 } }),
    {
        Color { r: Fx { raw: SCALE }, g: Fx { raw: 0 }, b: Fx { raw: 0 } }
    }

    pub fn add(self, rhs: Color) -> (c: Color)
        ensures
            c == cadd(self, rhs),
    {
        Color { r: self.r.add(rhs.r), g: self.g.add(rhs.g), b: self.b.add(rhs.b) }
    }

    pub fn sub(self, rhs: Color) -> (c: Color)
        ensures
            c == csub(self, rhs),
    {
        Color { r: self.r.sub(rhs.r), g: self.g.sub(rhs.g), b: self.b.sub(rhs.b) }
    }

    pub fn mul(self, rhs: Color) -> (c: Color)
        ensures
            c == cmul(self, rhs),
    {
        Color { r: self.r.mul(rhs.r), g: self.g.mul(rhs.g), b: self.b.mul(rhs.b) }
    }

    pub fn scale(self, s: Fx) -> (c: Color)
        ensures
            c == cscale(self, s),
    {
        Color { r: self.r.mul(s), g: self.g.mul(s), b: self.b.mul(s) }
    }

    /// Clamp each component to [0, 1] and quantize to 8 bits.
    pub fn to_rgb_u8(self) -> (rgb: (u8, u8, u8))
        ensures
            rgb.0 == to_channel(self.r),
            rgb.1 == to_channel(self.g),
            rgb.2 == to_channel(self.b),
    {
        (channel_u8(self.r), channel_u8(self.g), channel_u8(self.b))
    }
}

fn channel_u8(c: Fx) -> (r: u8)
    ensures
        r == to_channel(c),
{
    if c.raw <= 0 {
        0
    } else if c.raw >= SCALE {
        255
    } else {
        let n: i128 = c.raw as i128 * 255 + (SCALE / 2) as i128;
        let q: i128 = n / (SCALE as i128);
        proof {
            assert(0 < n <= (SCALE as int) * 255 + SCALE / 2);
            vstd::arithmetic::div_mod::lemma_div_is_ordered(
                n as int,
                (SCALE as int) * 255 + SCALE / 2,
                SCALE as int,
            );
            assert(((SCALE as int) * 255 + SCALE / 2) / (SCALE as int) == 255) by {
                vstd::arithmetic::div_mod::lemma_hoist_over_denominator(
                    SCALE / 2,
                    255,
                    SCALE as nat,
                );
            }
            vstd::arithmetic::div_mod::lemma_div_pos_is_pos(n as int, SCALE as int);
        }
        q as u8
    }
}

impl PartialEq for Color {
    /// Approximate equality, component-wise.
    fn eq(&self, other: &Self) -> (r: bool) {
        self.r.approx_eq(&other.r) && self.g.approx_eq(&other.g) && self.b.approx_eq(&other.b)
    }
}

impl vstd::std_specs::cmp::PartialEqSpecImpl for Color {
    open spec fn obeys_eq_spec() -> bool {
        true
    }

    open spec fn eq_spec(&self, other: &Self) -> bool {
        capprox(*self, *other)
    }
}

impl ApproxEq for Color {
    open spec fn approx_spec(&self, other: &Self) -> bool {
        capprox(*self, *other)
    }

    fn approx_eq(&self, other: &Self) -> (r: bool)
        ensures
            r == self.approx_spec(other),
    {
        self.r.approx_eq(&other.r) && self.g.approx_eq(&other.g) && self.b.approx_eq(&other.b)
    }
}

} // verus!
