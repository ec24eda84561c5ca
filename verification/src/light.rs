//! Point lights: a position and an intensity.

use crate::color::Color;
use crate::vec4::Vec4;
use vstd::prelude::*;

verus! {

#[derive(Clone, Copy, Debug)]
pub struct PointLight {
    pub position: Vec4,
    pub intensity: Color,
}

impl PointLight {
    pub fn new(position: Vec4, intensity: Color) -> (l: PointLight)
        ensures
            l == (PointLight { position, intensity }),
    {
        PointLight { position, intensity }
    }
}

} // verus!
