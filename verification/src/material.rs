//! Surface materials and the Phong lighting model.

use crate::color::{cadd, cmul, cscale, black_spec, Color};
use crate::light::PointLight;
use crate::math::{fxpow, Fx, SCALE};
use crate::patterns::{pattern_at_spec, Pattern};
use crate::shapes::Shape;
use crate::vec4::{vdot, vneg, vnorm, vreflect, vsub, Vec4};
use vstd::prelude::*;

verus! {

#[derive(Clone, Copy, Debug)]
pub struct Material {
    pub color: Color,
    pub ambient: Fx,
    pub diffuse: Fx,
    pub specular: Fx,
    pub shininess: Fx,
    pub reflective: Fx,
    pub transparency: Fx,
    pub refractive_index: Fx,
    pub pattern: Option<Pattern>,
}

/// The stock material: white, matte, opaque, refracting like vacuum.
pub open spec fn default_material() -> Material {
    Material {
        color: Color { r: Fx { raw: SCALE }, g: Fx { raw: SCALE }, b: Fx { raw: SCALE } },
        ambient: Fx { raw: (SCALE / 10) as i64 },
        diffuse: Fx { raw: (9 * (SCALE / 10)) as i64 },
        specular: Fx { raw: (9 * (SCALE / 10)) as i64 },
        shininess: Fx { raw: (200 * SCALE) as i64 },
        reflective: Fx { raw: 0 },
        transparency: Fx { raw: 0 },
        refractive_index: Fx { raw: SCALE },
        pattern: None,
    }
}

/// Glass: fully transparent, refractive index 1.5.
pub open spec fn glass_material() -> Material {
    Material {
        transparency: Fx { raw: SCALE },
        refractive_index: Fx { raw: (SCALE + SCALE / 2) as i64 },
        ..default_material()
    }
}

/// The exponent the specular highlight is raised to: the material's
/// shininess in whole units, never negative.
pub open spec fn shininess_exponent(m: Material) -> nat {
    if m.shininess.raw <= 0 {
        0
    } else {
        (m.shininess.raw as int / (SCALE as int)) as nat
    }
}

/// Phong shading for one light: the pattern or surface color modulated by
/// the light, an ambient term always, and diffuse plus specular terms when
/// the point is lit and faces the light. In shadow only the ambient term
/// remains.
pub open spec fn lighting_spec(
    m: Material,
    object_inverse: crate::matrix::Matrix,
    light: PointLight,
    point: Vec4,
    eyev: Vec4,
    normalv: Vec4,
    in_shadow: bool,
) -> Color {
    let base = match m.pattern {
        Some(p) => pattern_at_spec(p, object_inverse, point),
        None => m.color,
    };
    let effective = cmul(base, light.intensity);
    let lightv = vnorm(vsub(light.position, point));
    let ambient = cscale(effective, m.ambient);
    let light_dot_normal = vdot(lightv, normalv);
    if in_shadow {
        ambient
    } else {
        let terms = if light_dot_normal.raw < 0 {
            (black_spec(), black_spec())
        } else {
            let diffuse = cscale(cscale(effective, m.diffuse), light_dot_normal);
            let reflectv = vreflect(vneg(lightv), normalv);
            let reflect_dot_eye = vdot(reflectv, eyev);
            let specular = if reflect_dot_eye.raw <= 0 {
                black_spec()
            } else {
                let factor = fxpow(reflect_dot_eye, shininess_exponent(m));
                cscale(cscale(light.intensity, m.specular), factor)
            };
            (diffuse, specular)
        };
        cadd(cadd(ambient, terms.0), terms.1)
    }
}

impl Material {
    pub fn default() -> (m: Material)
        ensures
            m == default_material(),
    {
        Material {
            color: Color::white(),
            ambient: Fx { raw: SCALE / 10 },
            diffuse: Fx { raw: 9 * (SCALE / 10) },
            specular: Fx { raw: 9 * (SCALE / 10) },
            shininess: Fx { raw: 200 * SCALE },
            reflective: Fx { raw: 0 },
            transparency: Fx { raw: 0 },
            refractive_index: Fx { raw: SCALE },
            pattern: None,
        }
    }

    /// Glass: fully transparent, refractive index 1.5.
    pub fn glas() -> (m: Material)
        ensures
            m == glass_material(),
    {
        let mut m = Material::default();
        m.transparency = Fx { raw: SCALE };
        m.refractive_index = Fx { raw: SCALE + SCALE / 2 };
        m
    }

    pub fn new(color: Color, ambient: Fx, diffuse: Fx, specular: Fx, shininess: Fx) -> (m:
        Material)
        ensures
            m == (Material { color, ambient, diffuse, specular, shininess, ..default_material() }),
    {
        Material {
            color,
            ambient,
            diffuse,
            specular,
            shininess,
            reflective: Fx { raw: 0 },
            transparency: Fx { raw: 0 },
            refractive_index: Fx { raw: SCALE },
            pattern: None,
        }
    }

    pub fn set_color(&mut self, color: Color)
        ensures
            *final(self) == (Material { color, ..*old(self) }),
    {
        self.color = color;
    }

    pub fn set_pattern(&mut self, pattern: Pattern)
        ensures
            *final(self) == (Material { pattern: Some(pattern), ..*old(self) }),
    {
        self.pattern = Some(pattern);
    }

    /// Phong shading for one light at one surface point.
    pub fn lighting(
        material: &Material,
        object: &Shape,
        light: &PointLight,
        point: &Vec4,
        eyev: &Vec4,
        normalv: &Vec4,
        in_shadow: bool,
    ) -> (c: Color)
        ensures
            c == lighting_spec(
                *material,
                object.inverse_spec(),
                *light,
                *point,
                *eyev,
                *normalv,
                in_shadow,
            ),
    {
        let base = match &material.pattern {
            Some(p) => p.pattern_at(object.inverse(), point),
            None => material.color,
        };
        let effective = base.mul(light.intensity);
        let lightv = light.position.sub(*point).norm();
        let ambient = effective.scale(material.ambient);
        let light_dot_normal = lightv.dot(normalv);
        if in_shadow {
            return ambient;
        }
        let (diffuse, specular) = if light_dot_normal.raw < 0 {
            (Color::black(), Color::black())
        } else {
            let diffuse = effective.scale(material.diffuse).scale(light_dot_normal);
            let reflectv = lightv.neg().reflect(normalv);
            let reflect_dot_eye = reflectv.dot(eyev);
            let specular = if reflect_dot_eye.raw <= 0 {
                Color::black()
            } else {
                let exp: u64 = shininess_exponent_exec(material);
                let factor = reflect_dot_eye.pow(exp);
                light.intensity.scale(material.specular).scale(factor)
            };
            (diffuse, specular)
        };
        ambient.add(diffuse).add(specular)
    }
}

fn shininess_exponent_exec(m: &Material) -> (e: u64)
    ensures
        e as nat == shininess_exponent(*m),
{
    if m.shininess.raw <= 0 {
        0
    } else {
        let u = m.shininess.floor_units_exec();
        proof {
            vstd::arithmetic::div_mod::lemma_div_pos_is_pos(m.shininess.raw as int, SCALE as int);
        }
        u as u64
    }
}

} // verus!
