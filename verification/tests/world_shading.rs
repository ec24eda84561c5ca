use raytracer::color::Color;
use raytracer::intersection::Intersection;
use raytracer::light::PointLight;
use raytracer::material::Material;
use raytracer::math::{ApproxEq, Fx};
use raytracer::matrix::Matrix;
use raytracer::patterns::{StripePattern, TestPattern};
use raytracer::ray::Ray;
use raytracer::shapes::plane::Plane;
use raytracer::shapes::smooth_triangle::SmoothTriangle;
use raytracer::shapes::sphere::Sphere;
use raytracer::vec4::Vec4;
use raytracer::world::World;

fn fx(v: f64) -> Fx {
    Fx::new((v * 100_000_000.0).round() as i64)
}

fn pointf(x: f64, y: f64, z: f64) -> Vec4 {
    Vec4::point(fx(x), fx(y), fx(z))
}

fn vectorf(x: f64, y: f64, z: f64) -> Vec4 {
    Vec4::vector(fx(x), fx(y), fx(z))
}

fn colorf(r: f64, g: f64, b: f64) -> Color {
    Color::new(fx(r), fx(g), fx(b))
}

fn rayf(x: f64, y: f64, z: f64, dx: f64, dy: f64, dz: f64) -> Ray {
    Ray::new(fx(x), fx(y), fx(z), fx(dx), fx(dy), fx(dz))
}

const SQRT_2: f64 = std::f64::consts::SQRT_2;

#[test]
fn get_hit() {
    let i1 = Intersection::new(fx(1.0), 1, None, None);
    let i2 = Intersection::new(fx(2.0), 1, None, None);
    let xs = vec![i1, i2];
    let i = Intersection::hit(&xs);
    assert_eq!(i1, i.unwrap());

    let i1 = Intersection::new(fx(-1.0), 1, None, None);
    let i2 = Intersection::new(fx(1.0), 1, None, None);
    let xs = vec![i1, i2];
    let i = Intersection::hit(&xs);
    assert_eq!(i2, i.unwrap());

    let i1 = Intersection::new(fx(-1.0), 1, None, None);
    let i2 = Intersection::new(fx(-1.0), 1, None, None);
    let xs = vec![i1, i2];
    assert!(Intersection::hit(&xs).is_none());

    let i1 = Intersection::new(fx(5.0), 1, None, None);
    let i2 = Intersection::new(fx(7.0), 1, None, None);
    let i3 = Intersection::new(fx(-3.0), 1, None, None);
    let i4 = Intersection::new(fx(2.0), 1, None, None);
    let xs = vec![i1, i2, i3, i4];
    let i = Intersection::hit(&xs);
    assert_eq!(i.unwrap(), i4);
}

#[test]
fn hit_when_intersection_outside_inside() {
    let mut w = World::new(PointLight::new(pointf(0.0, 0.0, 0.0), Color::white()));
    w.add_shape(Sphere::new(1));

    let r = rayf(0.0, 0.0, -5.0, 0.0, 0.0, 1.0);
    let i = Intersection::new(fx(4.0), 1, None, None);
    let comps = i.prepare_computations(&r, &Vec::new(), &w);
    assert_eq!(comps.inside, false);

    let r = rayf(0.0, 0.0, 0.0, 0.0, 0.0, 1.0);
    let i = Intersection::new(fx(1.0), 1, None, None);
    let comps = i.prepare_computations(&r, &Vec::new(), &w);
    assert_eq!(comps.point, pointf(0.0, 0.0, 1.0));
    assert_eq!(comps.eyev, vectorf(0.0, 0.0, -1.0));
    assert_eq!(comps.inside, true);
    assert_eq!(comps.normalv, vectorf(0.0, 0.0, -1.0));
}

#[test]
fn precompute_reflection_vec() {
    let mut w = World::new(PointLight::new(pointf(0.0, 0.0, 0.0), Color::white()));
    w.add_shape(Plane::new(1));
    let r = Ray::from_vec4(pointf(0.0, 1.0, -1.0), vectorf(0.0, -SQRT_2 / 2.0, SQRT_2 / 2.0));
    let i = Intersection::new(fx(SQRT_2), 1, None, None);
    let comps = i.prepare_computations(&r, &Vec::new(), &w);
    assert_eq!(comps.reflectv, vectorf(0.0, SQRT_2 / 2.0, SQRT_2 / 2.0));
}

#[test]
fn lighting_with_eye_offset_45_degrees() {
    let m = Material::default();
    let s = Sphere::new(1);
    let position = pointf(0.0, 0.0, 0.0);
    let eyev = vectorf(0.0, SQRT_2 / 2.0, -SQRT_2 / 2.0);
    let normalv = vectorf(0.0, 0.0, -1.0);
    let light = PointLight::new(pointf(0.0, 0.0, -10.0), colorf(1.0, 1.0, 1.0));
    let result = Material::lighting(&m, &s, &light, &position, &eyev, &normalv, false);
    assert_eq!(result, colorf(1.0, 1.0, 1.0));
}

#[test]
fn lighting_with_light_offset_45_degrees() {
    let m = Material::default();
    let s = Sphere::new(1);
    let position = pointf(0.0, 0.0, 0.0);
    let eyev = vectorf(0.0, 0.0, -1.0);
    let normalv = vectorf(0.0, 0.0, -1.0);
    let light = PointLight::new(pointf(0.0, 10.0, -10.0), colorf(1.0, 1.0, 1.0));
    let result = Material::lighting(&m, &s, &light, &position, &eyev, &normalv, false);
    assert_eq!(result, colorf(0.7364, 0.7364, 0.7364));
}

#[test]
fn lighting_with_eye_in_reflection_path() {
    let m = Material::default();
    let s = Sphere::new(1);
    let position = pointf(0.0, 0.0, 0.0);
    let eyev = vectorf(0.0, -SQRT_2 / 2.0, -SQRT_2 / 2.0);
    let normalv = vectorf(0.0, 0.0, -1.0);
    let light = PointLight::new(pointf(0.0, 10.0, -10.0), colorf(1.0, 1.0, 1.0));
    let result = Material::lighting(&m, &s, &light, &position, &eyev, &normalv, false);
    assert_eq!(result, colorf(1.6364, 1.6364, 1.6364));
}

#[test]
fn lighting_with_light_behind_surface() {
    let m = Material::default();
    let s = Sphere::new(1);
    let position = pointf(0.0, 0.0, 0.0);
    let eyev = vectorf(0.0, 0.0, -1.0);
    let normalv = vectorf(0.0, 0.0, -1.0);
    let light = PointLight::new(pointf(0.0, 0.0, 10.0), colorf(1.0, 1.0, 1.0));
    let result = Material::lighting(&m, &s, &light, &position, &eyev, &normalv, false);
    assert_eq!(result, colorf(0.1, 0.1, 0.1));
}

#[test]
fn lighting_with_surface_shadow() {
    let m = Material::default();
    let s = Sphere::new(1);
    let position = pointf(0.0, 0.0, 0.0);
    let eyev = vectorf(0.0, 0.0, -1.0);
    let normalv = vectorf(0.0, 0.0, -1.0);
    let light = PointLight::new(pointf(0.0, 0.0, -10.0), Color::white());
    let result = Material::lighting(&m, &s, &light, &position, &eyev, &normalv, true);
    assert_eq!(result, colorf(0.1, 0.1, 0.1));
}

#[test]
fn pattern_test() {
    let mut m = Material::default();
    m.ambient = fx(1.0);
    m.diffuse = fx(0.0);
    m.specular = fx(0.0);
    m.set_pattern(StripePattern::new(Color::white(), Color::black()));
    let s = Sphere::new(1);
    let eyev = vectorf(0.0, 0.0, -1.0);
    let normalv = vectorf(0.0, 0.0, -1.0);
    let light = PointLight::new(pointf(0.0, 0.0, -10.0), Color::white());
    let c1 = Material::lighting(&m, &s, &light, &pointf(0.9, 0.0, 0.0), &eyev, &normalv, false);
    let c2 = Material::lighting(&m, &s, &light, &pointf(1.1, 0.0, 0.0), &eyev, &normalv, false);
    assert_eq!(c1, Color::white());
    assert_eq!(c2, Color::black());
}

#[test]
fn cast_ray_on_world() {
    let w = World::default();
    let r = rayf(0.0, 0.0, -5.0, 0.0, 0.0, 1.0);
    let xs = w.intersect(&r);
    assert_eq!(xs.len(), 4);
    assert_eq!(xs[0].t, fx(4.0));
    assert_eq!(xs[1].t, fx(4.5));
    assert_eq!(xs[2].t, fx(5.5));
    assert_eq!(xs[3].t, fx(6.0));
}

#[test]
fn shading_an_intersection() {
    let w = World::default();
    let r = rayf(0.0, 0.0, -5.0, 0.0, 0.0, 1.0);
    let i = Intersection::new(fx(4.0), 1, None, None);
    let comps = i.prepare_computations(&r, &Vec::new(), &w);
    let c = w.shade_hit(&comps, 0);
    assert_eq!(c, colorf(0.38066, 0.47583, 0.2855));
}

#[test]
fn shading_an_intersection_from_inside() {
    let mut w = World::default();
    w.light = PointLight::new(pointf(0.0, 0.25, 0.0), colorf(1.0, 1.0, 1.0));
    let r = rayf(0.0, 0.0, 0.0, 0.0, 0.0, 1.0);
    let i = Intersection::new(fx(0.5), 2, None, None);
    let comps = i.prepare_computations(&r, &Vec::new(), &w);
    let c = w.shade_hit(&comps, 0);
    assert_eq!(c, colorf(0.90498, 0.90498, 0.90498));
}

#[test]
fn ray_miss() {
    let w = World::default();
    let r = rayf(0.0, 0.0, -5.0, 0.0, 1.0, 0.0);
    assert_eq!(w.color_at(&r, 0), Color::black());
}

#[test]
fn ray_hit() {
    let w = World::default();
    let r = rayf(0.0, 0.0, -5.0, 0.0, 0.0, 1.0);
    assert_eq!(w.color_at(&r, 0), colorf(0.38066, 0.47583, 0.2855));
}

#[test]
fn test_shading() {
    let w = World::default();
    assert_eq!(w.is_shadowed(&pointf(-2.0, 2.0, -2.0)), false);
    let w = World::default();
    assert_eq!(w.is_shadowed(&pointf(10.0, -10.0, 10.0)), true);
    let w = World::default();
    assert_eq!(w.is_shadowed(&pointf(-20.0, 20.0, -20.0)), false);
}

fn default_style_world() -> World {
    let mut world = World::new(PointLight::new(pointf(-10.0, 10.0, -10.0), Color::white()));
    let mut s1 = Sphere::new(1);
    let mut mat1 = Material::default();
    mat1.set_color(colorf(0.8, 1.0, 0.6));
    mat1.diffuse = fx(0.7);
    mat1.specular = fx(0.2);
    s1.set_material(mat1);
    let mut s2 = Sphere::new(2);
    let mut mat2 = Material::default();
    mat2.ambient = fx(1.0);
    s2.set_material(mat2);
    s2.set_transformation(Matrix::scaling(fx(0.5), fx(0.5), fx(0.5)));
    world.add_shape(s1);
    world.add_shape(s2);
    world
}

#[test]
fn reflect_on_non_reflect() {
    let world = default_style_world();
    let r = rayf(0.0, 0.0, 0.0, 0.0, 0.0, 1.0);
    let i = Intersection::new(fx(1.0), 2, None, None);
    let comps = i.prepare_computations(&r, &Vec::new(), &world);
    let color = world.reflected_color(&comps, 3);
    assert_eq!(color, Color::black());
}

#[test]
fn reflected_color_for_a_reflective_material() {
    let mut world = default_style_world();
    let mut plane = Plane::new(3);
    let mut mat3 = Material::default();
    mat3.reflective = fx(0.5);
    plane.set_material(mat3);
    plane.set_transformation(Matrix::translation(fx(0.0), fx(-1.0), fx(0.0)));
    world.add_shape(plane);

    let r = rayf(0.0, 0.0, -3.0, 0.0, -SQRT_2 / 2.0, SQRT_2 / 2.0);
    let i = Intersection::new(fx(SQRT_2), 3, None, None);
    let comps = i.prepare_computations(&r, &Vec::new(), &world);
    let color = world.reflected_color(&comps, 3);
    assert_eq!(color, colorf(0.19032, 0.2379, 0.14274));
}

#[test]
fn shade_hit_with_reflective_material() {
    let mut world = default_style_world();
    let mut plane = Plane::new(3);
    let mut mat3 = Material::default();
    mat3.reflective = fx(0.5);
    plane.set_material(mat3);
    plane.set_transformation(Matrix::translation(fx(0.0), fx(-1.0), fx(0.0)));
    world.add_shape(plane);

    let r = rayf(0.0, 0.0, -3.0, 0.0, -SQRT_2 / 2.0, SQRT_2 / 2.0);
    let i = Intersection::new(fx(SQRT_2), 3, None, None);
    let comps = i.prepare_computations(&r, &Vec::new(), &world);
    let color = world.shade_hit(&comps, 1);
    assert_eq!(color, colorf(0.87677, 0.92436, 0.82918));
}

#[test]
fn color_at_with_mutually_reflective_surfaces() {
    let mut world = World::new(PointLight::new(pointf(0.0, 0.0, 0.0), Color::white()));
    let mut lower = Plane::new(1);
    let mut mat1 = Material::default();
    mat1.reflective = fx(1.0);
    lower.set_material(mat1);
    lower.set_transformation(Matrix::translation(fx(0.0), fx(-1.0), fx(0.0)));
    world.add_shape(lower);

    let mut higher = Plane::new(2);
    let mut mat2 = Material::default();
    mat2.reflective = fx(1.0);
    higher.set_material(mat2);
    higher.set_transformation(Matrix::translation(fx(0.0), fx(1.0), fx(0.0)));
    world.add_shape(higher);

    let r = rayf(0.0, 0.0, 0.0, 0.0, 1.0, 0.0);
    let _c = world.color_at(&r, 0);
}

#[test]
fn color_at_max_recursion() {
    let mut world = World::default();
    let mut plane = Plane::new(3);
    let mut mat3 = Material::default();
    mat3.reflective = fx(0.5);
    plane.set_material(mat3);
    plane.set_transformation(Matrix::translation(fx(0.0), fx(-1.0), fx(0.0)));
    world.add_shape(plane);

    let r = rayf(0.0, 0.0, -3.0, 0.0, -SQRT_2 / 2.0, SQRT_2 / 2.0);
    let i = Intersection::new(fx(SQRT_2), 3, None, None);
    let comps = i.prepare_computations(&r, &Vec::new(), &world);
    let color = world.reflected_color(&comps, 0);
    assert_eq!(color, Color::black());
}

#[test]
fn zero_bounces_always_black_for_any_material() {
    let mut world = World::default();
    let mut plane = Plane::new(3);
    let mut mat3 = Material::default();
    mat3.reflective = fx(1.0);
    mat3.transparency = fx(1.0);
    mat3.refractive_index = fx(2.5);
    plane.set_material(mat3);
    plane.set_transformation(Matrix::translation(fx(0.0), fx(-1.0), fx(0.0)));
    world.add_shape(plane);

    let r = rayf(0.0, 0.0, -3.0, 0.0, -SQRT_2 / 2.0, SQRT_2 / 2.0);
    let i = Intersection::new(fx(SQRT_2), 3, None, None);
    let comps = i.prepare_computations(&r, &Vec::new(), &world);
    assert_eq!(world.reflected_color(&comps, 0), Color::black());
    assert_eq!(world.refracted_color(&comps, 0), Color::black());
}

#[test]
fn transluscence_1() {
    let mut a = Sphere::glas(1, fx(1.5));
    a.set_transformation(Matrix::scaling(fx(2.0), fx(2.0), fx(2.0)));
    let mut b = Sphere::glas(2, fx(2.0));
    b.set_transformation(Matrix::translation(fx(0.0), fx(0.0), fx(-0.25)));
    let mut c = Sphere::glas(3, fx(2.5));
    c.set_transformation(Matrix::translation(fx(0.0), fx(0.0), fx(0.25)));

    let mut world = World::new(PointLight::new(pointf(0.0, 0.0, 0.0), colorf(1.0, 1.0, 1.0)));
    world.add_shape(a);
    world.add_shape(b);
    world.add_shape(c);

    let r = Ray::from_vec4(pointf(0.0, 0.0, -4.0), vectorf(0.0, 0.0, 1.0));
    let xs = vec![
        Intersection::new(fx(2.0), 1, None, None),
        Intersection::new(fx(2.75), 2, None, None),
        Intersection::new(fx(3.25), 3, None, None),
        Intersection::new(fx(4.75), 2, None, None),
        Intersection::new(fx(5.25), 3, None, None),
        Intersection::new(fx(6.0), 1, None, None),
    ];
    let expected = [
        [1.0, 1.5],
        [1.5, 2.0],
        [2.0, 2.5],
        [2.5, 2.5],
        [2.5, 1.5],
        [1.5, 1.0],
    ];
    for (index, i) in xs.iter().enumerate() {
        let comps = i.prepare_computations(&r, &xs, &world);
        assert_eq!(comps.n1, fx(expected[index][0]), "n1 off at boundary {}", index);
        assert_eq!(comps.n2, fx(expected[index][1]), "n2 off at boundary {}", index);
    }
}

#[test]
fn transluscence_2() {
    let mut a = Sphere::glas(1, fx(1.5));
    a.set_transformation(Matrix::translation(fx(0.0), fx(0.0), fx(1.0)));
    let mut world = World::new(PointLight::new(pointf(0.0, 0.0, 0.0), colorf(1.0, 1.0, 1.0)));
    world.add_shape(a);

    let r = Ray::from_vec4(pointf(0.0, 0.0, -5.0), vectorf(0.0, 0.0, 1.0));
    let i = Intersection::new(fx(5.0), 1, None, None);
    let xs = world.intersect(&r);
    let comps = i.prepare_computations(&r, &xs, &world);
    assert!(comps.under_point.z.raw > fx(0.0001).raw / 2);
    assert!(comps.point.z.raw < comps.under_point.z.raw);
}

#[test]
fn transluscence_3() {
    let w = World::default();
    let r = rayf(0.0, 0.0, -5.0, 0.0, 0.0, 1.0);
    let xs = vec![
        Intersection::new(fx(4.0), 1, None, None),
        Intersection::new(fx(6.0), 1, None, None),
    ];
    let comps = xs[0].prepare_computations(&r, &xs, &w);
    let c = w.refracted_color(&comps, 5);
    assert_eq!(c, Color::black());
}

#[test]
fn transluscence_5() {
    let mut w = World::new(PointLight::new(pointf(-10.0, 10.0, -10.0), Color::white()));
    let mut s1 = Sphere::new(1);
    let mut mat1 = Material::default();
    mat1.set_color(colorf(0.8, 1.0, 0.6));
    mat1.diffuse = fx(0.7);
    mat1.specular = fx(0.2);
    mat1.transparency = fx(1.0);
    mat1.refractive_index = fx(1.5);
    s1.set_material(mat1);
    let mut s2 = Sphere::new(2);
    s2.set_material(Material::default());
    s2.set_transformation(Matrix::scaling(fx(0.5), fx(0.5), fx(0.5)));
    w.add_shape(s1);
    w.add_shape(s2);

    let r = rayf(0.0, 0.0, SQRT_2 / 2.0, 0.0, 1.0, 0.0);
    let xs = vec![
        Intersection::new(fx(-SQRT_2 / 2.0), 1, None, None),
        Intersection::new(fx(SQRT_2 / 2.0), 1, None, None),
    ];
    let comps = xs[1].prepare_computations(&r, &xs, &w);
    let c = w.refracted_color(&comps, 5);
    assert_eq!(c, Color::black());
}

#[test]
fn transluscence_6() {
    let mut w = World::new(PointLight::new(pointf(-10.0, 10.0, -10.0), Color::white()));
    let mut s1 = Sphere::new(1);
    let mut mat1 = Material::default();
    mat1.set_color(colorf(0.8, 1.0, 0.6));
    mat1.diffuse = fx(0.7);
    mat1.specular = fx(0.2);
    mat1.ambient = fx(1.0);
    mat1.set_pattern(TestPattern::new());
    s1.set_material(mat1);
    let mut s2 = Sphere::new(2);
    let mut mat2 = Material::default();
    mat2.transparency = fx(1.0);
    mat2.refractive_index = fx(1.5);
    s2.set_material(mat2);
    s2.set_transformation(Matrix::scaling(fx(0.5), fx(0.5), fx(0.5)));
    w.add_shape(s1);
    w.add_shape(s2);

    let r = rayf(0.0, 0.0, 0.1, 0.0, 1.0, 0.0);
    let xs = vec![
        Intersection::new(fx(-0.9899), 1, None, None),
        Intersection::new(fx(-0.4899), 2, None, None),
        Intersection::new(fx(0.4899), 2, None, None),
        Intersection::new(fx(0.9899), 1, None, None),
    ];
    let comps = xs[2].prepare_computations(&r, &xs, &w);
    let c = w.refracted_color(&comps, 5);
    assert_eq!(c, colorf(0.0, 0.9988, 0.04725));
}

#[test]
fn transluscence_7() {
    let mut w = World::default();
    let mut floor = Plane::new(3);
    floor.set_transformation(Matrix::translation(fx(0.0), fx(-1.0), fx(0.0)));
    let mut mat = Material::default();
    mat.transparency = fx(0.5);
    mat.refractive_index = fx(1.5);
    floor.set_material(mat);
    w.add_shape(floor);

    let mut ball = Sphere::new(4);
    let mut mat = Material::default();
    mat.color = colorf(1.0, 0.0, 0.0);
    mat.ambient = fx(0.5);
    ball.set_material(mat);
    ball.set_transformation(Matrix::translation(fx(0.0), fx(-3.5), fx(-0.5)));
    w.add_shape(ball);

    let r = rayf(0.0, 0.0, -3.0, 0.0, -SQRT_2 / 2.0, SQRT_2 / 2.0);
    let xs = vec![Intersection::new(fx(SQRT_2), 3, None, None)];
    let comps = xs[0].prepare_computations(&r, &xs, &w);
    let color = w.shade_hit(&comps, 5);
    assert_eq!(color, colorf(0.93642, 0.68642, 0.68642));
}

#[test]
fn fresnel1() {
    let shape = Sphere::glas(1, fx(1.5));
    let r = rayf(0.0, 0.0, SQRT_2 / 2.0, 0.0, 1.0, 0.0);
    let mut w = World::new(PointLight::new(pointf(-10.0, 10.0, -10.0), Color::white()));
    w.add_shape(shape);
    let xs = vec![
        Intersection::new(fx(-SQRT_2 / 2.0), 1, None, None),
        Intersection::new(fx(SQRT_2 / 2.0), 1, None, None),
    ];
    let comps = xs[1].prepare_computations(&r, &xs, &w);
    let reflectance = comps.schlick();
    assert_eq!(reflectance.raw, fx(1.0).raw);
}

#[test]
fn fresnel2() {
    let shape = Sphere::glas(1, fx(1.5));
    let r = rayf(0.0, 0.0, 0.0, 0.0, 1.0, 0.0);
    let mut w = World::new(PointLight::new(pointf(-10.0, 10.0, -10.0), Color::white()));
    w.add_shape(shape);
    let xs = vec![
        Intersection::new(fx(-1.0), 1, None, None),
        Intersection::new(fx(1.0), 1, None, None),
    ];
    let comps = xs[1].prepare_computations(&r, &xs, &w);
    let reflectance = comps.schlick();
    assert!(reflectance.approx_eq(&fx(0.04)));
}

#[test]
fn fresnel3() {
    let shape = Sphere::glas(1, fx(1.5));
    let r = rayf(0.0, 0.99, -2.0, 0.0, 0.0, 1.0);
    let mut w = World::new(PointLight::new(pointf(-10.0, 10.0, -10.0), Color::white()));
    w.add_shape(shape);
    let xs = vec![Intersection::new(fx(1.8589), 1, None, None)];
    let comps = xs[0].prepare_computations(&r, &xs, &w);
    let reflectance = comps.schlick();
    assert!(reflectance.approx_eq(&fx(0.48873)));
}

#[test]
fn fresnel4() {
    let mut w = World::default();
    let mut floor = Plane::new(3);
    floor.set_transformation(Matrix::translation(fx(0.0), fx(-1.0), fx(0.0)));
    let mut mat = Material::default();
    mat.transparency = fx(0.5);
    mat.refractive_index = fx(1.5);
    mat.reflective = fx(0.5);
    floor.set_material(mat);
    w.add_shape(floor);

    let mut ball = Sphere::new(4);
    let mut mat = Material::default();
    mat.color = colorf(1.0, 0.0, 0.0);
    mat.ambient = fx(0.5);
    ball.set_material(mat);
    ball.set_transformation(Matrix::translation(fx(0.0), fx(-3.5), fx(-0.5)));
    w.add_shape(ball);

    let r = rayf(0.0, 0.0, -3.0, 0.0, -SQRT_2 / 2.0, SQRT_2 / 2.0);
    let xs = vec![Intersection::new(fx(SQRT_2), 3, None, None)];
    let comps = xs[0].prepare_computations(&r, &xs, &w);
    let color = w.shade_hit(&comps, 5);
    assert!(color.r.approx_eq(&fx(0.93391)), "red channel off");
    assert!(color.g.approx_eq(&fx(0.69643)), "green channel off");
    assert!(color.b.approx_eq(&fx(0.69243)), "blue channel off");
}

#[test]
fn smooth_tri1() {
    let tri = SmoothTriangle::new(
        3,
        pointf(0.0, 1.0, 0.0),
        pointf(-1.0, 0.0, 0.0),
        pointf(1.0, 0.0, 0.0),
        vectorf(0.0, 1.0, 0.0),
        vectorf(-1.0, 1.0, 0.0),
        vectorf(1.0, 0.0, 0.0),
    );
    let mut w = World::default();
    w.add_shape(tri);
    let i = Intersection::new(fx(3.5), 3, Some(fx(0.2)), Some(fx(0.4)));
    assert_eq!(i.u.unwrap(), fx(0.2));
    assert_eq!(i.v.unwrap(), fx(0.4));
}

#[test]
fn smooth_tri4() {
    let tri = SmoothTriangle::new(
        1,
        pointf(0.0, 1.0, 0.0),
        pointf(-1.0, 0.0, 0.0),
        pointf(1.0, 0.0, 0.0),
        vectorf(0.0, 1.0, 0.0),
        vectorf(-1.0, 0.0, 0.0),
        vectorf(1.0, 0.0, 0.0),
    );
    let mut w = World::new(PointLight::new(pointf(5.0, 5.0, 5.0), Color::white()));
    w.add_shape(tri);
    let i = Intersection::new(fx(1.0), 1, Some(fx(0.45)), Some(fx(0.25)));
    let r = rayf(-0.2, 0.3, -2.0, 0.0, 0.0, 1.0);
    let xs = vec![i];
    let comps = i.prepare_computations(&r, &xs, &w);
    assert_eq!(comps.normalv, vectorf(-0.5547, 0.83205, 0.0));
}
