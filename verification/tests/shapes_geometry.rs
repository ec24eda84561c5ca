use raytracer::bounds::Bounds;
use raytracer::math::{ApproxEq, Fx};
use raytracer::matrix::Matrix;
use raytracer::ray::Ray;
use raytracer::shapes::cube::Cube;
use raytracer::shapes::group::Group;
use raytracer::shapes::plane::Plane;
use raytracer::shapes::smooth_triangle::SmoothTriangle;
use raytracer::shapes::sphere::Sphere;
use raytracer::shapes::triangle::Triangle;
use raytracer::shapes::Shape;
use raytracer::vec4::Vec4;

fn fx(v: f64) -> Fx {
    Fx::new((v * 100_000_000.0).round() as i64)
}

fn pointf(x: f64, y: f64, z: f64) -> Vec4 {
    Vec4::point(fx(x), fx(y), fx(z))
}

fn vectorf(x: f64, y: f64, z: f64) -> Vec4 {
    Vec4::vector(fx(x), fx(y), fx(z))
}

fn rayf(x: f64, y: f64, z: f64, dx: f64, dy: f64, dz: f64) -> Ray {
    Ray::new(fx(x), fx(y), fx(z), fx(dx), fx(dy), fx(dz))
}

fn rotation_z(r: f64) -> Matrix {
    Matrix::from_array([
        Vec4::new(fx(r.cos()), fx(-r.sin()), fx(0.0), fx(0.0)),
        Vec4::new(fx(r.sin()), fx(r.cos()), fx(0.0), fx(0.0)),
        Vec4::new(fx(0.0), fx(0.0), fx(1.0), fx(0.0)),
        Vec4::new(fx(0.0), fx(0.0), fx(0.0), fx(1.0)),
    ])
}

#[test]
fn sphere_init() {
    let s1 = Sphere::new(1);
    let s2 = Sphere::new(2);
    println!("{:?} {:?}", s1, s2);
}

#[test]
fn intersetct() {
    let s1 = Sphere::new(1);
    let ray = rayf(0.0, 0.0, -5.0, 0.0, 0.0, 1.0);
    let xs = s1.intersect(&ray);
    assert!(xs.len() == 2);
    assert!(xs[0].object == s1.id() && xs[1].object == s1.id());
}

#[test]
fn intersect_with_trans() {
    let ray = rayf(0.0, 0.0, -5.0, 0.0, 0.0, 1.0);
    let mut s1 = Sphere::new(1);
    s1.set_transformation(Matrix::scaling(fx(2.0), fx(2.0), fx(2.0)));
    let xs = s1.intersect(&ray);
    assert!(xs.len() == 2);
    assert!(xs[0].t == fx(3.0) && xs[1].t == fx(7.0));

    let ray = rayf(0.0, 0.0, -5.0, 0.0, 0.0, 1.0);
    let mut s1 = Sphere::new(1);
    s1.set_transformation(Matrix::translation(fx(5.0), fx(0.0), fx(0.0)));
    let xs = s1.intersect(&ray);
    assert!(xs.len() == 0);
}

#[test]
fn normal_at() {
    let s = Sphere::new(1);
    let k = 3.0f64.sqrt() / 3.0;
    let at = pointf(k, k, k);
    let i = raytracer::intersection::Intersection::new(fx(0.0), 1, None, None);
    let n = s.normal_at(at, &i);
    assert_eq!(n, vectorf(k, k, k));
}

#[test]
fn normal_is_unit_length() {
    let s = Sphere::new(1);
    let k = 3.0f64.sqrt() / 3.0;
    let i = raytracer::intersection::Intersection::new(fx(0.0), 1, None, None);
    let n = s.normal_at(pointf(k, k, k), &i);
    assert!(n.magnitude().approx_eq(&fx(1.0)));
    let n = s.normal_at(pointf(0.0, 0.6, 0.8), &i);
    assert!(n.magnitude().approx_eq(&fx(1.0)));
}

#[test]
fn normal_trans() {
    let mut s = Sphere::new(1);
    let i = raytracer::intersection::Intersection::new(fx(0.0), 1, None, None);
    s.set_transformation(Matrix::translation(fx(0.0), fx(1.0), fx(0.0)));
    let n = s.normal_at(pointf(0.0, 1.70711, -0.70711), &i);
    assert_eq!(n, vectorf(0.0, 0.70711, -0.70711));

    let mut s = Sphere::new(1);
    let pi = std::f64::consts::PI;
    s.set_transformation(
        Matrix::scaling(fx(1.0), fx(0.5), fx(1.0)).mul(&rotation_z(pi / 5.0)),
    );
    let sq2 = 2.0f64.sqrt() / 2.0;
    let n = s.normal_at(pointf(0.0, sq2, -sq2), &i);
    assert_eq!(n, vectorf(0.0, 0.97014, -0.24254));
}

#[test]
fn intersect_with_plane() {
    let p = Plane::new(1);
    let r = Ray::from_vec4(pointf(0.0, 10.0, 0.0), vectorf(0.0, 0.0, 1.0));
    let xs = p.local_intersect(&r);
    assert_eq!(xs.len(), 0);
    let r = Ray::from_vec4(pointf(0.0, 0.0, 0.0), vectorf(0.0, 0.0, 1.0));
    let xs = p.local_intersect(&r);
    assert_eq!(xs.len(), 0);

    let p = Plane::new(1);
    let r = Ray::from_vec4(pointf(0.0, 1.0, 0.0), vectorf(0.0, -1.0, 0.0));
    let xs = p.local_intersect(&r);
    assert_eq!(xs.len(), 1);
    assert_eq!(xs[0].t, fx(1.0));

    let p = Plane::new(1);
    let r = Ray::from_vec4(pointf(0.0, -1.0, 0.0), vectorf(0.0, 1.0, 0.0));
    let xs = p.local_intersect(&r);
    assert_eq!(xs.len(), 1);
    assert_eq!(xs[0].t, fx(1.0));
}

#[test]
fn plane_parallel_ray_misses_from_any_origin() {
    let p = Plane::new(7);
    for oy in [-3.5f64, 0.0, 2.25, 10000.0] {
        let r = Ray::from_vec4(pointf(1.0, oy, -2.0), vectorf(1.0, 0.00005, 0.3));
        assert_eq!(p.local_intersect(&r).len(), 0);
    }
}

#[test]
fn test_ray_cube_intersections() {
    let cases: [(f64, f64, f64, f64, f64, f64, f64, f64); 7] = [
        (5.0, 0.5, 0.0, -1.0, 0.0, 0.0, 4.0, 6.0),
        (-5.0, 0.5, 0.0, 1.0, 0.0, 0.0, 4.0, 6.0),
        (0.5, 5.0, 0.0, 0.0, -1.0, 0.0, 4.0, 6.0),
        (0.5, -5.0, 0.0, 0.0, 1.0, 0.0, 4.0, 6.0),
        (0.5, 0.0, 5.0, 0.0, 0.0, -1.0, 4.0, 6.0),
        (0.5, 0.0, -5.0, 0.0, 0.0, 1.0, 4.0, 6.0),
        (0.0, 0.5, 0.0, 0.0, 0.0, 1.0, -1.0, 1.0),
    ];
    for (i, case) in cases.iter().enumerate() {
        let cube = Cube::new(1);
        let ray = rayf(case.0, case.1, case.2, case.3, case.4, case.5);
        let xs = cube.intersect(&ray);
        assert_eq!(xs.len(), 2, "case {} expected 2 intersections", i);
        assert!(xs[0].t.approx_eq(&fx(case.6)), "case {} entry off", i);
        assert!(xs[1].t.approx_eq(&fx(case.7)), "case {} exit off", i);
    }
}

#[test]
fn test_ray_misses_cube() {
    let cases: [(f64, f64, f64, f64, f64, f64); 6] = [
        (-2.0, 0.0, 0.0, 0.2673, 0.5345, 0.8018),
        (0.0, -2.0, 0.0, 0.8018, 0.2673, 0.5345),
        (0.0, 0.0, -2.0, 0.5345, 0.8018, 0.2673),
        (2.0, 0.0, 2.0, 0.0, 0.0, -1.0),
        (0.0, 2.0, 2.0, 0.0, -1.0, 0.0),
        (2.0, 2.0, 0.0, -1.0, 0.0, 0.0),
    ];
    for (i, case) in cases.iter().enumerate() {
        let cube = Cube::new(1);
        let ray = rayf(case.0, case.1, case.2, case.3, case.4, case.5);
        let xs = cube.intersect(&ray);
        assert_eq!(xs.len(), 0, "miss case {} reported hits", i);
    }
}

#[test]
fn test_cube_normals() {
    let cases: [(f64, f64, f64, f64, f64, f64); 8] = [
        (1.0, 0.5, -0.8, 1.0, 0.0, 0.0),
        (-1.0, -0.2, 0.9, -1.0, 0.0, 0.0),
        (-0.4, 1.0, -0.1, 0.0, 1.0, 0.0),
        (0.3, -1.0, -0.7, 0.0, -1.0, 0.0),
        (-0.6, 0.3, 1.0, 0.0, 0.0, 1.0),
        (0.4, 0.4, -1.0, 0.0, 0.0, -1.0),
        (1.0, 1.0, 1.0, 1.0, 0.0, 0.0),
        (-1.0, -1.0, -1.0, -1.0, 0.0, 0.0),
    ];
    let cube = Cube::new(1);
    let dummy = raytracer::intersection::Intersection::new(fx(0.0), 1, None, None);
    for (i, case) in cases.iter().enumerate() {
        let normal = cube.local_normal_at(pointf(case.0, case.1, case.2), &dummy);
        assert_eq!(
            normal,
            vectorf(case.3, case.4, case.5),
            "normal case {} off",
            i
        );
    }
}

#[test]
fn cons_triangle() {
    let p1 = pointf(0.0, 1.0, 0.0);
    let p2 = pointf(-1.0, 0.0, 0.0);
    let p3 = pointf(1.0, 0.0, 0.0);
    let t = Triangle::new(1, p1, p2, p3);
    let dummy = raytracer::intersection::Intersection::new(fx(0.0), 1, None, None);
    match &t {
        Shape::Triangle(tri) => {
            assert_eq!(tri.e1, vectorf(-1.0, -1.0, 0.0));
            assert_eq!(tri.e2, vectorf(1.0, -1.0, 0.0));
            assert_eq!(tri.normal, vectorf(0.0, 0.0, -1.0));
        }
        _ => panic!("expected a triangle"),
    }
    let n1 = t.local_normal_at(pointf(-0.5, 0.75, 0.0), &dummy);
    assert_eq!(n1, vectorf(0.0, 0.0, -1.0));
    let n2 = t.local_normal_at(pointf(0.5, 0.25, 0.0), &dummy);
    assert_eq!(n2, vectorf(0.0, 0.0, -1.0));
}

#[test]
fn intersect_paralell_ray() {
    let p1 = pointf(0.0, 1.0, 0.0);
    let p2 = pointf(-1.0, 0.0, 0.0);
    let p3 = pointf(1.0, 0.0, 0.0);
    let t = Triangle::new(1, p1, p2, p3);

    let r = rayf(0.0, -1.0, -2.0, 0.0, 1.0, 0.0);
    assert!(t.local_intersect(&r).is_empty());
    let r = rayf(1.0, 1.0, -2.0, 0.0, 0.0, 1.0);
    assert!(t.local_intersect(&r).is_empty());
    let r = rayf(-1.0, 1.0, -2.0, 0.0, 0.0, 1.0);
    assert!(t.local_intersect(&r).is_empty());
    let r = rayf(0.0, -1.0, -2.0, 0.0, 0.0, 1.0);
    assert!(t.local_intersect(&r).is_empty());

    let r = rayf(0.0, 0.5, -2.0, 0.0, 0.0, 1.0);
    let xs = t.local_intersect(&r);
    assert_eq!(xs.len(), 1);
    assert_eq!(xs[0].t, fx(2.0));
}

#[test]
fn smooth_tri2() {
    let r = rayf(-0.2, 0.3, -2.0, 0.0, 0.0, 1.0);
    let tri = SmoothTriangle::new(
        1,
        pointf(0.0, 1.0, 0.0),
        pointf(-1.0, 0.0, 0.0),
        pointf(1.0, 0.0, 0.0),
        vectorf(0.0, 1.0, 0.0),
        vectorf(-1.0, 0.0, 0.0),
        vectorf(1.0, 0.0, 0.0),
    );
    let xs = tri.local_intersect(&r);
    assert!(xs[0].u.unwrap().approx_eq(&fx(0.45)));
    assert!(xs[0].v.unwrap().approx_eq(&fx(0.25)));
}

#[test]
fn smooth_tri3() {
    let tri = SmoothTriangle::new(
        1,
        pointf(0.0, 1.0, 0.0),
        pointf(-1.0, 0.0, 0.0),
        pointf(1.0, 0.0, 0.0),
        vectorf(0.0, 1.0, 0.0),
        vectorf(-1.0, 0.0, 0.0),
        vectorf(1.0, 0.0, 0.0),
    );
    let i = raytracer::intersection::Intersection::new(fx(1.0), 1, Some(fx(0.45)), Some(fx(0.25)));
    let n = tri.normal_at(pointf(0.0, 0.0, 0.0), &i);
    assert_eq!(n, vectorf(-0.5547, 0.83205, 0.0));
}

#[test]
fn add_to_group() {
    let mut g = Group::new(10);
    let s = Sphere::new(1);
    let id = s.id();
    g.add_child(s);
    match &g {
        Shape::Group(gr) => {
            assert_eq!(gr.children.is_empty(), false);
            assert_eq!(gr.children[0].id(), id);
        }
        _ => panic!("expected a group"),
    }
}

#[test]
fn intersect_empty() {
    let g = Group::new(10);
    let r = rayf(0.0, 0.0, 0.0, 0.0, 0.0, 1.0);
    let xs = g.intersect(&r);
    assert!(xs.is_empty());
}

#[test]
fn intersect_non_empty() {
    let mut g = Group::new(10);
    let s1 = Sphere::new(1);
    let id1 = s1.id();
    let mut s2 = Sphere::new(2);
    let id2 = s2.id();
    s2.set_transformation(Matrix::translation(fx(0.0), fx(0.0), fx(-3.0)));
    let mut s3 = Sphere::new(3);
    s3.set_transformation(Matrix::translation(fx(5.0), fx(0.0), fx(0.0)));

    g.add_child(s1);
    g.add_child(s2);
    g.add_child(s3);

    let r = rayf(0.0, 0.0, -5.0, 0.0, 0.0, 1.0);
    let w = raytracer::world::World {
        light: raytracer::light::PointLight::new(
            pointf(0.0, 0.0, 0.0),
            raytracer::color::Color::white(),
        ),
        shapes: vec![g],
    };
    let xs = w.intersect(&r);
    assert_eq!(xs.len(), 4);
    assert_eq!(xs[0].object, id2);
    assert_eq!(xs[1].object, id2);
    assert_eq!(xs[2].object, id1);
    assert_eq!(xs[3].object, id1);
}

#[test]
fn test_bounding_box_simple() {
    let mut g = Group::new(10);
    let s2 = Sphere::with_transformation(1, Matrix::scaling(fx(5.0), fx(1.0), fx(1.0)));
    g.add_child(s2);

    assert_eq!(
        g.bounds(),
        Bounds::new(pointf(-5.0, -1.0, -1.0), pointf(5.0, 1.0, 1.0))
    );

    let mut g2 = Group::new(11);
    g2.add_child(g);
    g2.set_transformation(Matrix::scaling(fx(5.0), fx(1.0), fx(1.0)));
    assert_eq!(
        g2.bounds(),
        Bounds::new(pointf(-25.0, -1.0, -1.0), pointf(25.0, 1.0, 1.0))
    );
}

#[test]
fn retransform_with_same_matrix_keeps_child_bounds() {
    let mut g = Group::new(10);
    let s = Sphere::with_transformation(1, Matrix::scaling(fx(5.0), fx(1.0), fx(1.0)));
    g.add_child(s);
    let before = g.bounds();
    let same = *g.transform();
    g.set_transformation(same);
    let after = g.bounds();
    assert_eq!(before, after);
    match &g {
        Shape::Group(gr) => {
            assert_eq!(
                *gr.children[0].transform(),
                Matrix::scaling(fx(5.0), fx(1.0), fx(1.0))
            );
        }
        _ => panic!("expected a group"),
    }
}
