use raytracer::color::Color;
use raytracer::math::Fx;
use raytracer::patterns::{Checker, Gradient, Ring, StripePattern};
use raytracer::vec4::Vec4;

fn fx(v: f64) -> Fx {
    Fx::new((v * 100_000_000.0).round() as i64)
}

fn pointf(x: f64, y: f64, z: f64) -> Vec4 {
    Vec4::point(fx(x), fx(y), fx(z))
}

fn colorf(r: f64, g: f64, b: f64) -> Color {
    Color::new(fx(r), fx(g), fx(b))
}

#[test]
fn stripe_pattern() {
    let pat = StripePattern::new(Color::white(), Color::black());
    assert_eq!(pat.color_at(&pointf(0.0, 0.0, 0.0)), Color::white());
    assert_eq!(pat.color_at(&pointf(0.0, 0.0, 1.0)), Color::white());
    assert_eq!(pat.color_at(&pointf(0.0, 0.0, 2.0)), Color::white());
    assert_eq!(pat.color_at(&pointf(1.0, 0.0, 0.0)), Color::black());
    assert_eq!(pat.color_at(&pointf(-0.1, 0.0, 0.0)), Color::black());
    assert_eq!(pat.color_at(&pointf(-1.0, 0.0, 0.0)), Color::black());
}

#[test]
fn checker() {
    let p = Checker::new(Color::white(), Color::black());
    assert_eq!(p.color_at(&pointf(0.0, 0.0, 0.0)), Color::white());
    assert_eq!(p.color_at(&pointf(0.99, 0.0, 0.0)), Color::white());
    assert_eq!(p.color_at(&pointf(1.01, 0.0, 0.0)), Color::black());
}

#[test]
fn gradient_grad() {
    let p = Gradient::new(Color::white(), Color::black());
    assert_eq!(p.color_at(&pointf(0.0, 0.0, 0.0)), Color::white());
    assert_eq!(p.color_at(&pointf(0.25, 0.0, 0.0)), colorf(0.75, 0.75, 0.75));
}

#[test]
fn ring_grad() {
    let p = Ring::new(Color::white(), Color::black());
    assert_eq!(p.color_at(&pointf(0.0, 0.0, 0.0)), Color::white());
    assert_eq!(p.color_at(&pointf(1.0, 0.0, 0.0)), Color::black());
    assert_eq!(p.color_at(&pointf(0.0, 0.0, 1.0)), Color::black());
}

