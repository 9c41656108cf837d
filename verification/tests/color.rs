use raytracer::color::Color;

fn fx(v: f64) -> i64 {
    (v * 65536.0).round() as i64
}

const TOL: i64 = 2;

#[test]
fn color() {
    let c = Color::new(fx(-0.5), fx(0.4), fx(1.7));
    assert_eq!(c.red, fx(-0.5));
    assert_eq!(c.green, fx(0.4));
    assert_eq!(c.blue, fx(1.7));
}

#[test]
fn add_colors() {
    let c1 = Color::new(fx(0.9), fx(0.6), fx(0.75));
    let c2 = Color::new(fx(0.7), fx(0.1), fx(0.25));
    assert!(c1.add(c2).approx_equals(&Color::new(fx(1.6), fx(0.7), fx(1.0)), TOL));
}

#[test]
fn subtract_colors() {
    let c1 = Color::new(fx(0.9), fx(0.6), fx(0.75));
    let c2 = Color::new(fx(0.7), fx(0.1), fx(0.25));
    assert!(c1.sub(c2).approx_equals(&Color::new(fx(0.2), fx(0.5), fx(0.5)), TOL));
}

#[test]
fn multiply_colors() {
    let c1 = Color::new(fx(1.0), fx(0.2), fx(0.4));
    let c2 = Color::new(fx(0.9), fx(1.0), fx(0.1));
    assert!(c1.mul(c2).approx_equals(&Color::new(fx(0.9), fx(0.2), fx(0.04)), TOL));
}
