use raytracer::tuple::Tuple;

fn fx(v: f64) -> i64 {
    (v * 65536.0).round() as i64
}

// A couple of scalar quantization steps, about 3e-5 in real units.
const TOL: i64 = 2;

#[test]
fn point_tuple() {
    let a = Tuple::new(fx(4.3), fx(-4.2), fx(3.1), fx(1.0));
    assert_eq!(a.x, fx(4.3));
    assert_eq!(a.y, fx(-4.2));
    assert_eq!(a.z, fx(3.1));
    assert_eq!(a.w, fx(1.0));
    assert!(a.is_point());
    assert!(!a.is_vector());
}

#[test]
fn vector_tuple() {
    let a = Tuple::new(fx(4.3), fx(-4.2), fx(3.1), 0);
    assert_eq!(a.x, fx(4.3));
    assert_eq!(a.y, fx(-4.2));
    assert_eq!(a.z, fx(3.1));
    assert_eq!(a.w, 0);
    assert!(!a.is_point());
    assert!(a.is_vector());
}

#[test]
fn add_tuples() {
    let a1 = Tuple::new(fx(3.0), fx(-2.0), fx(5.0), fx(1.0));
    let a2 = Tuple::new(fx(-2.0), fx(3.0), fx(1.0), 0);
    let sum = a1.add(a2);
    assert!(sum.approx_equals(&Tuple::new(fx(1.0), fx(1.0), fx(6.0), fx(1.0)), TOL));
}

#[test]
fn negate_tuple() {
    let a = Tuple::new(fx(1.0), fx(-2.0), fx(3.0), fx(-4.0));
    assert!(a.neg().approx_equals(&Tuple::new(fx(-1.0), fx(2.0), fx(-3.0), fx(4.0)), TOL));
}

#[test]
fn multiply_scalar() {
    let a = Tuple::new(fx(1.0), fx(-2.0), fx(3.0), fx(-4.0));
    assert!(a.mul(fx(3.5)).approx_equals(&Tuple::new(fx(3.5), fx(-7.0), fx(10.5), fx(-14.0)), TOL));
}

#[test]
fn multiply_fraction() {
    let a = Tuple::new(fx(1.0), fx(-2.0), fx(3.0), fx(-4.0));
    assert!(a.mul(fx(0.5)).approx_equals(&Tuple::new(fx(0.5), fx(-1.0), fx(1.5), fx(-2.0)), TOL));
}

#[test]
fn divide_scalar() {
    let a = Tuple::new(fx(1.0), fx(-2.0), fx(3.0), fx(-4.0));
    assert!(a.div(fx(2.0)).approx_equals(&Tuple::new(fx(0.5), fx(-1.0), fx(1.5), fx(-2.0)), TOL));
}

#[test]
fn point() {
    let p = Tuple::point(fx(4.0), fx(-4.0), fx(3.0));
    assert!(p.approx_equals(&Tuple::new(fx(4.0), fx(-4.0), fx(3.0), fx(1.0)), 0));
}

#[test]
fn vector() {
    let v = Tuple::vector(fx(4.0), fx(-4.0), fx(3.0));
    assert!(v.approx_equals(&Tuple::new(fx(4.0), fx(-4.0), fx(3.0), 0), 0));
}

#[test]
fn subtract_points() {
    let p1 = Tuple::point(fx(3.0), fx(2.0), fx(1.0));
    let p2 = Tuple::point(fx(5.0), fx(6.0), fx(7.0));
    assert!(p1.sub(p2).approx_equals(&Tuple::vector(fx(-2.0), fx(-4.0), fx(-6.0)), TOL));
}

#[test]
fn subtract_vector_from_point() {
    let p = Tuple::point(fx(3.0), fx(2.0), fx(1.0));
    let v = Tuple::vector(fx(5.0), fx(6.0), fx(7.0));
    assert!(p.sub(v).approx_equals(&Tuple::point(fx(-2.0), fx(-4.0), fx(-6.0)), TOL));
}

#[test]
fn subtract_vectors() {
    let v1 = Tuple::vector(fx(3.0), fx(2.0), fx(1.0));
    let v2 = Tuple::vector(fx(5.0), fx(6.0), fx(7.0));
    assert!(v1.sub(v2).approx_equals(&Tuple::vector(fx(-2.0), fx(-4.0), fx(-6.0)), TOL));
}

#[test]
fn subtract_vector_from_zero() {
    let zero = Tuple::vector(0, 0, 0);
    let v = Tuple::vector(fx(1.0), fx(-2.0), fx(3.0));
    assert!(zero.sub(v).approx_equals(&Tuple::vector(fx(-1.0), fx(2.0), fx(-3.0)), TOL));
}

#[test]
fn magnitude() {
    let v = Tuple::vector(fx(1.0), 0, 0);
    assert_eq!(v.magnitude(), fx(1.0));
    let v = Tuple::vector(0, fx(1.0), 0);
    assert_eq!(v.magnitude(), fx(1.0));
    let v = Tuple::vector(0, 0, fx(1.0));
    assert_eq!(v.magnitude(), fx(1.0));
    let v = Tuple::vector(fx(1.0), fx(2.0), fx(3.0));
    let expected = fx(14.0_f64.sqrt());
    assert!((v.magnitude() - expected).abs() <= TOL);
    let v = Tuple::vector(fx(1.0), fx(2.0), fx(3.0));
    let n = v.normalize();
    assert!((n.magnitude() - fx(1.0)).abs() <= 8);
}

#[test]
fn dot() {
    let a = Tuple::vector(fx(1.0), fx(2.0), fx(3.0));
    let b = Tuple::vector(fx(2.0), fx(3.0), fx(4.0));
    assert!((a.dot(&b) - fx(20.0)).abs() <= TOL);
}

#[test]
fn cross() {
    let a = Tuple::vector(fx(1.0), fx(2.0), fx(3.0));
    let b = Tuple::vector(fx(2.0), fx(3.0), fx(4.0));
    assert!(a.cross(&b).approx_equals(&Tuple::vector(fx(-1.0), fx(2.0), fx(-1.0)), TOL));
    assert!(b.cross(&a).approx_equals(&Tuple::vector(fx(1.0), fx(-2.0), fx(1.0)), TOL));
}

#[test]
fn reflect() {
    let v = Tuple::vector(fx(1.0), fx(-1.0), 0);
    let n = Tuple::vector(0, fx(1.0), 0);
    assert!(v.reflect(&n).approx_equals(&Tuple::vector(fx(1.0), fx(1.0), 0), TOL));

    let s = 2.0_f64.sqrt() / 2.0;
    let v = Tuple::vector(0, fx(-1.0), 0);
    let n = Tuple::vector(fx(s), fx(s), 0);
    assert!(v.reflect(&n).approx_equals(&Tuple::vector(fx(1.0), 0, 0), 8));
}
