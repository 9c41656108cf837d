use raytracer::matrix::Matrix;
use raytracer::tuple::Tuple;
use std::f64::consts::PI;

fn fx(v: f64) -> i64 {
    (v * 65536.0).round() as i64
}

fn pt(x: f64, y: f64, z: f64) -> Tuple {
    Tuple::point(fx(x), fx(y), fx(z))
}

fn vec3(x: f64, y: f64, z: f64) -> Tuple {
    Tuple::vector(fx(x), fx(y), fx(z))
}

fn rot_x(angle: f64) -> Matrix {
    Matrix::rotation_x(fx(angle.sin()), fx(angle.cos()))
}

fn rot_y(angle: f64) -> Matrix {
    Matrix::rotation_y(fx(angle.sin()), fx(angle.cos()))
}

fn rot_z(angle: f64) -> Matrix {
    Matrix::rotation_z(fx(angle.sin()), fx(angle.cos()))
}

const TOL: i64 = 16;

#[test]
fn translate() {
    let transform = Matrix::translation(fx(5.0), fx(-3.0), fx(2.0));
    let p = pt(-3.0, 4.0, 5.0);
    assert!(transform.mul_tuple(p).approx_equals(&pt(2.0, 1.0, 7.0), TOL));
    assert!(transform.inverse().mul_tuple(p).approx_equals(&pt(-8.0, 7.0, 3.0), TOL));
    let v = vec3(-3.0, 4.0, 5.0);
    assert!(transform.mul_tuple(v).approx_equals(&v, TOL));
}

#[test]
fn scaling() {
    let scaling = Matrix::scaling(fx(2.0), fx(3.0), fx(4.0));
    let p = pt(-4.0, 6.0, 8.0);
    let v = vec3(-4.0, 6.0, 8.0);
    assert!(scaling.mul_tuple(p).approx_equals(&pt(-8.0, 18.0, 32.0), TOL));
    assert!(scaling.mul_tuple(v).approx_equals(&vec3(-8.0, 18.0, 32.0), TOL));
    assert!(scaling.inverse().mul_tuple(v).approx_equals(&vec3(-2.0, 2.0, 2.0), TOL));
    assert!(
        Matrix::scaling(fx(-1.0), fx(1.0), fx(1.0))
            .mul_tuple(pt(2.0, 3.0, 4.0))
            .approx_equals(&pt(-2.0, 3.0, 4.0), TOL)
    );
}

#[test]
fn rotation() {
    let s = 2.0_f64.sqrt() / 2.0;
    let p = pt(0.0, 1.0, 0.0);
    let half_quarter = rot_x(PI / 4.0);
    let full_quarter = rot_x(PI / 2.0);
    assert!(half_quarter.mul_tuple(p).approx_equals(&pt(0.0, s, s), TOL));
    assert!(full_quarter.mul_tuple(p).approx_equals(&pt(0.0, 0.0, 1.0), TOL));
    assert!(half_quarter.inverse().mul_tuple(p).approx_equals(&pt(0.0, s, -s), TOL));

    let p = pt(0.0, 0.0, 1.0);
    let half_quarter = rot_y(PI / 4.0);
    let full_quarter = rot_y(PI / 2.0);
    assert!(half_quarter.mul_tuple(p).approx_equals(&pt(s, 0.0, s), TOL));
    assert!(full_quarter.mul_tuple(p).approx_equals(&pt(1.0, 0.0, 0.0), TOL));

    let p = pt(0.0, 1.0, 0.0);
    let half_quarter = rot_z(PI / 4.0);
    let full_quarter = rot_z(PI / 2.0);
    assert!(half_quarter.mul_tuple(p).approx_equals(&pt(-s, s, 0.0), TOL));
    assert!(full_quarter.mul_tuple(p).approx_equals(&pt(-1.0, 0.0, 0.0), TOL));
}

#[test]
fn shearing() {
    let p = pt(2.0, 3.0, 4.0);
    let shearing = Matrix::shearing(fx(1.0), 0, 0, 0, 0, 0);
    assert!(shearing.mul_tuple(p).approx_equals(&pt(5.0, 3.0, 4.0), TOL));
    let shearing = Matrix::shearing(0, fx(1.0), 0, 0, 0, 0);
    assert!(shearing.mul_tuple(p).approx_equals(&pt(6.0, 3.0, 4.0), TOL));
    let shearing = Matrix::shearing(0, 0, fx(1.0), 0, 0, 0);
    assert!(shearing.mul_tuple(p).approx_equals(&pt(2.0, 5.0, 4.0), TOL));
    let shearing = Matrix::shearing(0, 0, 0, fx(1.0), 0, 0);
    assert!(shearing.mul_tuple(p).approx_equals(&pt(2.0, 7.0, 4.0), TOL));
    let shearing = Matrix::shearing(0, 0, 0, 0, fx(1.0), 0);
    assert!(shearing.mul_tuple(p).approx_equals(&pt(2.0, 3.0, 6.0), TOL));
    let shearing = Matrix::shearing(0, 0, 0, 0, 0, fx(1.0));
    assert!(shearing.mul_tuple(p).approx_equals(&pt(2.0, 3.0, 7.0), TOL));
}

#[test]
fn chaining() {
    let p = pt(1.0, 0.0, 1.0);
    let a = rot_x(PI / 2.0);
    let b = Matrix::scaling(fx(5.0), fx(5.0), fx(5.0));
    let c = Matrix::translation(fx(10.0), fx(5.0), fx(7.0));

    let p2 = a.mul_tuple(p);
    assert!(p2.approx_equals(&pt(1.0, -1.0, 0.0), TOL));
    let p3 = b.mul_tuple(p2);
    assert!(p3.approx_equals(&pt(5.0, -5.0, 0.0), 80));
    let p4 = c.mul_tuple(p3);
    assert!(p4.approx_equals(&pt(15.0, 0.0, 7.0), 80));

    assert!(c.mul(&b).mul(&a).mul_tuple(p).approx_equals(&p4, 80));
}

#[test]
fn view_transform() {
    let from = pt(0.0, 0.0, 0.0);
    let to = pt(0.0, 0.0, -1.0);
    let up = vec3(0.0, 1.0, 0.0);
    let t = Matrix::view_transform(from, to, up);
    assert!(t.approx_equals(&Matrix::identity(4), TOL));

    let from = pt(0.0, 0.0, 0.0);
    let to = pt(0.0, 0.0, 1.0);
    let up = vec3(0.0, 1.0, 0.0);
    let t = Matrix::view_transform(from, to, up);
    assert!(t.approx_equals(&Matrix::scaling(fx(-1.0), fx(1.0), fx(-1.0)), TOL));

    let from = pt(0.0, 0.0, 8.0);
    let to = pt(0.0, 0.0, 0.0);
    let up = vec3(0.0, 1.0, 0.0);
    let t = Matrix::view_transform(from, to, up);
    assert!(t.approx_equals(&Matrix::translation(0, 0, fx(-8.0)), TOL));

    let from = pt(1.0, 3.0, 2.0);
    let to = pt(4.0, -2.0, 8.0);
    let up = vec3(1.0, 1.0, 0.0);
    let t = Matrix::view_transform(from, to, up);
    let grid: Vec<Vec<i64>> = vec![
        vec![fx(-0.50709), fx(0.50709), fx(0.67612), fx(-2.36643)],
        vec![fx(0.76772), fx(0.60609), fx(0.12122), fx(-2.82843)],
        vec![fx(-0.35857), fx(0.59761), fx(-0.71714), fx(0.0)],
        vec![fx(0.0), fx(0.0), fx(0.0), fx(1.0)],
    ];
    let expected = Matrix::new(&grid);
    assert!(t.approx_equals(&expected, 300));
}
