use raytracer::matrix::Matrix;
use raytracer::tuple::Tuple;

fn fx(v: f64) -> i64 {
    (v * 65536.0).round() as i64
}

fn mat(rows: &[&[f64]]) -> Matrix {
    let grid: Vec<Vec<i64>> = rows.iter().map(|r| r.iter().map(|v| fx(*v)).collect()).collect();
    Matrix::new(&grid)
}

#[test]
fn matrix_4x4() {
    let m = mat(&[
        &[1.0, 2.0, 3.0, 4.0],
        &[5.5, 6.5, 7.5, 8.5],
        &[9.0, 10.0, 11.0, 12.0],
        &[13.5, 14.5, 15.5, 16.5],
    ]);
    assert_eq!(m.get(0, 0), fx(1.0));
    assert_eq!(m.get(0, 3), fx(4.0));
    assert_eq!(m.get(1, 0), fx(5.5));
    assert_eq!(m.get(1, 2), fx(7.5));
    assert_eq!(m.get(2, 2), fx(11.0));
    assert_eq!(m.get(3, 0), fx(13.5));
    assert_eq!(m.get(3, 2), fx(15.5));
}

#[test]
fn matrix_2x2() {
    let m = mat(&[&[-3.0, 5.0], &[1.0, -2.0]]);
    assert_eq!(m.get(0, 0), fx(-3.0));
    assert_eq!(m.get(0, 1), fx(5.0));
    assert_eq!(m.get(1, 0), fx(1.0));
    assert_eq!(m.get(1, 1), fx(-2.0));
}

#[test]
fn matrix_3x3() {
    let m = mat(&[&[-3.0, 5.0, 0.0], &[1.0, -2.0, -7.0], &[0.0, 1.0, 1.0]]);
    assert_eq!(m.get(0, 0), fx(-3.0));
    assert_eq!(m.get(1, 1), fx(-2.0));
    assert_eq!(m.get(2, 2), fx(1.0));
}

#[test]
fn matrix_equal() {
    let a = mat(&[
        &[1.0, 2.0, 3.0, 4.0],
        &[5.0, 6.0, 7.0, 8.0],
        &[9.0, 8.0, 7.0, 6.0],
        &[5.0, 4.0, 3.0, 2.0],
    ]);
    let b = mat(&[
        &[1.0, 2.0, 3.0, 4.0],
        &[5.0, 6.0, 7.0, 8.0],
        &[9.0, 8.0, 7.0, 6.0],
        &[5.0, 4.0, 3.0, 2.0],
    ]);
    assert!(a.equals(&b));
}

#[test]
fn matrix_multiply() {
    let a = mat(&[
        &[1.0, 2.0, 3.0, 4.0],
        &[5.0, 6.0, 7.0, 8.0],
        &[9.0, 8.0, 7.0, 6.0],
        &[5.0, 4.0, 3.0, 2.0],
    ]);
    let b = mat(&[
        &[-2.0, 1.0, 2.0, 3.0],
        &[3.0, 2.0, 1.0, -1.0],
        &[4.0, 3.0, 6.0, 5.0],
        &[1.0, 2.0, 7.0, 8.0],
    ]);
    let expected = mat(&[
        &[20.0, 22.0, 50.0, 48.0],
        &[44.0, 54.0, 114.0, 108.0],
        &[40.0, 58.0, 110.0, 102.0],
        &[16.0, 26.0, 46.0, 42.0],
    ]);
    assert!(a.mul(&b).approx_equals(&expected, 2));
}

#[test]
fn matrix_tuple_multiply() {
    let a = mat(&[
        &[1.0, 2.0, 3.0, 4.0],
        &[2.0, 4.0, 4.0, 2.0],
        &[8.0, 6.0, 4.0, 1.0],
        &[0.0, 0.0, 0.0, 1.0],
    ]);
    let b = Tuple::new(fx(1.0), fx(2.0), fx(3.0), fx(1.0));
    assert!(a.mul_tuple(b).approx_equals(&Tuple::new(fx(18.0), fx(24.0), fx(33.0), fx(1.0)), 2));
}

#[test]
fn identity_matrix() {
    let a = mat(&[
        &[0.0, 1.0, 2.0, 4.0],
        &[1.0, 2.0, 4.0, 8.0],
        &[2.0, 4.0, 8.0, 16.0],
        &[4.0, 8.0, 16.0, 32.0],
    ]);
    assert!(a.mul(&Matrix::identity(4)).approx_equals(&a, 0));
}

#[test]
fn identity_tuple() {
    let a = Tuple::new(fx(1.0), fx(2.0), fx(3.0), fx(4.0));
    assert!(Matrix::identity(4).mul_tuple(a).approx_equals(&a, 0));
}

#[test]
fn determinant_2x2() {
    let a = mat(&[&[1.0, 5.0], &[-3.0, 2.0]]);
    assert_eq!(a.determinant(), fx(17.0));
}

#[test]
fn submatrix_3x3() {
    let m = mat(&[&[1.0, 5.0, 0.0], &[-3.0, 2.0, 7.0], &[0.0, 6.0, -3.0]]);
    let expected = mat(&[&[-3.0, 2.0], &[0.0, 6.0]]);
    assert!(m.submatrix(0, 2).approx_equals(&expected, 0));
}

#[test]
fn submatrix_4x4() {
    let m = mat(&[
        &[-6.0, 1.0, 1.0, 6.0],
        &[-8.0, 5.0, 8.0, 6.0],
        &[-1.0, 0.0, 8.0, 2.0],
        &[-7.0, 1.0, -1.0, 1.0],
    ]);
    let expected = mat(&[&[-6.0, 1.0, 6.0], &[-8.0, 8.0, 6.0], &[-7.0, -1.0, 1.0]]);
    assert!(m.submatrix(2, 1).approx_equals(&expected, 0));
}

#[test]
fn minor_3x3() {
    let m = mat(&[&[3.0, 5.0, 0.0], &[2.0, -1.0, -7.0], &[6.0, -1.0, 5.0]]);
    assert_eq!(m.minor(1, 0), fx(25.0));
}

#[test]
fn cofactor_3x3() {
    let m = mat(&[&[3.0, 5.0, 0.0], &[2.0, -1.0, -7.0], &[6.0, -1.0, 5.0]]);
    assert_eq!(m.cofactor(1, 0), fx(-25.0));
}

#[test]
fn determinant_3x3() {
    let m = mat(&[&[1.0, 2.0, 6.0], &[-5.0, 8.0, -4.0], &[2.0, 6.0, 4.0]]);
    assert_eq!(m.cofactor(0, 0), fx(56.0));
    assert_eq!(m.cofactor(0, 1), fx(12.0));
    assert_eq!(m.cofactor(0, 2), fx(-46.0));
    assert_eq!(m.determinant(), fx(-196.0));
}

#[test]
fn determinant_4x4() {
    let m = mat(&[
        &[-2.0, -8.0, 3.0, 5.0],
        &[-3.0, 1.0, 7.0, 3.0],
        &[1.0, 2.0, -9.0, 6.0],
        &[-6.0, 7.0, 7.0, -9.0],
    ]);
    assert_eq!(m.cofactor(0, 0), fx(690.0));
    assert_eq!(m.cofactor(0, 1), fx(447.0));
    assert_eq!(m.cofactor(0, 2), fx(210.0));
    assert_eq!(m.cofactor(0, 3), fx(51.0));
    assert_eq!(m.determinant(), fx(-4071.0));
}

#[test]
fn invertible() {
    let m = mat(&[
        &[6.0, 4.0, 4.0, 4.0],
        &[5.0, 5.0, 7.0, 6.0],
        &[4.0, -9.0, 3.0, -7.0],
        &[9.0, 1.0, 7.0, -6.0],
    ]);
    assert_eq!(m.determinant(), fx(-2120.0));
    assert!(m.is_invertible());
    let m = mat(&[
        &[-4.0, 2.0, -2.0, -3.0],
        &[9.0, 6.0, 2.0, 6.0],
        &[0.0, -5.0, 1.0, -5.0],
        &[0.0, 0.0, 0.0, 0.0],
    ]);
    assert_eq!(m.determinant(), 0);
    assert!(!m.is_invertible());
}

#[test]
fn inverse() {
    let m = mat(&[
        &[-5.0, 2.0, 6.0, -8.0],
        &[1.0, -5.0, 1.0, 8.0],
        &[7.0, 7.0, -6.0, -7.0],
        &[1.0, -3.0, 7.0, 4.0],
    ]);
    let b = m.inverse();
    assert_eq!(m.determinant(), fx(532.0));
    assert_eq!(m.cofactor(2, 3), fx(-160.0));
    assert!((b.get(3, 2) - fx(-160.0 / 532.0)).abs() <= 2);
    assert_eq!(m.cofactor(3, 2), fx(105.0));
    assert!((b.get(2, 3) - fx(105.0 / 532.0)).abs() <= 2);
    let expected = mat(&[
        &[0.21805, 0.45113, 0.24060, -0.04511],
        &[-0.80827, -1.45677, -0.44361, 0.52068],
        &[-0.07895, -0.22368, -0.05263, 0.19737],
        &[-0.52256, -0.81391, -0.30075, 0.30639],
    ]);
    assert!(b.approx_equals(&expected, 2));

    let m = mat(&[
        &[8.0, -5.0, 9.0, 2.0],
        &[7.0, 5.0, 6.0, 1.0],
        &[-6.0, 0.0, 9.0, 6.0],
        &[-3.0, 0.0, -9.0, -4.0],
    ]);
    let expected = mat(&[
        &[-0.15385, -0.15385, -0.28205, -0.53846],
        &[-0.07692, 0.12308, 0.02564, 0.03077],
        &[0.35897, 0.35897, 0.43590, 0.92308],
        &[-0.69231, -0.69231, -0.76923, -1.92308],
    ]);
    assert!(m.inverse().approx_equals(&expected, 2));

    let m = mat(&[
        &[9.0, 3.0, 0.0, 9.0],
        &[-5.0, -2.0, -6.0, -3.0],
        &[-4.0, 9.0, 6.0, 4.0],
        &[-7.0, 6.0, 6.0, 2.0],
    ]);
    let expected = mat(&[
        &[-0.04074, -0.07778, 0.14444, -0.22222],
        &[-0.07778, 0.03333, 0.36667, -0.33333],
        &[-0.02901, -0.14630, -0.10926, 0.12963],
        &[0.17778, 0.06667, -0.26667, 0.33333],
    ]);
    assert!(m.inverse().approx_equals(&expected, 2));
}

#[test]
fn matrix_inverse_multiply() {
    let a = mat(&[
        &[3.0, -9.0, 7.0, 3.0],
        &[3.0, -8.0, 2.0, -9.0],
        &[-4.0, 4.0, 4.0, 1.0],
        &[-6.0, 5.0, -1.0, 1.0],
    ]);
    let b = mat(&[
        &[8.0, 2.0, 2.0, 2.0],
        &[3.0, -1.0, 7.0, 0.0],
        &[7.0, 0.0, 5.0, 4.0],
        &[6.0, -2.0, 0.0, 5.0],
    ]);
    let c = a.mul(&b);
    assert!(c.mul(&b.inverse()).approx_equals(&a, 1000));
    assert!(b.mul(&b.inverse()).approx_equals(&Matrix::identity(4), 1000));
}

#[test]
fn identity_inverse() {
    let a = Matrix::identity(4);
    assert!(a.inverse().approx_equals(&a, 0));
}
