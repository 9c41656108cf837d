use raytracer::material::Material;
use raytracer::matrix::Matrix;
use raytracer::ray::Ray;
use raytracer::sphere::Sphere;
use raytracer::tuple::Tuple;

fn fx(v: f64) -> i64 {
    (v * 65536.0).round() as i64
}

fn pt(x: f64, y: f64, z: f64) -> Tuple {
    Tuple::point(fx(x), fx(y), fx(z))
}

fn vec3(x: f64, y: f64, z: f64) -> Tuple {
    Tuple::vector(fx(x), fx(y), fx(z))
}

#[test]
fn sphere() {
    let mut s = Sphere::object_new(None);
    assert!(s.transform.approx_equals(&Matrix::identity(4), 0));
    assert_eq!(s.material.ambient, Material::new().ambient);
    let m = Matrix::translation(fx(2.0), fx(3.0), fx(4.0));
    s.transform = m;
    assert!(s.transform.approx_equals(&Matrix::translation(fx(2.0), fx(3.0), fx(4.0)), 0));
    let mut m = Material::new();
    m.ambient = fx(1.0);
    s.material = m;
    assert_eq!(s.material.ambient, fx(1.0));
}

#[test]
fn ray_sphere_intersection() {
    let r = Ray::new(pt(0.0, 0.0, -5.0), vec3(0.0, 0.0, 1.0));
    let mut s = Sphere::object_new(None);
    s.transform = Matrix::scaling(fx(2.0), fx(2.0), fx(2.0));
    let i = r.intersect_object(&s, 0);
    assert_eq!(i.intersections.len(), 2);
    assert!((i.intersections[0].t - fx(3.0)).abs() <= 16);
    assert!((i.intersections[1].t - fx(7.0)).abs() <= 16);

    s.transform = Matrix::translation(fx(5.0), 0, 0);
    let i = r.intersect_object(&s, 0);
    assert_eq!(i.intersections.len(), 0);
}

#[test]
fn sphere_normal() {
    let objects = vec![Sphere::object_new(None)];
    let s = &objects[0];
    assert!(s.normal_at(pt(1.0, 0.0, 0.0)).approx_equals(&vec3(1.0, 0.0, 0.0), 8));
    assert!(s.normal_at(pt(0.0, 1.0, 0.0)).approx_equals(&vec3(0.0, 1.0, 0.0), 8));
    assert!(s.normal_at(pt(0.0, 0.0, 1.0)).approx_equals(&vec3(0.0, 0.0, 1.0), 8));
    let k = 3.0_f64.sqrt() / 3.0;
    let normal = s.normal_at(pt(k, k, k));
    assert!(normal.approx_equals(&vec3(k, k, k), 16));
    assert!(normal.normalize().approx_equals(&normal, 16));
}

#[test]
fn normal_translated() {
    let mut s = Sphere::object_new(None);
    s.transform = Matrix::translation(0, fx(1.0), 0);
    assert!(
        s.normal_at(pt(0.0, 1.70711, -0.70711)).approx_equals(&vec3(0.0, 0.70711, -0.70711), 32)
    );

    let angle = std::f64::consts::PI / 5.0;
    s.transform = Matrix::scaling(fx(1.0), fx(0.5), fx(1.0)).mul(
        &Matrix::rotation_z(fx(angle.sin()), fx(angle.cos())),
    );
    let q = 2.0_f64.sqrt() / 2.0;
    assert!(s.normal_at(pt(0.0, q, -q)).approx_equals(&vec3(0.0, 0.97014, -0.24254), 64));
}

#[test]
fn glass_sphere() {
    let s = Sphere::glass_new();
    assert_eq!(s.material.transparency, fx(1.0));
    assert_eq!(s.material.refractive_index, fx(1.5));
}
