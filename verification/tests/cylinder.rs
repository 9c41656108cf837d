use raytracer::ray::Ray;
use raytracer::shapes::cylinder::Cylinder;
use raytracer::tuple::Tuple;

fn fx(v: f64) -> i64 {
    (v * 65536.0).round() as i64
}

fn pt(x: f64, y: f64, z: f64) -> Tuple {
    Tuple::point(fx(x), fx(y), fx(z))
}

fn vec3(x: f64, y: f64, z: f64) -> Tuple {
    Tuple::vector(fx(x), fx(y), fx(z))
}

#[test]
fn cylinder_intersect() {
    let c = Cylinder::new(None);
    let r = Ray::new(pt(0.0, 0.0, -5.0), vec3(0.0, 0.0, 1.0));
    let xs = r.intersect_object(&c, 0);
    assert_eq!(xs.intersections.len(), 2);
    assert!((xs.intersections[0].t - fx(4.0)).abs() <= 16);
    assert!((xs.intersections[1].t - fx(6.0)).abs() <= 16);

    let r = Ray::new(pt(1.0, 0.0, -5.0), vec3(0.0, 0.0, 1.0));
    let xs = r.intersect_object(&c, 0);
    assert_eq!(xs.intersections.len(), 2);
    assert!((xs.intersections[0].t - fx(5.0)).abs() <= 64);
    assert!((xs.intersections[1].t - fx(5.0)).abs() <= 64);
}

#[test]
fn cylinder_misses() {
    let c = Cylinder::new(None);
    let r = Ray::new(pt(1.5, 0.0, -5.0), vec3(0.0, 0.0, 1.0));
    let xs = r.intersect_object(&c, 0);
    assert_eq!(xs.intersections.len(), 0);

    // Parallel to the axis: no crossing of the curved surface.
    let r = Ray::new(pt(0.5, 0.0, 0.0), vec3(0.0, 1.0, 0.0));
    let xs = r.intersect_object(&c, 0);
    assert_eq!(xs.intersections.len(), 0);
}

#[test]
fn cylinder_normal() {
    let c = Cylinder::new(None);
    assert!(c.normal_at(pt(1.0, 0.0, 0.0)).approx_equals(&vec3(1.0, 0.0, 0.0), 8));
    assert!(c.normal_at(pt(0.0, 5.0, -1.0)).approx_equals(&vec3(0.0, 0.0, -1.0), 8));
    assert!(c.normal_at(pt(0.0, -2.0, 1.0)).approx_equals(&vec3(0.0, 0.0, 1.0), 8));
    assert!(c.normal_at(pt(-1.0, 1.0, 0.0)).approx_equals(&vec3(-1.0, 0.0, 0.0), 8));
}
