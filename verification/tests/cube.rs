use raytracer::ray::Ray;
use raytracer::shapes::cube::Cube;
use raytracer::tuple::Tuple;

fn fx(v: f64) -> i64 {
    (v * 65536.0).round() as i64
}

fn pt(x: f64, y: f64, z: f64) -> Tuple {
    Tuple::point(fx(x), fx(y), fx(z))
}

fn vec3(x: f64, y: f64, z: f64) -> Tuple {
    Tuple::vector(fx(x), fx(y), fx(z))
}

fn check_hit(origin: Tuple, direction: Tuple, t1: f64, t2: f64) {
    let c = Cube::new(None);
    let r = Ray::new(origin, direction);
    let xs = r.intersect_object(&c, 0);
    assert_eq!(xs.intersections.len(), 2);
    assert!((xs.intersections[0].t - fx(t1)).abs() <= 16);
    assert!((xs.intersections[1].t - fx(t2)).abs() <= 16);
}

#[test]
fn cube_intersect() {
    check_hit(pt(5.0, 0.5, 0.0), vec3(-1.0, 0.0, 0.0), 4.0, 6.0);
    check_hit(pt(-5.0, 0.5, 0.0), vec3(1.0, 0.0, 0.0), 4.0, 6.0);
    check_hit(pt(0.5, 5.0, 0.0), vec3(0.0, -1.0, 0.0), 4.0, 6.0);
    check_hit(pt(0.5, -5.0, 0.0), vec3(0.0, 1.0, 0.0), 4.0, 6.0);
    check_hit(pt(0.5, 0.0, 5.0), vec3(0.0, 0.0, -1.0), 4.0, 6.0);
    check_hit(pt(0.5, 0.0, -5.0), vec3(0.0, 0.0, 1.0), 4.0, 6.0);
    check_hit(pt(0.0, 0.5, 0.0), vec3(0.0, 0.0, 1.0), -1.0, 1.0);
}

#[test]
fn cube_misses() {
    let c = Cube::new(None);
    let cases = [
        (pt(-2.0, 0.0, 0.0), vec3(0.2673, 0.5345, 0.8018)),
        (pt(0.0, -2.0, 0.0), vec3(0.8018, 0.2673, 0.5345)),
        (pt(0.0, 0.0, -2.0), vec3(0.5345, 0.8018, 0.2673)),
        (pt(2.0, 0.0, 2.0), vec3(0.0, 0.0, -1.0)),
        (pt(0.0, 2.0, 2.0), vec3(0.0, -1.0, 0.0)),
        (pt(2.0, 2.0, 0.0), vec3(-1.0, 0.0, 0.0)),
    ];
    for (origin, direction) in cases.iter() {
        let r = Ray::new(*origin, *direction);
        let xs = r.intersect_object(&c, 0);
        assert_eq!(xs.intersections.len(), 0);
    }
}

#[test]
fn cube_normal() {
    let c = Cube::new(None);
    let cases = [
        (pt(1.0, 0.5, -0.8), vec3(1.0, 0.0, 0.0)),
        (pt(-1.0, -0.2, 0.9), vec3(-1.0, 0.0, 0.0)),
        (pt(-0.4, 1.0, -0.1), vec3(0.0, 1.0, 0.0)),
        (pt(0.3, -1.0, -0.7), vec3(0.0, -1.0, 0.0)),
        (pt(-0.6, 0.3, 1.0), vec3(0.0, 0.0, 1.0)),
        (pt(0.4, 0.4, -1.0), vec3(0.0, 0.0, -1.0)),
        (pt(1.0, 1.0, 1.0), vec3(1.0, 0.0, 0.0)),
        (pt(-1.0, -1.0, -1.0), vec3(-1.0, 0.0, 0.0)),
    ];
    for (p, expected) in cases.iter() {
        let normal = c.normal_at(*p);
        assert!(normal.approx_equals(expected, 8));
    }
}
