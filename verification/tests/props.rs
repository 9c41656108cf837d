use raytracer::fx::FX_ONE;
use raytracer::intersection::IntersectionList;
use raytracer::intersection::Intersection;
use raytracer::matrix::Matrix;
use raytracer::ray::Ray;
use raytracer::sphere::Sphere;
use raytracer::tuple::Tuple;

fn fx(v: f64) -> i64 {
    (v * 65536.0).round() as i64
}

fn pt(x: f64, y: f64, z: f64) -> Tuple {
    Tuple::point(fx(x), fx(y), fx(z))
}

fn vec3(x: f64, y: f64, z: f64) -> Tuple {
    Tuple::vector(fx(x), fx(y), fx(z))
}

#[test]
fn sphere_center_ray_roots() {
    // A ray straight through the center: roots at 4 and 6, symmetric about
    // the closest approach at 5.
    let s = Sphere::new(None);
    let r = Ray::new(pt(0.0, 0.0, -5.0), vec3(0.0, 0.0, 1.0));
    let i = r.intersect_object(&s, 0);
    assert_eq!(i.intersections.len(), 2);
    assert_eq!(i.intersections[0].t, fx(4.0));
    assert_eq!(i.intersections[1].t, fx(6.0));
    assert_eq!(i.intersections[0].t + i.intersections[1].t, 2 * fx(5.0));
}

#[test]
fn sphere_tangent_ray_roots() {
    let s = Sphere::new(None);
    let r = Ray::new(pt(0.0, 1.0, -5.0), vec3(0.0, 0.0, 1.0));
    let i = r.intersect_object(&s, 0);
    assert_eq!(i.intersections.len(), 2);
    assert!((i.intersections[0].t - i.intersections[1].t).abs() <= 32);
}

#[test]
fn sphere_missing_ray_roots() {
    let s = Sphere::new(None);
    let r = Ray::new(pt(0.0, 2.0, -5.0), vec3(0.0, 0.0, 1.0));
    let i = r.intersect_object(&s, 0);
    assert_eq!(i.intersections.len(), 0);
}

#[test]
fn hit_skips_nonpositive() {
    // Candidates at and behind the origin are never the hit; the minimal
    // strictly positive one is.
    let xs = IntersectionList::new(vec![
        Intersection::new(0, 3),
        Intersection::new(fx(-2.5), 1),
        Intersection::new(fx(7.0), 2),
        Intersection::new(fx(3.0), 0),
    ]);
    let h = xs.hit().unwrap();
    assert!(h.t > 0);
    assert_eq!(h.t, fx(3.0));
    assert_eq!(h.object, 0);

    let none = IntersectionList::new(vec![
        Intersection::new(0, 0),
        Intersection::new(fx(-1.0), 1),
    ]);
    assert_eq!(none.hit(), None);

    let empty = IntersectionList::new(Vec::new());
    assert_eq!(empty.hit(), None);
}

#[test]
fn schlick_total_internal_reflection() {
    // Exiting glass past the critical angle: the reflectance is exactly one.
    let objects = vec![Sphere::glass_new()];
    let s = 2.0_f64.sqrt() / 2.0;
    let r = Ray::new(pt(0.0, 0.0, s), vec3(0.0, 1.0, 0.0));
    let xs = r.intersect_object(&objects[0], 0);
    let ctx = xs.intersections[1].context(&r, &objects, Some(&xs));
    assert!(ctx.n1 > ctx.n2);
    assert_eq!(ctx.schlick(), FX_ONE);
}

#[test]
fn schlick_perpendicular() {
    // Looking straight into glass: reflectance is small, about 0.04.
    let objects = vec![Sphere::glass_new()];
    let r = Ray::new(pt(0.0, 0.0, 0.0), vec3(0.0, 1.0, 0.0));
    let xs = r.intersect_object(&objects[0], 0);
    let ctx = xs.intersections[1].context(&r, &objects, Some(&xs));
    let reflectance = ctx.schlick();
    assert!((reflectance - fx(0.04)).abs() <= fx(0.01));
}

#[test]
fn intersection_round_trip() {
    // The world-space point reached at the hit parameter agrees with the
    // object-space point mapped back through the transform, within the
    // fixed-point rounding.
    let mut s = Sphere::new(None);
    s.transform = Matrix::translation(fx(0.5), fx(-1.0), fx(2.0)).mul(
        &Matrix::scaling(fx(2.0), fx(2.0), fx(2.0)),
    );
    let r = Ray::new(pt(0.0, -1.0, -5.0), vec3(0.0, 0.0, 1.0));
    let xs = r.intersect_object(&s, 0);
    assert_eq!(xs.intersections.len(), 2);
    let t = xs.intersections[0].t;
    let world_point = r.position(t);

    let inv = s.transform.inverse();
    let o = inv.mul_tuple(r.origin);
    let d = inv.mul_tuple(r.direction);
    let object_ray = Ray::new(
        Tuple::point(o.x, o.y, o.z),
        Tuple::vector(d.x, d.y, d.z),
    );
    let object_point = object_ray.position(t);
    let mapped_back = s.transform.mul_tuple(object_point);
    assert!(world_point.approx_equals(&mapped_back, 64));
}

#[test]
fn normal_unit_nonuniform() {
    // Under a non-uniform scaling the world normal still comes out close to
    // unit length and orthogonal to the sphere surface direction.
    let mut s = Sphere::new(None);
    s.transform = Matrix::scaling(fx(1.0), fx(0.5), fx(1.0));
    let q = 2.0_f64.sqrt() / 2.0;
    let n = s.normal_at(pt(0.0, q, -q));
    assert!(n.is_vector());
    assert!((n.magnitude() - FX_ONE).abs() <= 16);
}
