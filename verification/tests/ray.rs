use raytracer::color::Color;
use raytracer::light::PointLight;
use raytracer::material::Material;
use raytracer::matrix::Matrix;
use raytracer::ray::Ray;
use raytracer::shape::MAX_REFLECTIONS;
use raytracer::sphere::Sphere;
use raytracer::tuple::Tuple;
use raytracer::world::World;

fn fx(v: f64) -> i64 {
    (v * 65536.0).round() as i64
}

fn pt(x: f64, y: f64, z: f64) -> Tuple {
    Tuple::point(fx(x), fx(y), fx(z))
}

fn vec3(x: f64, y: f64, z: f64) -> Tuple {
    Tuple::vector(fx(x), fx(y), fx(z))
}

#[test]
fn ray() {
    let origin = pt(1.0, 2.0, 3.0);
    let direction = vec3(4.0, 5.0, 6.0);
    let r = Ray::new(origin, direction);
    assert_eq!(origin, r.origin);
    assert_eq!(direction, r.direction);

    let r = Ray::new(pt(2.0, 3.0, 4.0), vec3(1.0, 0.0, 0.0));
    assert!(r.position(fx(0.0)).approx_equals(&pt(2.0, 3.0, 4.0), 2));
    assert!(r.position(fx(1.0)).approx_equals(&pt(3.0, 3.0, 4.0), 2));
    assert!(r.position(fx(-1.0)).approx_equals(&pt(1.0, 3.0, 4.0), 2));
    assert!(r.position(fx(2.5)).approx_equals(&pt(4.5, 3.0, 4.0), 2));
}

#[test]
fn ray_sphere_intersect() {
    let r = Ray::new(pt(0.0, 0.0, -5.0), vec3(0.0, 0.0, 1.0));
    let s = Sphere::new(None);
    let i = r.intersect_object(&s, 0);
    assert_eq!(i.intersections.len(), 2);
    assert_eq!(i.intersections[0].t, fx(4.0));
    assert_eq!(i.intersections[1].t, fx(6.0));
    assert_eq!(i.intersections[0].object, 0);
    assert_eq!(i.intersections[1].object, 0);

    let r = Ray::new(pt(0.0, 1.0, -5.0), vec3(0.0, 0.0, 1.0));
    let i = r.intersect_object(&s, 0);
    assert_eq!(i.intersections.len(), 2);
    assert!((i.intersections[0].t - fx(5.0)).abs() <= 16);
    assert!((i.intersections[1].t - fx(5.0)).abs() <= 16);

    let r = Ray::new(pt(0.0, 2.0, -5.0), vec3(0.0, 0.0, 1.0));
    let i = r.intersect_object(&s, 0);
    assert_eq!(i.intersections.len(), 0);

    let r = Ray::new(pt(0.0, 0.0, 0.0), vec3(0.0, 0.0, 1.0));
    let i = r.intersect_object(&s, 0);
    assert_eq!(i.intersections.len(), 2);
    assert_eq!(i.intersections[0].t, fx(-1.0));
    assert_eq!(i.intersections[1].t, fx(1.0));

    let r = Ray::new(pt(0.0, 0.0, 5.0), vec3(0.0, 0.0, 1.0));
    let i = r.intersect_object(&s, 0);
    assert_eq!(i.intersections.len(), 2);
    assert_eq!(i.intersections[0].t, fx(-6.0));
    assert_eq!(i.intersections[1].t, fx(-4.0));
}

#[test]
fn transform() {
    let r = Ray::new(pt(1.0, 2.0, 3.0), vec3(0.0, 1.0, 0.0));
    let m = Matrix::translation(fx(3.0), fx(4.0), fx(5.0));
    let r2 = r.transform(&m);
    assert!(r2.origin.approx_equals(&pt(4.0, 6.0, 8.0), 8));
    assert!(r2.direction.approx_equals(&vec3(0.0, 1.0, 0.0), 8));

    let m = Matrix::scaling(fx(2.0), fx(3.0), fx(4.0));
    let r2 = r.transform(&m);
    assert!(r2.origin.approx_equals(&pt(2.0, 6.0, 12.0), 8));
    assert!(r2.direction.approx_equals(&vec3(0.0, 3.0, 0.0), 8));
}

#[test]
fn test_world_color() {
    let w = World::default();
    let r = Ray::new(pt(0.0, 0.0, -5.0), vec3(0.0, 1.0, 0.0));
    let c = r.color_hit(&w, MAX_REFLECTIONS);
    assert!(c.approx_equals(&Color::new(0, 0, 0), 2));

    let r = Ray::new(pt(0.0, 0.0, -5.0), vec3(0.0, 0.0, 1.0));
    let c = r.color_hit(&w, MAX_REFLECTIONS);
    assert!(c.approx_equals(&Color::new(fx(0.38066), fx(0.47583), fx(0.2855)), 300));
}

#[test]
fn test_world_color_inner() {
    let light = PointLight::new(pt(-10.0, 10.0, -10.0), Color::new(fx(1.0), fx(1.0), fx(1.0)));
    let mut mat1 = Material::new();
    mat1.color = Color::new(fx(0.8), fx(1.0), fx(0.6));
    mat1.diffuse = fx(0.7);
    mat1.specular = fx(0.2);
    mat1.ambient = fx(1.0);
    let s1 = Sphere::new(Some(mat1));

    let mut mat2 = Material::new();
    mat2.ambient = fx(1.0);
    let mut s2 = Sphere::new(Some(mat2));
    s2.transform = Matrix::scaling(fx(0.5), fx(0.5), fx(0.5));

    let inner_color = s2.material.color;
    let w = World::new(vec![s1, s2], vec![light]);
    let r = Ray::new(pt(0.0, 0.0, 0.75), vec3(0.0, 0.0, -1.0));
    let c = r.color_hit(&w, MAX_REFLECTIONS);
    assert!(c.approx_equals(&inner_color, 300));
}
