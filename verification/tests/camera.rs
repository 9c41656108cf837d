use raytracer::camera::Camera;
use raytracer::color::Color;
use raytracer::matrix::Matrix;
use raytracer::ray::Ray;
use raytracer::tuple::Tuple;
use raytracer::world::World;
use std::f64::consts::PI;

fn fx(v: f64) -> i64 {
    (v * 65536.0).round() as i64
}

fn pt(x: f64, y: f64, z: f64) -> Tuple {
    Tuple::point(fx(x), fx(y), fx(z))
}

fn vec3(x: f64, y: f64, z: f64) -> Tuple {
    Tuple::vector(fx(x), fx(y), fx(z))
}

fn half_view(field_of_view: f64) -> i64 {
    fx((field_of_view / 2.0).tan())
}

#[test]
fn camera() {
    let c = Camera::new(160, 120, half_view(PI / 2.0));
    assert_eq!(c.hsize, 160);
    assert_eq!(c.vsize, 120);
    assert_eq!(c.half_view, fx(1.0));
    assert!(c.transform.approx_equals(&Matrix::identity(4), 0));
}

#[test]
fn pixel_size() {
    let c = Camera::new(200, 125, half_view(PI / 2.0));
    assert!((c.pixel_size - fx(0.01)).abs() <= 4);
    let c = Camera::new(125, 200, half_view(PI / 2.0));
    assert!((c.pixel_size - fx(0.01)).abs() <= 4);
}

#[test]
fn camera_ray() {
    let mut c = Camera::new(201, 101, half_view(PI / 2.0));
    let r = c.project_ray(100, 50);
    assert!(r.origin.approx_equals(&pt(0.0, 0.0, 0.0), 16));
    assert!(r.direction.approx_equals(&vec3(0.0, 0.0, -1.0), 80));

    let r = c.project_ray(0, 0);
    assert!(r.origin.approx_equals(&pt(0.0, 0.0, 0.0), 16));
    assert!(r.direction.approx_equals(&vec3(0.66519, 0.33259, -0.66851), 200));

    let angle = PI / 4.0;
    c.transform = Matrix::rotation_y(fx(angle.sin()), fx(angle.cos())).mul(
        &Matrix::translation(0, fx(-2.0), fx(5.0)),
    );
    let r = c.project_ray(100, 50);
    let s = 2.0_f64.sqrt() / 2.0;
    assert!(r.origin.approx_equals(&pt(0.0, 2.0, -5.0), 64));
    assert!(r.direction.approx_equals(&vec3(s, 0.0, -s), 200));
}

#[test]
fn render() {
    let w = World::default();
    let mut c = Camera::new(11, 11, half_view(PI / 2.0));
    let from = pt(0.0, 0.0, -5.0);
    let to = pt(0.0, 0.0, 0.0);
    let up = vec3(0.0, 1.0, 0.0);
    c.transform = Matrix::view_transform(from, to, up);
    let pixels = c.render(&w);
    assert_eq!(pixels.len(), 121);
    let center = pixels[5 * 11 + 5];
    assert!(center.approx_equals(&Color::new(fx(0.38066), fx(0.47583), fx(0.2855)), 700));
}

#[test]
fn subsample_rays() {
    let c = Camera::new(11, 11, half_view(PI / 2.0));
    let rays = c.project_subsample_rays(5, 5);
    assert_eq!(rays.len(), 10);
    let center: Ray = c.project_ray(5, 5);
    for ray in rays.iter() {
        // Each jittered ray leaves the same camera origin and stays within
        // about one pixel of the center ray's direction.
        assert!(ray.origin.approx_equals(&center.origin, 8));
        assert!(ray.direction.approx_equals(&center.direction, 3 * c.pixel_size));
    }
}

#[test]
fn render_supersample() {
    let w = World::default();
    let mut c = Camera::new(5, 5, half_view(PI / 2.0));
    let from = pt(0.0, 0.0, -5.0);
    let to = pt(0.0, 0.0, 0.0);
    let up = vec3(0.0, 1.0, 0.0);
    c.transform = Matrix::view_transform(from, to, up);
    let pixels = c.render_supersample(&w);
    assert_eq!(pixels.len(), 25);
    // The center pixel looks straight at the outer sphere: lit, not black.
    let center = pixels[2 * 5 + 2];
    assert!(center.red > fx(0.1) && center.green > fx(0.1));
}
