use rust_ray_tracer::camera::Camera;
use rust_ray_tracer::canvas::Canvas;
use rust_ray_tracer::color;
use rust_ray_tracer::color::Color;
use rust_ray_tracer::mathf::fx::Fx;
use rust_ray_tracer::mathf::shapes::matrix_approx_eq;
use rust_ray_tracer::mathf::matrix::Matrix;
use rust_ray_tracer::mathf::vector3;
use rust_ray_tracer::mathf::vector3::Vector3;
use rust_ray_tracer::transformations;
use rust_ray_tracer::world;

fn fx(v: f64) -> Fx {
    Fx { n: (v * 1e12).round() as i128 }
}

fn to_f64(x: Fx) -> f64 {
    x.n as f64 / 1e12
}

fn v3(x: f64, y: f64, z: f64) -> Vector3 {
    vector3::new(fx(x), fx(y), fx(z))
}

fn color(r: f64, g: f64, b: f64) -> Color {
    color::new(fx(r), fx(g), fx(b))
}

fn approx(a: f64, b: f64) -> bool {
    (a - b).abs() < 1e-5
}

fn assert_v3_eq(a: &Vector3, x: f64, y: f64, z: f64) {
    assert!(a.approx_eq(&v3(x, y, z)), "({}, {}, {}) vs ({}, {}, {})",
        to_f64(a.x), to_f64(a.y), to_f64(a.z), x, y, z);
}

const PI: f64 = std::f64::consts::PI;

#[test]
fn it_creates_a_camera() {
    let camera = Camera::new(160, 120, fx(PI / 2.0));
    assert_eq!(camera.hsize, 160);
    assert_eq!(camera.vsize, 120);
    assert!(approx(to_f64(camera.field_of_view), PI / 2.0));
    assert!(matrix_approx_eq(&camera.transform, &Matrix::identity_4x4()));
}

#[test]
fn the_pixel_size_for_a_horizontal_camera() {
    let camera = Camera::new(200, 125, fx(PI / 2.0));
    assert!(approx(to_f64(camera.pixel_size), 0.01));
}

#[test]
fn the_pixel_size_for_a_vertical_camera() {
    let camera = Camera::new(125, 200, fx(PI / 2.0));
    assert!(approx(to_f64(camera.pixel_size), 0.01));
}

#[test]
fn constructing_a_ray_through_the_center_of_the_canvas() {
    let camera = Camera::new(201, 101, fx(PI / 2.0));
    let ray = camera.ray_for_pixel(100, 50);
    assert_v3_eq(&ray.origin, 0.0, 0.0, 0.0);
    assert_v3_eq(&ray.direction, 0.0, 0.0, -1.0);
}

#[test]
fn constructing_a_ray_through_a_corner_of_the_canvas() {
    let camera = Camera::new(201, 101, fx(PI / 2.0));
    let ray = camera.ray_for_pixel(0, 0);
    assert_v3_eq(&ray.origin, 0.0, 0.0, 0.0);
    assert_v3_eq(&ray.direction, 0.66519, 0.33259, -0.66851);
}

#[test]
fn constructing_a_ray_when_the_camera_is_transformed() {
    let mut camera = Camera::new(201, 101, fx(PI / 2.0));
    let transform = transformations::rotation_y(fx(PI / 4.0)).multiply_4x4(
        &transformations::translation(&v3(0.0, -2.0, 5.0)),
    );
    camera.set_transform(transform).unwrap();

    let ray = camera.ray_for_pixel(100, 50);
    let k = 2.0f64.sqrt() / 2.0;
    assert_v3_eq(&ray.origin, 0.0, 2.0, -5.0);
    assert_v3_eq(&ray.direction, k, 0.0, -k);
}

#[test]
fn rendering_a_world_with_a_camera() {
    let world = world::default_world();
    let mut camera = Camera::new(11, 11, fx(PI / 2.0));
    let from = v3(0.0, 0.0, -5.0);
    let to = v3(0.0, 0.0, 0.0);
    let up = v3(0.0, 1.0, 0.0);
    camera.set_transform(transformations::view_transform(from, to, up)).unwrap();
    let image = camera.render(&world).unwrap();

    let pixel = &image.pixels[5][5];
    assert!(pixel.approx_eq(&color(0.38066, 0.47583, 0.2855)));
}

#[test]
fn it_creates_a_canvas() {
    let canvas = Canvas::new(10, 20);
    assert_eq!(canvas.width, 10);
    assert_eq!(canvas.height, 20);
}

#[test]
fn it_inits_all_colors_to_zero_when_creating_a_canvas() {
    let canvas = Canvas::new(10, 20);
    assert!(canvas.pixels.iter().all(|row| row.iter().all(|p| p.approx_eq(&color(0.0, 0.0, 0.0)))));
}

#[test]
fn test_canvas_write_pixel() {
    let mut canvas = Canvas::new(10, 20);
    let red = color(1.0, 0.0, 0.0);
    canvas.write_pixel(2, 3, &red);
    assert!(canvas.pixels[3][2].approx_eq(&red));
    assert!(canvas.pixels[0][0].approx_eq(&color(0.0, 0.0, 0.0)));
}

#[test]
fn it_creates_a_color() {
    let c = color(-0.5, 0.4, 1.7);
    assert!(approx(to_f64(c.r), -0.5));
    assert!(approx(to_f64(c.g), 0.4));
    assert!(approx(to_f64(c.b), 1.7));
}

#[test]
fn it_adds_colors() {
    let c1 = color(0.9, 0.6, 0.75);
    let c2 = color(0.7, 0.1, 0.25);
    let c3 = c1.add(c2);
    assert!(approx(to_f64(c3.r), 1.6));
    assert!(approx(to_f64(c3.g), 0.7));
    assert!(approx(to_f64(c3.b), 1.0));
}

#[test]
fn it_subtracts_colors() {
    let c1 = color(0.9, 0.6, 0.75);
    let c2 = color(0.7, 0.1, 0.25);
    let c3 = c1.sub(c2);
    assert!(approx(to_f64(c3.r), 0.2));
    assert!(approx(to_f64(c3.g), 0.5));
    assert!(approx(to_f64(c3.b), 0.5));
}

#[test]
fn it_multiplies_color_by_a_scalar() {
    let c = color(0.2, 0.3, 0.4);
    let result = c.multiply_scalar(fx(2.0));
    assert!(approx(to_f64(result.r), 0.4));
    assert!(approx(to_f64(result.g), 0.6));
    assert!(approx(to_f64(result.b), 0.8));
}

#[test]
fn it_multiplies_color_by_a_color() {
    let c1 = color(1.0, 0.2, 0.4);
    let c2 = color(0.9, 1.0, 0.1);
    let c3 = c1.multiply_color(&c2);
    assert!(approx(to_f64(c3.r), 0.9));
    assert!(approx(to_f64(c3.g), 0.2));
    assert!(approx(to_f64(c3.b), 0.04));
}

#[test]
fn test_color_equals() {
    let c1 = color(1.0, 0.2, 0.4);
    let c2 = color(1.0, 0.2, 0.4);
    assert!(c1.approx_eq(&c2));
    let c3 = color(0.5, 0.2, 0.4);
    assert!(!c1.approx_eq(&c3));
}

#[test]
fn test_the_default_material() {
    let m = rust_ray_tracer::material::Material::new();
    assert!(m.color.approx_eq(&color(1.0, 1.0, 1.0)));
    assert!(approx(to_f64(m.ambient), 0.1));
    assert!(approx(to_f64(m.diffuse), 0.9));
    assert!(approx(to_f64(m.specular), 0.9));
    assert!(approx(to_f64(m.shininess), 200.0));
}
