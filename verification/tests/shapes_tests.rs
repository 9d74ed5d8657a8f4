use std::rc::Rc;

use rust_ray_tracer::material::Material;
use rust_ray_tracer::mathf::fx::Fx;
use rust_ray_tracer::mathf::intersection::Intersection;
use rust_ray_tracer::mathf::intersection::Intersections;
use rust_ray_tracer::mathf::matrix::Matrix;
use rust_ray_tracer::mathf::plane::Plane;
use rust_ray_tracer::mathf::ray::Ray;
use rust_ray_tracer::mathf::shapes::Shape;
use rust_ray_tracer::mathf::shapes::matrix_approx_eq;
use rust_ray_tracer::mathf::sphere;
use rust_ray_tracer::mathf::sphere::Sphere;
use rust_ray_tracer::mathf::vector3;
use rust_ray_tracer::mathf::vector3::Vector3;
use rust_ray_tracer::transformations;

fn fx(v: f64) -> Fx {
    Fx { n: (v * 1e12).round() as i128 }
}

fn to_f64(x: Fx) -> f64 {
    x.n as f64 / 1e12
}

fn v3(x: f64, y: f64, z: f64) -> Vector3 {
    vector3::new(fx(x), fx(y), fx(z))
}

fn assert_v3_eq(a: &Vector3, x: f64, y: f64, z: f64) {
    assert!(a.approx_eq(&v3(x, y, z)), "({}, {}, {}) vs ({}, {}, {})",
        to_f64(a.x), to_f64(a.y), to_f64(a.z), x, y, z);
}

fn approx(a: f64, b: f64) -> bool {
    (a - b).abs() < 1e-5
}

fn unit_sphere() -> Sphere {
    Sphere::new(None, None).unwrap()
}

fn sphere_handle(s: Sphere) -> Rc<Shape> {
    Rc::new(Shape::Sphere(s))
}

const PI: f64 = std::f64::consts::PI;

#[test]
fn test_a_sphere_default_transformation() {
    let s = unit_sphere();
    assert!(matrix_approx_eq(&s.transform, &Matrix::identity_4x4()));
}

#[test]
fn changing_a_sphere_transformation() {
    let t = transformations::translation(&v3(2.0, 3.0, 4.0));
    let s = Sphere::new(Some(t), None).unwrap();
    let expected = transformations::translation(&v3(2.0, 3.0, 4.0));
    assert!(matrix_approx_eq(&s.transform, &expected));
}

#[test]
fn the_normal_on_a_sphere_at_a_point_on_the_x_axis() {
    let s = unit_sphere();
    let n = s.normal_at(&v3(1.0, 0.0, 0.0));
    assert_v3_eq(&n, 1.0, 0.0, 0.0);
}

#[test]
fn the_normal_on_a_sphere_at_a_point_on_the_y_axis() {
    let s = unit_sphere();
    let n = s.normal_at(&v3(0.0, 1.0, 0.0));
    assert_v3_eq(&n, 0.0, 1.0, 0.0);
}

#[test]
fn the_normal_on_a_sphere_at_a_point_on_the_z_axis() {
    let s = unit_sphere();
    let n = s.normal_at(&v3(0.0, 0.0, 1.0));
    assert_v3_eq(&n, 0.0, 0.0, 1.0);
}

#[test]
fn the_normal_on_a_sphere_at_a_nonaxial_point() {
    let s = unit_sphere();
    let k = 3.0f64.sqrt() / 3.0;
    let n = s.normal_at(&v3(k, k, k));
    assert_v3_eq(&n, k, k, k);
}

#[test]
fn the_normal_is_a_normalized_vector() {
    let s = unit_sphere();
    let k = 3.0f64.sqrt() / 3.0;
    let n = s.normal_at(&v3(k, k, k));
    assert!(n.approx_eq(&n.normalize()));
}

#[test]
fn computing_the_normal_on_a_translated_sphere() {
    let s = Sphere::new(Some(transformations::translation(&v3(0.0, 1.0, 0.0))), None).unwrap();
    let n = s.normal_at(&v3(0.0, 1.70711, -0.70711));
    assert_v3_eq(&n, 0.0, 0.70711, -0.70711);
}

#[test]
fn computing_the_normal_on_a_transformed_sphere() {
    let m = transformations::scaling(&v3(1.0, 0.5, 1.0)).multiply_4x4(
        &transformations::rotation_z(fx(PI / 5.0)),
    );
    let s = Sphere::new(Some(m), None).unwrap();
    let r = 2.0f64.sqrt() / 2.0;
    let n = s.normal_at(&v3(0.0, r, -r));
    assert_v3_eq(&n, 0.0, 0.97014, -0.24254);
}

#[test]
fn reflecting_a_vector_approaching_at_45_degrees() {
    let v = v3(1.0, -1.0, 0.0);
    let n = v3(0.0, 1.0, 0.0);
    let r = sphere::reflect(&v, &n);
    assert_v3_eq(&r, 1.0, 1.0, 0.0);
}

#[test]
fn reflecting_a_vector_off_a_slanted_surface() {
    let v = v3(0.0, -1.0, 0.0);
    let k = 2.0f64.sqrt() / 2.0;
    let n = v3(k, k, 0.0);
    let r = sphere::reflect(&v, &n);
    assert_v3_eq(&r, 1.0, 0.0, 0.0);
}

#[test]
fn a_sphere_has_a_default_material() {
    let s = unit_sphere();
    let m = Material::new();
    assert!(s.material.approx_eq(&m));
}

#[test]
fn a_sphere_may_be_assigned_a_material() {
    let mut m = Material::new();
    m.ambient = fx(1.0);
    let s = Sphere::new(None, Some(m)).unwrap();

    let mut m2 = Material::new();
    m2.ambient = fx(1.0);
    assert!(s.material.approx_eq(&m2));
}

#[test]
fn intersecting_a_scaled_sphere_with_a_ray() {
    let ray = Ray::new(v3(0.0, 0.0, -5.0), v3(0.0, 0.0, 1.0));
    let s = Sphere::new(Some(transformations::scaling(&v3(2.0, 2.0, 2.0))), None).unwrap();
    let s = sphere_handle(s);
    let xs = Sphere::intersect(&s, &ray);
    assert_eq!(xs.len(), 2);
    assert!(approx(to_f64(xs[0].t), 3.0));
    assert!(approx(to_f64(xs[1].t), 7.0));
}

#[test]
fn intersecting_a_translated_sphere_with_a_ray() {
    let ray = Ray::new(v3(0.0, 0.0, -5.0), v3(0.0, 0.0, 1.0));
    let s = Sphere::new(Some(transformations::translation(&v3(5.0, 0.0, 0.0))), None).unwrap();
    let s = sphere_handle(s);
    let xs = Sphere::intersect(&s, &ray);
    assert_eq!(xs.len(), 0);
}

#[test]
fn a_ray_through_the_center_intersects_symmetrically() {
    let ray = Ray::new(v3(0.0, 0.0, -5.0), v3(0.0, 0.0, 1.0));
    let s = sphere_handle(unit_sphere());
    let xs = Sphere::intersect(&s, &ray);
    assert_eq!(xs.len(), 2);
    assert!(approx(to_f64(xs[0].t), 4.0));
    assert!(approx(to_f64(xs[1].t), 6.0));
    // Both hits are at distance 1 from the center's distance of 5.
    assert!(approx(5.0 - to_f64(xs[0].t), to_f64(xs[1].t) - 5.0));
}

#[test]
fn a_tangent_ray_intersects_twice_at_the_same_point() {
    let ray = Ray::new(v3(0.0, 1.0, -5.0), v3(0.0, 0.0, 1.0));
    let s = sphere_handle(unit_sphere());
    let xs = Sphere::intersect(&s, &ray);
    assert_eq!(xs.len(), 2);
    assert!(approx(to_f64(xs[0].t), 5.0));
    assert!(approx(to_f64(xs[1].t), 5.0));
}

#[test]
fn a_ray_that_misses_yields_no_intersections() {
    let ray = Ray::new(v3(0.0, 2.0, -5.0), v3(0.0, 0.0, 1.0));
    let s = sphere_handle(unit_sphere());
    let xs = Sphere::intersect(&s, &ray);
    assert_eq!(xs.len(), 0);
}

#[test]
fn a_ray_starting_inside_intersects_behind_and_ahead() {
    let ray = Ray::new(v3(0.0, 0.0, 0.0), v3(0.0, 0.0, 1.0));
    let s = sphere_handle(unit_sphere());
    let xs = Sphere::intersect(&s, &ray);
    assert_eq!(xs.len(), 2);
    assert!(approx(to_f64(xs[0].t), -1.0));
    assert!(approx(to_f64(xs[1].t), 1.0));
}

#[test]
fn the_normal_of_a_plane_is_constant_everywhere() {
    let plane = Plane::new(None, None).unwrap();
    let n1 = plane.local_normal_at(&v3(0.0, 0.0, 0.0));
    let n2 = plane.local_normal_at(&v3(10.0, 0.0, -10.0));
    let n3 = plane.local_normal_at(&v3(-5.0, 0.0, 150.0));
    assert_v3_eq(&n1, 0.0, 1.0, 0.0);
    assert_v3_eq(&n2, 0.0, 1.0, 0.0);
    assert_v3_eq(&n3, 0.0, 1.0, 0.0);
}

#[test]
fn test_intersect_with_a_ray_parallel_to_the_plane() {
    let plane = Plane::new(None, None).unwrap();
    let handle = Rc::new(Shape::Plane(plane));
    let ray = Ray::new(v3(0.0, 10.0, 0.0), v3(0.0, 0.0, 1.0));
    let xs = plane.local_intersect(&handle, &ray);
    assert!(xs.is_empty());
}

#[test]
fn test_intersect_with_a_coplanar_ray() {
    let plane = Plane::new(None, None).unwrap();
    let handle = Rc::new(Shape::Plane(plane));
    let ray = Ray::new(v3(0.0, 0.0, 0.0), v3(0.0, 0.0, 1.0));
    let xs = plane.local_intersect(&handle, &ray);
    assert!(xs.is_empty());
}

#[test]
fn test_a_ray_intersecting_a_plane_from_above() {
    let plane = Plane::new(None, None).unwrap();
    let handle = Rc::new(Shape::Plane(plane));
    let ray = Ray::new(v3(0.0, 1.0, 0.0), v3(0.0, -1.0, 0.0));
    let xs = plane.local_intersect(&handle, &ray);
    assert_eq!(xs.len(), 1);
    assert!(approx(to_f64(xs[0].t), 1.0));
    assert!(Rc::ptr_eq(&xs[0].object, &handle));
}

#[test]
fn test_a_ray_intersecting_a_plane_from_below() {
    let plane = Plane::new(None, None).unwrap();
    let handle = Rc::new(Shape::Plane(plane));
    let ray = Ray::new(v3(0.0, -1.0, 0.0), v3(0.0, 1.0, 0.0));
    let xs = plane.local_intersect(&handle, &ray);
    assert_eq!(xs.len(), 1);
    assert!(approx(to_f64(xs[0].t), 1.0));
    assert!(Rc::ptr_eq(&xs[0].object, &handle));
}

#[test]
fn an_intersection_encapsulates_t_and_object() {
    let s = sphere_handle(unit_sphere());
    let i = Intersection::new(fx(3.5), Rc::clone(&s));
    assert!(approx(to_f64(i.t), 3.5));
    assert!(Rc::ptr_eq(&i.object, &s));
}

#[test]
fn aggregating_intersections() {
    let s = sphere_handle(unit_sphere());
    let i1 = Intersection::new(fx(1.0), Rc::clone(&s));
    let i2 = Intersection::new(fx(2.0), Rc::clone(&s));
    let xs = Intersections::new(vec![i1, i2]);
    assert_eq!(xs.intersections.len(), 2);
    assert!(approx(to_f64(xs.intersections[0].t), 1.0));
    assert!(approx(to_f64(xs.intersections[1].t), 2.0));
}

#[test]
fn the_hit_is_the_lowest_nonnegative_intersection() {
    let s = sphere_handle(unit_sphere());
    let xs = Intersections::new(
        vec![
            Intersection::new(fx(5.0), Rc::clone(&s)),
            Intersection::new(fx(7.0), Rc::clone(&s)),
            Intersection::new(fx(-3.0), Rc::clone(&s)),
            Intersection::new(fx(2.0), Rc::clone(&s)),
        ],
    );
    let hit = xs.hit().unwrap();
    assert!(approx(to_f64(hit.t), 2.0));
}

#[test]
fn the_hit_when_all_intersections_are_negative() {
    let s = sphere_handle(unit_sphere());
    let xs = Intersections::new(
        vec![
            Intersection::new(fx(-2.0), Rc::clone(&s)),
            Intersection::new(fx(-1.0), Rc::clone(&s)),
        ],
    );
    assert!(xs.hit().is_none());
}

#[test]
fn precomputing_the_state_of_an_intersection() {
    let ray = Ray::new(v3(0.0, 0.0, -5.0), v3(0.0, 0.0, 1.0));
    let s = sphere_handle(unit_sphere());
    let i = Intersection::new(fx(4.0), Rc::clone(&s));
    let computations = i.prepare_computations(ray);
    assert_eq!(computations.t.n, i.t.n);
    assert!(Rc::ptr_eq(&computations.object, &s));
    assert_v3_eq(&computations.point, 0.0, 0.0, -1.0);
    assert_v3_eq(&computations.eye_vector, 0.0, 0.0, -1.0);
    assert_v3_eq(&computations.normal_vector, 0.0, 0.0, -1.0);
}

#[test]
fn test_precomputing_the_hit_when_an_intersection_happens_on_the_outside() {
    let ray = Ray::new(v3(0.0, 0.0, -5.0), v3(0.0, 0.0, 1.0));
    let s = sphere_handle(unit_sphere());
    let i = Intersection::new(fx(4.0), Rc::clone(&s));
    let computations = i.prepare_computations(ray);
    assert!(!computations.is_inside);
}

#[test]
fn test_precomputing_the_hit_when_an_intersection_happens_on_the_inside() {
    let ray = Ray::new(v3(0.0, 0.0, 0.0), v3(0.0, 0.0, 1.0));
    let s = sphere_handle(unit_sphere());
    let i = Intersection::new(fx(1.0), Rc::clone(&s));
    let computations = i.prepare_computations(ray);
    assert_v3_eq(&computations.point, 0.0, 0.0, 1.0);
    assert_v3_eq(&computations.eye_vector, 0.0, 0.0, -1.0);
    assert!(computations.is_inside);
    // The normal would have been (0, 0, 1), but is inverted.
    assert_v3_eq(&computations.normal_vector, 0.0, 0.0, -1.0);
}

#[test]
fn the_hit_should_offset_the_point() {
    let ray = Ray::new(v3(0.0, 0.0, -5.0), v3(0.0, 0.0, 1.0));
    let s = Sphere::new(Some(transformations::translation(&v3(0.0, 0.0, 1.0))), None).unwrap();
    let handle = sphere_handle(s);
    let i = Intersection::new(fx(5.0), Rc::clone(&handle));
    let computations = i.prepare_computations(ray);
    assert!(to_f64(computations.over_point.z) < -1e-5 / 2.0);
    assert!(to_f64(computations.point.z) > to_f64(computations.over_point.z));
}

#[test]
fn shapes_with_the_same_material_or_transform_are_equal() {
    let a = Shape::Sphere(unit_sphere());
    let b = Shape::Plane(Plane::new(None, None).unwrap());
    assert!(a.local_eq(&b));

    let mut odd = Material::new();
    odd.ambient = fx(0.5);
    let c = Shape::Sphere(
        Sphere::new(Some(transformations::translation(&v3(1.0, 2.0, 3.0))), Some(odd)).unwrap(),
    );
    assert!(!a.local_eq(&c));
}

#[test]
fn the_default_transformation() {
    let s = Shape::Sphere(unit_sphere());
    assert!(matrix_approx_eq(s.transform(), &Matrix::identity_4x4()));
}

#[test]
fn assigning_a_transformation() {
    let t = transformations::translation(&v3(2.0, 3.0, 4.0));
    let s = Shape::Sphere(Sphere::new(Some(t), None).unwrap());
    assert!(matrix_approx_eq(s.transform(), &transformations::translation(&v3(2.0, 3.0, 4.0))));
}

#[test]
fn test_inverse_transform() {
    let t = transformations::translation(&v3(2.0, 3.0, 4.0));
    let s = Shape::Sphere(Sphere::new(Some(t), None).unwrap());
    let expected = t.inverse().unwrap();
    assert!(matrix_approx_eq(s.inverse_transform(), &expected));
}

#[test]
fn the_default_material() {
    let s = Shape::Plane(Plane::new(None, None).unwrap());
    assert!(s.material().approx_eq(&Material::new()));
}

#[test]
fn assigning_a_material() {
    let mut m = Material::new();
    m.ambient = fx(1.0);
    let s = Shape::Plane(Plane::new(None, Some(m)).unwrap());
    assert!(s.material().approx_eq(&m));
}

#[test]
fn test_intersect_scaled_shape_with_ray() {
    let ray = Ray::new(v3(0.0, 0.0, -5.0), v3(0.0, 0.0, 1.0));
    let s = Sphere::new(Some(transformations::scaling(&v3(2.0, 2.0, 2.0))), None).unwrap();
    let handle = sphere_handle(s);
    let xs = Shape::intersect(&handle, &ray);
    assert_eq!(xs.len(), 2);
    assert!(approx(to_f64(xs[0].t), 3.0));
    assert!(approx(to_f64(xs[1].t), 7.0));
}

#[test]
fn test_intersect_translated_shape_with_ray() {
    let ray = Ray::new(v3(0.0, 0.0, -5.0), v3(0.0, 0.0, 1.0));
    let s = Sphere::new(Some(transformations::translation(&v3(5.0, 0.0, 0.0))), None).unwrap();
    let handle = sphere_handle(s);
    let xs = Shape::intersect(&handle, &ray);
    assert_eq!(xs.len(), 0);
}

#[test]
fn computing_the_normal_on_a_translated_shape() {
    let s = Shape::Sphere(
        Sphere::new(Some(transformations::translation(&v3(0.0, 1.0, 0.0))), None).unwrap(),
    );
    let n = s.normal_at(&v3(0.0, 1.70711, -0.70711));
    assert_v3_eq(&n, 0.0, 0.70711, -0.70711);
}

#[test]
fn computing_the_normal_on_a_transformed_shape() {
    let m = transformations::scaling(&v3(1.0, 0.5, 1.0)).multiply_4x4(
        &transformations::rotation_z(fx(PI / 5.0)),
    );
    let s = Shape::Sphere(Sphere::new(Some(m), None).unwrap());
    let r = 2.0f64.sqrt() / 2.0;
    let n = s.normal_at(&v3(0.0, r, -r));
    assert_v3_eq(&n, 0.0, 0.97014, -0.24254);
}
