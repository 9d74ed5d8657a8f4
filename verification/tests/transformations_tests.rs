use rust_ray_tracer::mathf::fx::Fx;
use rust_ray_tracer::mathf::matrix::Matrix;
use rust_ray_tracer::mathf::ray::Ray;
use rust_ray_tracer::mathf::shapes::matrix_approx_eq;
use rust_ray_tracer::mathf::vector3;
use rust_ray_tracer::mathf::vector3::Vector3;
use rust_ray_tracer::transformations;

fn fx(v: f64) -> Fx {
    Fx { n: (v * 1e12).round() as i128 }
}

fn v3(x: f64, y: f64, z: f64) -> Vector3 {
    vector3::new(fx(x), fx(y), fx(z))
}

fn assert_v3_eq(a: &Vector3, x: f64, y: f64, z: f64) {
    assert!(a.approx_eq(&v3(x, y, z)), "({}, {}, {}) vs ({}, {}, {})",
        a.x.n as f64 / 1e12, a.y.n as f64 / 1e12, a.z.n as f64 / 1e12, x, y, z);
}

fn entry(m: &Matrix, r: usize, c: usize) -> f64 {
    m.data[r].columns[c].n as f64 / 1e12
}

const PI: f64 = std::f64::consts::PI;

#[test]
fn test_multiplying_by_a_translation_matrix() {
    let transform = transformations::translation(&v3(5.0, -3.0, 2.0));
    let result = transform.multiply_point(&v3(-3.0, 4.0, 5.0));
    assert_v3_eq(&result, 2.0, 1.0, 7.0);
}

#[test]
fn test_multiplying_by_the_inverse_of_a_translation_matrix() {
    let transform = transformations::translation(&v3(5.0, -3.0, 2.0));
    let inv = transform.inverse().unwrap();
    let result = inv.multiply_point(&v3(-3.0, 4.0, 5.0));
    assert_v3_eq(&result, -8.0, 7.0, 3.0);
}

#[test]
fn translating_a_vector_leaves_it_unchanged() {
    let transform = transformations::translation(&v3(5.0, -3.0, 2.0));
    let vector = v3(-3.0, 4.0, 5.0);
    let result = transform.multiply_vector(&vector);
    assert_eq!(result.x, vector.x);
    assert_eq!(result.y, vector.y);
    assert_eq!(result.z, vector.z);
}

#[test]
fn test_multiplying_by_a_scaling_matrix() {
    let transform = transformations::scaling(&v3(2.0, 3.0, 4.0));
    let result = transform.multiply_point(&v3(-4.0, 6.0, 8.0));
    assert_v3_eq(&result, -8.0, 18.0, 32.0);
}

#[test]
fn test_multiplying_by_the_inverse_of_a_scaling_matrix() {
    let transform = transformations::scaling(&v3(2.0, 3.0, 4.0));
    let inv = transform.inverse().unwrap();
    let result = inv.multiply_point(&v3(-4.0, 6.0, 8.0));
    assert_v3_eq(&result, -2.0, 2.0, 2.0);
}

#[test]
fn test_reflection_is_scaling_by_a_negative_value() {
    let transform = transformations::scaling(&v3(-1.0, 1.0, 1.0));
    let result = transform.multiply_point(&v3(2.0, 3.0, 4.0));
    assert_v3_eq(&result, -2.0, 3.0, 4.0);
}

#[test]
fn test_rotate_around_x_axis() {
    let point = v3(0.0, 1.0, 0.0);
    let half_quarter = transformations::rotation_x(fx(PI / 4.0));
    let full_quarter = transformations::rotation_x(fx(PI / 2.0));

    let r = 2.0f64.sqrt() / 2.0;
    assert_v3_eq(&half_quarter.multiply_point(&point), 0.0, r, r);
    assert_v3_eq(&full_quarter.multiply_point(&point), 0.0, 0.0, 1.0);
}

#[test]
fn test_inverse_of_rotate_around_x_axis_rotates_in_the_opposite_direction() {
    let point = v3(0.0, 1.0, 0.0);
    let half_quarter = transformations::rotation_x(fx(PI / 4.0));
    let inv = half_quarter.inverse().unwrap();
    let r = 2.0f64.sqrt() / 2.0;
    assert_v3_eq(&inv.multiply_point(&point), 0.0, r, -r);
}

#[test]
fn test_rotate_around_y_axis() {
    let point = v3(0.0, 0.0, 1.0);
    let half_quarter = transformations::rotation_y(fx(PI / 4.0));
    let full_quarter = transformations::rotation_y(fx(PI / 2.0));

    let r = 2.0f64.sqrt() / 2.0;
    assert_v3_eq(&half_quarter.multiply_point(&point), r, 0.0, r);
    assert_v3_eq(&full_quarter.multiply_point(&point), 1.0, 0.0, 0.0);
}

#[test]
fn test_rotate_around_z_axis() {
    let point = v3(0.0, 1.0, 0.0);
    let half_quarter = transformations::rotation_z(fx(PI / 4.0));
    let full_quarter = transformations::rotation_z(fx(PI / 2.0));

    let r = 2.0f64.sqrt() / 2.0;
    assert_v3_eq(&half_quarter.multiply_point(&point), -r, r, 0.0);
    assert_v3_eq(&full_quarter.multiply_point(&point), -1.0, 0.0, 0.0);
}

#[test]
fn a_shearing_transformation_moves_x_in_proportion_to_y() {
    let transform = transformations::shearing(fx(1.0), fx(0.0), fx(0.0), fx(0.0), fx(0.0), fx(0.0));
    assert_v3_eq(&transform.multiply_point(&v3(2.0, 3.0, 4.0)), 5.0, 3.0, 4.0);
}

#[test]
fn a_shearing_transformation_moves_x_in_proportion_to_z() {
    let transform = transformations::shearing(fx(0.0), fx(1.0), fx(0.0), fx(0.0), fx(0.0), fx(0.0));
    assert_v3_eq(&transform.multiply_point(&v3(2.0, 3.0, 4.0)), 6.0, 3.0, 4.0);
}

#[test]
fn a_shearing_transformation_moves_y_in_proportion_to_x() {
    let transform = transformations::shearing(fx(0.0), fx(0.0), fx(1.0), fx(0.0), fx(0.0), fx(0.0));
    assert_v3_eq(&transform.multiply_point(&v3(2.0, 3.0, 4.0)), 2.0, 5.0, 4.0);
}

#[test]
fn a_shearing_transformation_moves_y_in_proportion_to_z() {
    let transform = transformations::shearing(fx(0.0), fx(0.0), fx(0.0), fx(1.0), fx(0.0), fx(0.0));
    assert_v3_eq(&transform.multiply_point(&v3(2.0, 3.0, 4.0)), 2.0, 7.0, 4.0);
}

#[test]
fn a_shearing_transformation_moves_z_in_proportion_to_x() {
    let transform = transformations::shearing(fx(0.0), fx(0.0), fx(0.0), fx(0.0), fx(1.0), fx(0.0));
    assert_v3_eq(&transform.multiply_point(&v3(2.0, 3.0, 4.0)), 2.0, 3.0, 6.0);
}

#[test]
fn a_shearing_transformation_moves_z_in_proportion_to_y() {
    let transform = transformations::shearing(fx(0.0), fx(0.0), fx(0.0), fx(0.0), fx(0.0), fx(1.0));
    assert_v3_eq(&transform.multiply_point(&v3(2.0, 3.0, 4.0)), 2.0, 3.0, 7.0);
}

#[test]
fn individual_transformations_are_applied_in_sequence() {
    let point = v3(1.0, 0.0, 1.0);
    let rotation = transformations::rotation_x(fx(PI / 2.0));
    let scaling = transformations::scaling(&v3(5.0, 5.0, 5.0));
    let translation = transformations::translation(&v3(10.0, 5.0, 7.0));

    let p2 = rotation.multiply_point(&point);
    assert_v3_eq(&p2, 1.0, -1.0, 0.0);

    let p3 = scaling.multiply_point(&p2);
    assert_v3_eq(&p3, 5.0, -5.0, 0.0);

    let p4 = translation.multiply_point(&p3);
    assert_v3_eq(&p4, 15.0, 0.0, 7.0);
}

#[test]
fn chained_transformations_must_be_applied_in_reverse_order() {
    let point = v3(1.0, 0.0, 1.0);
    let rotation = transformations::rotation_x(fx(PI / 2.0));
    let scaling = transformations::scaling(&v3(5.0, 5.0, 5.0));
    let translation = transformations::translation(&v3(10.0, 5.0, 7.0));

    let transform = translation.multiply_4x4(&scaling).multiply_4x4(&rotation);
    assert_v3_eq(&transform.multiply_point(&point), 15.0, 0.0, 7.0);
}

#[test]
fn a_transform_chain_composed_with_an_inverse_factor_reduces() {
    let a = transformations::translation(&v3(10.0, 5.0, 7.0));
    let b = transformations::rotation_x(fx(PI / 2.0));
    let ab = a.multiply_4x4(&b);
    let recovered = ab.multiply_4x4(&b.inverse().unwrap());
    assert!(matrix_approx_eq(&recovered, &a));
}

#[test]
fn test_the_view_transformation_matrix_for_the_default_orientation() {
    let transform = transformations::view_transform(v3(0.0, 0.0, 0.0), v3(0.0, 0.0, -1.0), v3(0.0, 1.0, 0.0));
    assert!(matrix_approx_eq(&transform, &Matrix::identity_4x4()));
}

#[test]
fn a_view_transformation_matrix_looking_in_the_positive_z_direction() {
    let transform = transformations::view_transform(v3(0.0, 0.0, 0.0), v3(0.0, 0.0, 1.0), v3(0.0, 1.0, 0.0));
    let expected = transformations::scaling(&v3(-1.0, 1.0, -1.0));
    assert!(matrix_approx_eq(&transform, &expected));
}

#[test]
fn a_view_transformation_moves_the_world() {
    let transform = transformations::view_transform(v3(0.0, 0.0, 8.0), v3(0.0, 0.0, 0.0), v3(0.0, 1.0, 0.0));
    let expected = transformations::translation(&v3(0.0, 0.0, -8.0));
    assert!(matrix_approx_eq(&transform, &expected));
}

#[test]
fn an_arbitrary_view_transformation() {
    let transform = transformations::view_transform(v3(1.0, 3.0, 2.0), v3(4.0, -2.0, 8.0), v3(1.0, 1.0, 0.0));
    let expected: [[f64; 4]; 4] = [
        [-0.50709, 0.50709, 0.67612, -2.36643],
        [0.76772, 0.60609, 0.12122, -2.82843],
        [-0.35857, 0.59761, -0.71714, 0.00000],
        [0.00000, 0.00000, 0.00000, 1.00000],
    ];
    for r in 0..4 {
        for c in 0..4 {
            assert!((entry(&transform, r, c) - expected[r][c]).abs() < 1e-5);
        }
    }
}

#[test]
fn it_creates_a_ray() {
    let ray = Ray::new(v3(1.0, 2.0, 3.0), v3(4.0, 5.0, 6.0));
    assert_v3_eq(&ray.origin, 1.0, 2.0, 3.0);
    assert_v3_eq(&ray.direction, 4.0, 5.0, 6.0);
}

#[test]
fn test_ray_position() {
    let ray = Ray::new(v3(2.0, 3.0, 4.0), v3(1.0, 0.0, 0.0));
    assert_v3_eq(&ray.position(fx(0.0)), 2.0, 3.0, 4.0);
    assert_v3_eq(&ray.position(fx(1.0)), 3.0, 3.0, 4.0);
    assert_v3_eq(&ray.position(fx(-1.0)), 1.0, 3.0, 4.0);
    assert_v3_eq(&ray.position(fx(2.5)), 4.5, 3.0, 4.0);
}

#[test]
fn test_translating_a_ray() {
    let ray = Ray::new(v3(1.0, 2.0, 3.0), v3(0.0, 1.0, 0.0));
    let matrix = transformations::translation(&v3(3.0, 4.0, 5.0));
    let result = ray.transform(&matrix);
    assert_v3_eq(&result.origin, 4.0, 6.0, 8.0);
    assert_v3_eq(&result.direction, 0.0, 1.0, 0.0);
}

#[test]
fn test_scaling_a_ray() {
    let ray = Ray::new(v3(1.0, 2.0, 3.0), v3(0.0, 1.0, 0.0));
    let matrix = transformations::scaling(&v3(2.0, 3.0, 4.0));
    let result = ray.transform(&matrix);
    assert_v3_eq(&result.origin, 2.0, 6.0, 12.0);
    assert_v3_eq(&result.direction, 0.0, 3.0, 0.0);
}
