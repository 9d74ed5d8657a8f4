//! Phong shading: ambient, diffuse and specular terms, gated by a shadow
//! flag.

use vstd::prelude::*;
use crate::color;
use crate::color::Color;
use crate::material::Material;
use crate::mathf::fx;
use crate::mathf::fx::Fx;
use crate::mathf::sphere;
use crate::mathf::vector3;
use crate::mathf::vector3::Vector3;
use crate::point_light::PointLight;

verus! {

/// The Phong exponent: the whole part of the material's shininess.
pub open spec fn shininess_exp_s(m: Material) -> nat {
    fx::div_trunc(m.shininess@, fx::SCALE as int) as nat
}

/// The Phong shading equation.  The surface color modulates the light; the
/// ambient term always contributes; in shadow the rest is suppressed; the
/// diffuse term scales with the light's angle to the normal; the specular
/// term scales with the reflection's angle to the eye, raised to the
/// shininess exponent.
pub open spec fn lighting_s(
    material: Material,
    light: PointLight,
    point: Vector3,
    eye_vector: Vector3,
    normal_vector: Vector3,
    in_shadow: bool,
) -> Color {
    let effective_color = color::hadamard_c(material.color, light.intensity);
    let ambient = color::scale_c(effective_color, material.ambient@);
    if in_shadow {
        ambient
    } else {
        let light_vector = vector3::norm_v(vector3::sub_v(light.position, point));
        let light_dot_normal = vector3::dot_s(light_vector, normal_vector);
        let diffuse = if light_dot_normal < 0 {
            color::black_s()
        } else {
            color::scale_c(color::scale_c(effective_color, material.diffuse@), light_dot_normal)
        };
        let specular = if light_dot_normal < 0 {
            color::black_s()
        } else {
            let reflect_vector = sphere::reflect_s(vector3::neg_v(light_vector), normal_vector);
            let reflect_dot_eye = vector3::dot_s(reflect_vector, eye_vector);
            if reflect_dot_eye <= 0 {
                color::black_s()
            } else {
                let factor = fx::pow_s(reflect_dot_eye, shininess_exp_s(material));
                color::scale_c(color::scale_c(light.intensity, material.specular@), factor)
            }
        };
        color::add_c(color::add_c(ambient, diffuse), specular)
    }
}

/// Evaluates the Phong shading equation for one light.
pub fn lighting(
    material: &Material,
    light: &PointLight,
    point: &Vector3,
    eye_vector: &Vector3,
    normal_vector: &Vector3,
    in_shadow: bool,
) -> (r: Color)
    requires
        material.wf(),
        light.wf(),
        point.wf(),
        eye_vector.wf(),
        normal_vector.wf(),
    ensures
        r.wf(),
        r == lighting_s(*material, *light, *point, *eye_vector, *normal_vector, in_shadow),
{
    let diffuse: Color;
    let specular: Color;

    // Combine the surface color with the light's color/intensity.
    let effective_color = material.color.multiply_color(&light.intensity);

    // The ambient contribution survives even in shadow.
    let ambient = effective_color.multiply_scalar(material.ambient);

    if in_shadow {
        return ambient;
    }

    // The direction to the light source.
    let light_vector = light.position.sub(point).normalize();

    // The cosine of the angle between the light vector and the normal; a
    // negative value means the light is on the other side of the surface.
    let light_dot_normal = light_vector.dot(normal_vector);

    if light_dot_normal.n < 0 {
        diffuse = color::black();
        specular = color::black();
    } else {
        diffuse = effective_color.multiply_scalar(material.diffuse).multiply_scalar(
            light_dot_normal,
        );

        // The cosine of the angle between the reflection vector and the
        // eye; a nonpositive value means the light reflects away.
        let reflect_vector = sphere::reflect(&light_vector.neg(), normal_vector);
        let reflect_dot_eye = reflect_vector.dot(eye_vector);

        if reflect_dot_eye.n <= 0 {
            specular = color::black();
        } else {
            let factor = reflect_dot_eye.powi(material.shininess.int_part_u32());
            specular = light.intensity.multiply_scalar(material.specular).multiply_scalar(factor);
        }
    }

    ambient.add(diffuse).add(specular)
}

} // verus!
