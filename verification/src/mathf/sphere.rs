//! The unit sphere centered at the origin of its own coordinate frame,
//! carried into the scene by its transform.

use vstd::prelude::*;
use std::rc::Rc;
use crate::material::Material;
use crate::mathf::fx;
use crate::mathf::fx::Fx;
use crate::mathf::intersection::Intersection;
use crate::mathf::matrix;
use crate::mathf::matrix::Matrix;
use crate::mathf::matrix::NotInvertibleError;
use crate::mathf::ray::Ray;
use crate::mathf::shapes;
use crate::mathf::shapes::Shape;
use crate::mathf::vector3;
use crate::mathf::vector3::Vector3;

verus! {

#[derive(Clone, Copy, Debug)]
pub struct Sphere {
    pub material: Material,
    pub transform: Matrix,
    pub inverse_transform: Matrix,
}

/// Reflects `vector` about `normal`: `v - n * 2 * (v . n)`.
pub open spec fn reflect_s(vector: Vector3, normal: Vector3) -> Vector3 {
    vector3::sub_v(
        vector,
        vector3::scale_v(
            vector3::scale_v(normal, 2 * (fx::SCALE as int)),
            vector3::dot_s(vector, normal),
        ),
    )
}

/// Reflects a vector about a surface normal.
pub fn reflect(vector: &Vector3, normal: &Vector3) -> (r: Vector3)
    requires
        vector.wf(),
        normal.wf(),
    ensures
        r.wf(),
        r == reflect_s(*vector, *normal),
{
    vector.sub(&normal.mul(Fx { n: 2_000_000_000_000 }).mul(vector.dot(normal)))
}

/// The two intersection distances of a ray with the unit sphere, solving
/// `|O + tD|^2 = 1`; `None` when the discriminant is negative (a miss) or
/// the direction is too short to measure (a degenerate ray, also a miss).
pub open spec fn sphere_ts_s(r: Ray) -> Option<(int, int)> {
    let sphere_to_ray = vector3::sub_v(r.origin, vector3::zero_v());
    let a = vector3::dot_s(r.direction, r.direction);
    let b = fx::mul_s(2 * (fx::SCALE as int), vector3::dot_s(r.direction, sphere_to_ray));
    let c = fx::sub_s(vector3::dot_s(sphere_to_ray, sphere_to_ray), fx::SCALE as int);
    let discriminant = fx::sub_s(
        fx::mul_s(b, b),
        fx::mul_s(fx::mul_s(4 * (fx::SCALE as int), a), c),
    );
    let denom = fx::mul_s(2 * (fx::SCALE as int), a);
    if discriminant < 0 || denom == 0 {
        None
    } else {
        let root = fx::sqrt_s(discriminant);
        Some(
            (
                fx::div_s(fx::sub_s(fx::neg_s(b), root), denom),
                fx::div_s(fx::add_s(fx::neg_s(b), root), denom),
            ),
        )
    }
}

/// The intersection distances of a ray in sphere object space, in
/// ascending order: empty on a miss, two otherwise.
pub open spec fn sphere_local_ts(r: Ray) -> Seq<int> {
    match sphere_ts_s(r) {
        None => Seq::empty(),
        Some((t1, t2)) => seq![t1, t2],
    }
}

impl Sphere {
    /// The transform is invertible and its inverse is the cached one.
    pub open spec fn wf(self) -> bool {
        self.material.wf() && self.transform.wf() && self.transform.size == 4
            && self.inverse_transform.wf() && self.inverse_transform.size == 4
            && fx::abs_s(matrix::det_s(matrix::grid(self.transform))) >= fx::EPSILON as int
            && matrix::grid(self.inverse_transform) == matrix::inv_g(matrix::grid(self.transform))
    }

    /// Builds a sphere with the given transform (identity when absent) and
    /// material (the default when absent), caching the inverse transform.
    /// Fails when the transform is not invertible.
    pub fn new(transform: Option<Matrix>, material: Option<Material>) -> (r: Result<
        Sphere,
        NotInvertibleError,
    >)
        requires
            transform matches Some(t) ==> t.wf() && t.size == 4,
            material matches Some(m) ==> m.wf(),
        ensures
            r is Err <==> (transform matches Some(t) && fx::abs_s(matrix::det_s(matrix::grid(t)))
                < fx::EPSILON as int),
            r matches Ok(s) ==> {
                &&& s.wf()
                &&& (material matches Some(m) ==> s.material == m)
                &&& (material is None ==> s.material == crate::material::default_material_s())
                &&& (transform matches Some(t) ==> s.transform == t)
                &&& (transform is None ==> s.transform.size == 4 && forall|i: int, j: int|
                    0 <= i < 4 && 0 <= j < 4 ==> matrix::at(s.transform, i, j)
                        == matrix::identity_at(i, j))
            },
    {
        let t: Matrix = match transform {
            None => Matrix::identity_4x4(),
            Some(x) => x,
        };
        let mat: Material = match material {
            None => Material::new(),
            Some(x) => x,
        };
        proof {
            if transform is None {
                matrix::lemma_identity_like_det(t);
            }
        }
        match t.inverse() {
            Err(e) => Err(e),
            Ok(inverse_transform) => Ok(Sphere { material: mat, transform: t, inverse_transform }),
        }
    }

    pub fn material(&self) -> (m: &Material)
        ensures
            *m == self.material,
    {
        &self.material
    }

    pub fn transform(&self) -> (m: &Matrix)
        ensures
            *m == self.transform,
    {
        &self.transform
    }

    pub fn inverse_transform(&self) -> (m: &Matrix)
        ensures
            *m == self.inverse_transform,
    {
        &self.inverse_transform
    }

    /// The normal of the unit sphere at a point on it: the point itself,
    /// as a vector from the origin.
    pub fn local_normal_at(&self, object_point: &Vector3) -> (r: Vector3)
        requires
            object_point.wf(),
        ensures
            r.wf(),
            r == vector3::sub_v(*object_point, vector3::zero_v()),
    {
        object_point.sub(&vector3::new(Fx { n: 0 }, Fx { n: 0 }, Fx { n: 0 }))
    }

    /// The world-space normal at a world-space point: into object space by
    /// the inverse transform, the local normal there, back by the
    /// transpose of the inverse, normalized.
    pub fn normal_at(&self, world_point: &Vector3) -> (r: Vector3)
        requires
            self.wf(),
            world_point.wf(),
        ensures
            r.wf(),
            r == shapes::lift_normal_s(
                self.inverse_transform,
                vector3::sub_v(
                    matrix::mul_point_s(self.inverse_transform, *world_point),
                    vector3::zero_v(),
                ),
            ),
    {
        let object_point = self.inverse_transform.multiply_point(world_point);
        let object_normal = self.local_normal_at(&object_point);
        let world_normal = self.inverse_transform.transpose().multiply_vector(&object_normal);
        world_normal.normalize()
    }

    /// Intersects a ray given in sphere object space with the unit sphere,
    /// wrapping each root with the given shape handle.
    pub fn local_intersect(&self, handle: &Rc<Shape>, object_ray: &Ray) -> (r: Vec<Intersection>)
        requires
            object_ray.wf(),
            (**handle).wf(),
        ensures
            r@.len() == sphere_local_ts(*object_ray).len(),
            forall|i: int|
                0 <= i < r@.len() ==> (#[trigger] r@[i]).t@ == sphere_local_ts(*object_ray)[i]
                    && r@[i].object == *handle && r@[i].wf(),
            sphere_ts_s(*object_ray) matches Some((t1, t2)) ==> t1 <= t2,
    {
        let two: Fx = Fx { n: 2_000_000_000_000 };
        let four: Fx = Fx { n: 4_000_000_000_000 };
        let sphere_to_ray = object_ray.origin.sub(
            &vector3::new(Fx { n: 0 }, Fx { n: 0 }, Fx { n: 0 }),
        );
        let a = object_ray.direction.dot(&object_ray.direction);
        let b = two.mul(object_ray.direction.dot(&sphere_to_ray));
        let c = sphere_to_ray.dot(&sphere_to_ray).sub(Fx { n: fx::SCALE });
        let discriminant = b.mul(b).sub(four.mul(a).mul(c));
        let denom = two.mul(a);
        let mut result: Vec<Intersection> = Vec::new();
        if discriminant.n < 0 || denom.n == 0 {
            return result;
        }
        let disc_root = discriminant.sqrt();
        let t1 = b.neg().sub(disc_root).div(denom);
        let t2 = b.neg().add(disc_root).div(denom);
        proof {
            vector3::lemma_dot_self_nonneg(object_ray.direction);
            fx::lemma_mul_s_nonneg(2 * (fx::SCALE as int), a@);
            fx::lemma_div_trunc_ordered(
                fx::sub_s(fx::neg_s(b@), disc_root@) * (fx::SCALE as int),
                fx::add_s(fx::neg_s(b@), disc_root@) * (fx::SCALE as int),
                denom@,
            );
        }
        result.push(Intersection::new(t1, shapes::clone_shape_handle(handle)));
        result.push(Intersection::new(t2, shapes::clone_shape_handle(handle)));
        result
    }

    /// Intersects a world-space ray with a sphere held behind a shape
    /// handle: the ray is carried into object space by the cached inverse
    /// transform first.
    pub fn intersect(handle: &Rc<Shape>, world_ray: &Ray) -> (r: Vec<Intersection>)
        requires
            (**handle).wf(),
            (**handle) is Sphere,
            world_ray.wf(),
        ensures
            r@.len() == (**handle).world_ts(*world_ray).len(),
            forall|i: int|
                0 <= i < r@.len() ==> (#[trigger] r@[i]).t@ == (**handle).world_ts(*world_ray)[i]
                    && r@[i].object == *handle && r@[i].wf(),
    {
        Shape::intersect(handle, world_ray)
    }
}

} // verus!
