//! The infinite plane through the origin of its own coordinate frame with
//! normal (0, 1, 0), carried into the scene by its transform.

use vstd::prelude::*;
use std::rc::Rc;
use crate::material::Material;
use crate::mathf::fx;
use crate::mathf::fx::Fx;
use crate::mathf::intersection::Intersection;
use crate::mathf::matrix;
use crate::mathf::matrix::Matrix;
use crate::mathf::matrix::NotInvertibleError;
use crate::mathf::ray::Ray;
use crate::mathf::shapes;
use crate::mathf::shapes::Shape;
use crate::mathf::vector3;
use crate::mathf::vector3::Vector3;

verus! {

#[derive(Clone, Copy, Debug)]
pub struct Plane {
    pub material: Material,
    pub transform: Matrix,
    pub inverse_transform: Matrix,
}

/// The intersection distances of a ray in plane object space: empty when
/// the ray is parallel within tolerance, else the single root
/// `-origin.y / direction.y`.
pub open spec fn plane_local_ts(r: Ray) -> Seq<int> {
    if fx::abs_s(r.direction.y@) < fx::EPSILON as int {
        Seq::empty()
    } else {
        seq![fx::div_s(fx::neg_s(r.origin.y@), r.direction.y@)]
    }
}

/// The constant local normal of the plane.
pub open spec fn plane_normal_s() -> Vector3 {
    Vector3 { x: fx::fx(0), y: fx::fx(fx::SCALE as int), z: fx::fx(0) }
}

impl Plane {
    /// The transform is invertible and its inverse is the cached one.
    pub open spec fn wf(self) -> bool {
        self.material.wf() && self.transform.wf() && self.transform.size == 4
            && self.inverse_transform.wf() && self.inverse_transform.size == 4
            && fx::abs_s(matrix::det_s(matrix::grid(self.transform))) >= fx::EPSILON as int
            && matrix::grid(self.inverse_transform) == matrix::inv_g(matrix::grid(self.transform))
    }

    /// Builds a plane with the given transform (identity when absent) and
    /// material (the default when absent), caching the inverse transform.
    /// Fails when the transform is not invertible.
    pub fn new(transform: Option<Matrix>, material: Option<Material>) -> (r: Result<
        Plane,
        NotInvertibleError,
    >)
        requires
            transform matches Some(t) ==> t.wf() && t.size == 4,
            material matches Some(m) ==> m.wf(),
        ensures
            r is Err <==> (transform matches Some(t) && fx::abs_s(matrix::det_s(matrix::grid(t)))
                < fx::EPSILON as int),
            r matches Ok(p) ==> {
                &&& p.wf()
                &&& (material matches Some(m) ==> p.material == m)
                &&& (material is None ==> p.material == crate::material::default_material_s())
                &&& (transform matches Some(t) ==> p.transform == t)
                &&& (transform is None ==> p.transform.size == 4 && forall|i: int, j: int|
                    0 <= i < 4 && 0 <= j < 4 ==> matrix::at(p.transform, i, j)
                        == matrix::identity_at(i, j))
            },
    {
        let t: Matrix = match transform {
            None => Matrix::identity_4x4(),
            Some(x) => x,
        };
        let mat: Material = match material {
            None => Material::new(),
            Some(x) => x,
        };
        proof {
            if transform is None {
                matrix::lemma_identity_like_det(t);
            }
        }
        match t.inverse() {
            Err(e) => Err(e),
            Ok(inverse_transform) => Ok(Plane { material: mat, transform: t, inverse_transform }),
        }
    }

    pub fn material(&self) -> (m: &Material)
        ensures
            *m == self.material,
    {
        &self.material
    }

    pub fn transform(&self) -> (m: &Matrix)
        ensures
            *m == self.transform,
    {
        &self.transform
    }

    pub fn inverse_transform(&self) -> (m: &Matrix)
        ensures
            *m == self.inverse_transform,
    {
        &self.inverse_transform
    }

    /// The plane's normal, the same everywhere: (0, 1, 0).
    pub fn local_normal_at(&self, _object_point: &Vector3) -> (r: Vector3)
        ensures
            r.wf(),
            r == plane_normal_s(),
    {
        vector3::new(Fx { n: 0 }, Fx { n: fx::SCALE }, Fx { n: 0 })
    }

    /// Intersects a ray given in plane object space with the plane: a ray
    /// parallel within tolerance misses, any other meets it once.
    pub fn local_intersect(&self, handle: &Rc<Shape>, object_ray: &Ray) -> (r: Vec<Intersection>)
        requires
            object_ray.wf(),
            (**handle).wf(),
        ensures
            r@.len() == plane_local_ts(*object_ray).len(),
            forall|i: int|
                0 <= i < r@.len() ==> (#[trigger] r@[i]).t@ == plane_local_ts(*object_ray)[i]
                    && r@[i].object == *handle && r@[i].wf(),
    {
        let mut result: Vec<Intersection> = Vec::new();
        if object_ray.direction.y.abs().n < fx::EPSILON {
            return result;
        }
        let t = object_ray.origin.y.neg().div(object_ray.direction.y);
        result.push(Intersection::new(t, shapes::clone_shape_handle(handle)));
        result
    }
}

} // verus!
