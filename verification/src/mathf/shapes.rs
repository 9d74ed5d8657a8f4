//! The closed set of shape variants and the world-space logic they share:
//! rays are carried into object space by each shape's cached inverse
//! transform, and normals are lifted back by its transpose.

use vstd::prelude::*;
use std::rc::Rc;
use crate::material::Material;
use crate::mathf::fx;
use crate::mathf::intersection::Intersection;
use crate::mathf::matrix;
use crate::mathf::matrix::Matrix;
use crate::mathf::plane;
use crate::mathf::plane::Plane;
use crate::mathf::ray;
use crate::mathf::ray::Ray;
use crate::mathf::sphere;
use crate::mathf::sphere::Sphere;
use crate::mathf::vector3;
use crate::mathf::vector3::Vector3;

verus! {

/// A shape of the scene: each variant owns its transform, the cached
/// inverse, and a material.
#[derive(Clone, Copy, Debug)]
pub enum Shape {
    Sphere(Sphere),
    Plane(Plane),
}

/// Relies on std's `Rc::clone`: the returned handle shares the same
/// allocation, so its value equals the argument's.
#[verifier::external_body]
pub fn clone_shape_handle(handle: &Rc<Shape>) -> (r: Rc<Shape>)
    ensures
        r == *handle,
{
    Rc::clone(handle)
}

/// Lifts an object-space normal to world space: the transpose of the
/// inverse transform applied as a vector, then normalized.
pub open spec fn lift_normal_s(inverse_transform: Matrix, local_normal: Vector3) -> Vector3 {
    vector3::norm_v(matrix::mul_vec_transposed_s(inverse_transform, local_normal))
}

impl Shape {
    pub open spec fn wf(self) -> bool {
        match self {
            Shape::Sphere(s) => s.wf(),
            Shape::Plane(p) => p.wf(),
        }
    }

    pub open spec fn material_s(self) -> Material {
        match self {
            Shape::Sphere(s) => s.material,
            Shape::Plane(p) => p.material,
        }
    }

    pub open spec fn transform_m(self) -> Matrix {
        match self {
            Shape::Sphere(s) => s.transform,
            Shape::Plane(p) => p.transform,
        }
    }

    pub open spec fn inverse_m(self) -> Matrix {
        match self {
            Shape::Sphere(s) => s.inverse_transform,
            Shape::Plane(p) => p.inverse_transform,
        }
    }

    /// The intersection distances of a ray given in the shape's own
    /// coordinate frame.
    pub open spec fn local_ts(self, object_ray: Ray) -> Seq<int> {
        match self {
            Shape::Sphere(_) => sphere::sphere_local_ts(object_ray),
            Shape::Plane(_) => plane::plane_local_ts(object_ray),
        }
    }

    /// The intersection distances of a world-space ray: the ray carried
    /// into object space by the cached inverse transform first.
    pub open spec fn world_ts(self, world_ray: Ray) -> Seq<int> {
        self.local_ts(ray::transform_s(world_ray, self.inverse_m()))
    }

    /// The shape's normal in its own coordinate frame at an object-space
    /// point.
    pub open spec fn local_normal_s(self, object_point: Vector3) -> Vector3 {
        match self {
            Shape::Sphere(_) => vector3::sub_v(object_point, vector3::zero_v()),
            Shape::Plane(_) => plane::plane_normal_s(),
        }
    }

    /// The world-space normal at a world-space point.
    pub open spec fn normal_at_s(self, world_point: Vector3) -> Vector3 {
        lift_normal_s(
            self.inverse_m(),
            self.local_normal_s(matrix::mul_point_s(self.inverse_m(), world_point)),
        )
    }

    pub fn material(&self) -> (m: &Material)
        ensures
            *m == self.material_s(),
    {
        match self {
            Shape::Sphere(s) => s.material(),
            Shape::Plane(p) => p.material(),
        }
    }

    pub fn transform(&self) -> (m: &Matrix)
        ensures
            *m == self.transform_m(),
    {
        match self {
            Shape::Sphere(s) => s.transform(),
            Shape::Plane(p) => p.transform(),
        }
    }

    pub fn inverse_transform(&self) -> (m: &Matrix)
        ensures
            *m == self.inverse_m(),
    {
        match self {
            Shape::Sphere(s) => s.inverse_transform(),
            Shape::Plane(p) => p.inverse_transform(),
        }
    }

    /// The shape's normal in its own coordinate frame.
    pub fn local_normal_at(&self, object_point: &Vector3) -> (r: Vector3)
        requires
            object_point.wf(),
        ensures
            r.wf(),
            r == self.local_normal_s(*object_point),
    {
        match self {
            Shape::Sphere(s) => s.local_normal_at(object_point),
            Shape::Plane(p) => p.local_normal_at(object_point),
        }
    }

    /// Intersects a ray given in the shape's own coordinate frame,
    /// wrapping each distance with the given shape handle.
    pub fn local_intersect(&self, handle: &Rc<Shape>, object_ray: &Ray) -> (r: Vec<Intersection>)
        requires
            object_ray.wf(),
            (**handle).wf(),
        ensures
            r@.len() == self.local_ts(*object_ray).len(),
            forall|i: int|
                0 <= i < r@.len() ==> (#[trigger] r@[i]).t@ == self.local_ts(*object_ray)[i]
                    && r@[i].object == *handle && r@[i].wf(),
    {
        match self {
            Shape::Sphere(s) => s.local_intersect(handle, object_ray),
            Shape::Plane(p) => p.local_intersect(handle, object_ray),
        }
    }

    /// Intersects a world-space ray with the shape behind the handle: the
    /// ray is carried into object space by the cached inverse transform,
    /// and the object-space roots are wrapped with the handle.
    pub fn intersect(handle: &Rc<Shape>, world_ray: &Ray) -> (r: Vec<Intersection>)
        requires
            (**handle).wf(),
            world_ray.wf(),
        ensures
            r@.len() == (**handle).world_ts(*world_ray).len(),
            forall|i: int|
                0 <= i < r@.len() ==> (#[trigger] r@[i]).t@ == (**handle).world_ts(*world_ray)[i]
                    && r@[i].object == *handle && r@[i].wf(),
    {
        let object_ray = world_ray.transform(handle.inverse_transform());
        (**handle).local_intersect(handle, &object_ray)
    }

    /// The world-space normal at a world-space point: into object space by
    /// the cached inverse transform, the local normal there, back by the
    /// transpose of the inverse, normalized.
    pub fn normal_at(&self, world_point: &Vector3) -> (r: Vector3)
        requires
            self.wf(),
            world_point.wf(),
        ensures
            r.wf(),
            r == self.normal_at_s(*world_point),
    {
        let object_point = self.inverse_transform().multiply_point(world_point);
        let object_normal = self.local_normal_at(&object_point);
        let world_normal = self.inverse_transform().transpose().multiply_vector(&object_normal);
        world_normal.normalize()
    }

    /// Structural shape equality as the scene model defines it: two shapes
    /// are equal when their materials agree or their transforms agree,
    /// within tolerance (a deliberately loose criterion).
    pub fn local_eq(&self, other: &Shape) -> (r: bool)
        requires
            self.wf(),
            other.wf(),
        ensures
            r == (crate::material::approx_m(self.material_s(), other.material_s())
                || approx_mat(self.transform_m(), other.transform_m())),
    {
        if self.material().approx_eq(other.material()) {
            true
        } else {
            matrix_approx_eq(self.transform(), other.transform())
        }
    }
}

/// Entrywise approximate equality of the two 4 x 4 grids.
pub open spec fn approx_mat(a: Matrix, b: Matrix) -> bool {
    forall|r: int, c: int|
        0 <= r < 4 && 0 <= c < 4 ==> fx::abs_s(
            fx::sub_s(#[trigger] matrix::at(a, r, c), matrix::at(b, r, c)),
        ) < fx::EPSILON as int
}

/// Entrywise approximate equality of two matrices' 4 x 4 grids.
pub fn matrix_approx_eq(a: &Matrix, b: &Matrix) -> (r: bool)
    requires
        a.wf(),
        b.wf(),
    ensures
        r == approx_mat(*a, *b),
{
    let mut row: usize = 0;
    while row < 4
        invariant
            a.wf(),
            b.wf(),
            row <= 4,
            forall|r: int, c: int|
                0 <= r < row && 0 <= c < 4 ==> fx::abs_s(
                    fx::sub_s(#[trigger] matrix::at(*a, r, c), matrix::at(*b, r, c)),
                ) < fx::EPSILON as int,
        decreases 4 - row,
    {
        let mut col: usize = 0;
        while col < 4
            invariant
                a.wf(),
                b.wf(),
                row < 4,
                col <= 4,
                forall|r: int, c: int|
                    0 <= r < row && 0 <= c < 4 ==> fx::abs_s(
                        fx::sub_s(#[trigger] matrix::at(*a, r, c), matrix::at(*b, r, c)),
                    ) < fx::EPSILON as int,
                forall|c: int|
                    0 <= c < col ==> fx::abs_s(
                        fx::sub_s(#[trigger] matrix::at(*a, row as int, c), matrix::at(*b, row as int, c)),
                    ) < fx::EPSILON as int,
            decreases 4 - col,
        {
            let ae: crate::mathf::fx::Fx = a.data[row].columns[col];
            let be: crate::mathf::fx::Fx = b.data[row].columns[col];
            proof {
                assert(ae@ == matrix::at(*a, row as int, col as int));
                assert(be@ == matrix::at(*b, row as int, col as int));
                assert(fx::in_range(matrix::at(*a, row as int, col as int)));
                assert(fx::in_range(matrix::at(*b, row as int, col as int)));
            }
            if !crate::mathf::approximately(ae, be) {
                return false;
            }
            col = col + 1;
        }
        row = row + 1;
    }
    true
}

} // verus!
