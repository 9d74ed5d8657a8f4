//! Rays: an origin point and a direction vector.

use vstd::prelude::*;
use crate::mathf::fx::Fx;
use crate::mathf::matrix;
use crate::mathf::matrix::Matrix;
use crate::mathf::vector3;
use crate::mathf::vector3::Vector3;

verus! {

#[derive(Clone, Copy, Debug)]
pub struct Ray {
    pub origin: Vector3,
    pub direction: Vector3,
}

/// The point at distance `t` along the ray.
pub open spec fn position_s(r: Ray, t: int) -> Vector3 {
    vector3::add_v(r.origin, vector3::scale_v(r.direction, t))
}

/// The ray carried through a transform: the origin as a point, the
/// direction as a vector.
pub open spec fn transform_s(r: Ray, m: Matrix) -> Ray {
    Ray {
        origin: matrix::mul_point_s(m, r.origin),
        direction: matrix::mul_vec_s(m, r.direction),
    }
}

impl Ray {
    pub open spec fn wf(self) -> bool {
        self.origin.wf() && self.direction.wf()
    }

    pub fn new(origin: Vector3, direction: Vector3) -> (r: Ray)
        ensures
            r == (Ray { origin, direction }),
    {
        Ray { origin, direction }
    }

    /// Computes the point at the given distance `t` along the ray.
    pub fn position(&self, t: Fx) -> (r: Vector3)
        requires
            self.wf(),
            t.wf(),
        ensures
            r.wf(),
            r == position_s(*self, t@),
    {
        self.origin.add(&self.direction.mul(t))
    }

    /// Applies a transform to the ray: the origin moves as a point, the
    /// direction as a vector (unaffected by translation).
    pub fn transform(&self, matrix: &Matrix) -> (r: Ray)
        requires
            self.wf(),
            matrix.wf(),
            matrix.size == 4,
        ensures
            r.wf(),
            r == transform_s(*self, *matrix),
    {
        Ray {
            origin: matrix.multiply_point(&self.origin),
            direction: matrix.multiply_vector(&self.direction),
        }
    }
}

} // verus!
