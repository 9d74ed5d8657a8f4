//! Three-component spatial values, used for both points and direction
//! vectors; the homogeneous coordinate is supplied contextually when a
//! matrix is applied.

use vstd::prelude::*;
use crate::mathf::fx;
use crate::mathf::fx::Fx;
use crate::mathf::fx::EPSILON;

verus! {

#[derive(Clone, Copy, Debug)]
pub struct Vector3 {
    pub x: Fx,
    pub y: Fx,
    pub z: Fx,
}

/// Builds a vector from its components.
pub fn new(x: Fx, y: Fx, z: Fx) -> (r: Vector3)
    ensures
        r == (Vector3 { x, y, z }),
{
    Vector3 { x, y, z }
}

pub open spec fn wf_v(v: Vector3) -> bool {
    v.x.wf() && v.y.wf() && v.z.wf()
}

/// The origin (or the zero vector).
pub open spec fn zero_v() -> Vector3 {
    Vector3 { x: fx::fx(0), y: fx::fx(0), z: fx::fx(0) }
}

pub open spec fn add_v(a: Vector3, b: Vector3) -> Vector3 {
    Vector3 {
        x: fx::fx(fx::add_s(a.x@, b.x@)),
        y: fx::fx(fx::add_s(a.y@, b.y@)),
        z: fx::fx(fx::add_s(a.z@, b.z@)),
    }
}

pub open spec fn sub_v(a: Vector3, b: Vector3) -> Vector3 {
    Vector3 {
        x: fx::fx(fx::sub_s(a.x@, b.x@)),
        y: fx::fx(fx::sub_s(a.y@, b.y@)),
        z: fx::fx(fx::sub_s(a.z@, b.z@)),
    }
}

pub open spec fn scale_v(a: Vector3, k: int) -> Vector3 {
    Vector3 {
        x: fx::fx(fx::mul_s(a.x@, k)),
        y: fx::fx(fx::mul_s(a.y@, k)),
        z: fx::fx(fx::mul_s(a.z@, k)),
    }
}

pub open spec fn div_v(a: Vector3, k: int) -> Vector3 {
    Vector3 {
        x: fx::fx(fx::div_s(a.x@, k)),
        y: fx::fx(fx::div_s(a.y@, k)),
        z: fx::fx(fx::div_s(a.z@, k)),
    }
}

pub open spec fn neg_v(a: Vector3) -> Vector3 {
    Vector3 { x: fx::fx(fx::neg_s(a.x@)), y: fx::fx(fx::neg_s(a.y@)), z: fx::fx(fx::neg_s(a.z@)) }
}

pub open spec fn dot_s(a: Vector3, b: Vector3) -> int {
    fx::add_s(
        fx::add_s(fx::mul_s(a.x@, b.x@), fx::mul_s(a.y@, b.y@)),
        fx::mul_s(a.z@, b.z@),
    )
}

pub open spec fn cross_v(a: Vector3, b: Vector3) -> Vector3 {
    Vector3 {
        x: fx::fx(fx::sub_s(fx::mul_s(a.y@, b.z@), fx::mul_s(a.z@, b.y@))),
        y: fx::fx(fx::sub_s(fx::mul_s(a.z@, b.x@), fx::mul_s(a.x@, b.z@))),
        z: fx::fx(fx::sub_s(fx::mul_s(a.x@, b.y@), fx::mul_s(a.y@, b.x@))),
    }
}

/// The magnitude of a vector: the fixed-point square root of its dot
/// product with itself.
pub open spec fn mag_s(v: Vector3) -> int {
    fx::sqrt_s(dot_s(v, v))
}

/// The unit vector in the direction of `v`; a vector whose magnitude
/// rounds to zero is returned unchanged.
pub open spec fn norm_v(v: Vector3) -> Vector3 {
    let m = mag_s(v);
    if m == 0 {
        v
    } else {
        Vector3 {
            x: fx::fx(fx::div_s(v.x@, m)),
            y: fx::fx(fx::div_s(v.y@, m)),
            z: fx::fx(fx::div_s(v.z@, m)),
        }
    }
}

/// Componentwise approximate equality, with the library-wide tolerance.
pub open spec fn approx_v(a: Vector3, b: Vector3) -> bool {
    fx::abs_s(fx::sub_s(a.x@, b.x@)) < EPSILON as int
        && fx::abs_s(fx::sub_s(a.y@, b.y@)) < EPSILON as int
        && fx::abs_s(fx::sub_s(a.z@, b.z@)) < EPSILON as int
}

/// The dot product of a well-formed vector with itself is nonnegative.
pub proof fn lemma_dot_self_nonneg(v: Vector3)
    ensures
        dot_s(v, v) >= 0,
{
    fx::lemma_mul_s_square_nonneg(v.x@);
    fx::lemma_mul_s_square_nonneg(v.y@);
    fx::lemma_mul_s_square_nonneg(v.z@);
}

impl Vector3 {
    pub open spec fn wf(self) -> bool {
        wf_v(self)
    }

    pub fn add(&self, other: &Vector3) -> (r: Vector3)
        requires
            self.wf(),
            other.wf(),
        ensures
            r.wf(),
            r == add_v(*self, *other),
    {
        Vector3 { x: self.x.add(other.x), y: self.y.add(other.y), z: self.z.add(other.z) }
    }

    pub fn sub(&self, other: &Vector3) -> (r: Vector3)
        requires
            self.wf(),
            other.wf(),
        ensures
            r.wf(),
            r == sub_v(*self, *other),
    {
        Vector3 { x: self.x.sub(other.x), y: self.y.sub(other.y), z: self.z.sub(other.z) }
    }

    pub fn mul(&self, k: Fx) -> (r: Vector3)
        requires
            self.wf(),
            k.wf(),
        ensures
            r.wf(),
            r == scale_v(*self, k@),
    {
        Vector3 { x: self.x.mul(k), y: self.y.mul(k), z: self.z.mul(k) }
    }

    pub fn div(&self, k: Fx) -> (r: Vector3)
        requires
            self.wf(),
            k.wf(),
            k@ != 0,
        ensures
            r.wf(),
            r == div_v(*self, k@),
    {
        Vector3 { x: self.x.div(k), y: self.y.div(k), z: self.z.div(k) }
    }

    pub fn neg(&self) -> (r: Vector3)
        requires
            self.wf(),
        ensures
            r.wf(),
            r == neg_v(*self),
    {
        Vector3 { x: self.x.neg(), y: self.y.neg(), z: self.z.neg() }
    }

    pub fn dot(&self, rhs: &Vector3) -> (r: Fx)
        requires
            self.wf(),
            rhs.wf(),
        ensures
            r.wf(),
            r@ == dot_s(*self, *rhs),
    {
        self.x.mul(rhs.x).add(self.y.mul(rhs.y)).add(self.z.mul(rhs.z))
    }

    pub fn cross(&self, rhs: &Vector3) -> (r: Vector3)
        requires
            self.wf(),
            rhs.wf(),
        ensures
            r.wf(),
            r == cross_v(*self, *rhs),
    {
        Vector3 {
            x: self.y.mul(rhs.z).sub(self.z.mul(rhs.y)),
            y: self.z.mul(rhs.x).sub(self.x.mul(rhs.z)),
            z: self.x.mul(rhs.y).sub(self.y.mul(rhs.x)),
        }
    }

    pub fn magnitude(&self) -> (r: Fx)
        requires
            self.wf(),
        ensures
            r.wf(),
            r@ == mag_s(*self),
            r@ >= 0,
    {
        proof {
            lemma_dot_self_nonneg(*self);
        }
        self.dot(self).sqrt()
    }

    pub fn normalize(&self) -> (r: Vector3)
        requires
            self.wf(),
        ensures
            r.wf(),
            r == norm_v(*self),
    {
        let mag: Fx = self.magnitude();
        if mag.n == 0 {
            *self
        } else {
            Vector3 { x: self.x.div(mag), y: self.y.div(mag), z: self.z.div(mag) }
        }
    }

    /// Componentwise approximate equality, with the library-wide tolerance.
    pub fn approx_eq(&self, other: &Vector3) -> (r: bool)
        requires
            self.wf(),
            other.wf(),
        ensures
            r == approx_v(*self, *other),
    {
        crate::mathf::approximately(self.x, other.x) && crate::mathf::approximately(self.y, other.y)
            && crate::mathf::approximately(self.z, other.z)
    }
}

} // verus!
