pub mod fx;
pub mod intersection;
pub mod matrix;
pub mod plane;
pub mod ray;
pub mod shapes;
pub mod sphere;
pub mod vector3;
pub mod vector4;

use vstd::prelude::*;
use crate::mathf::fx::Fx;
use crate::mathf::fx::EPSILON;
use crate::mathf::fx::DEGREE_TO_RADIAN;
use crate::mathf::fx::RADIAN_TO_DEGREE;

verus! {

/// Two fixed-point values are approximately equal when they differ by less
/// than `EPSILON` (one hundred-thousandth), the tolerance every geometric
/// comparison in this library uses.
pub fn approximately(a: Fx, b: Fx) -> (r: bool)
    requires
        a.wf(),
        b.wf(),
    ensures
        r == (fx::abs_s(fx::sub_s(a@, b@)) < EPSILON as int),
{
    a.sub(b).abs().n < EPSILON
}

/// Converts an angle in degrees to radians.
pub fn degree_to_radian(degree: Fx) -> (r: Fx)
    requires
        degree.wf(),
    ensures
        r.wf(),
        r@ == fx::mul_s(degree@, DEGREE_TO_RADIAN as int),
{
    degree.mul(Fx { n: DEGREE_TO_RADIAN })
}

/// Converts an angle in radians to degrees.
pub fn radian_to_degree(radian: Fx) -> (r: Fx)
    requires
        radian.wf(),
    ensures
        r.wf(),
        r@ == fx::mul_s(radian@, RADIAN_TO_DEGREE as int),
{
    radian.mul(Fx { n: RADIAN_TO_DEGREE })
}

} // verus!
