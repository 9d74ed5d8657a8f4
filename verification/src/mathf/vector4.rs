//! A four-component value: a spatial value together with its explicit
//! homogeneous coordinate.

use vstd::prelude::*;
use crate::mathf::fx::Fx;

verus! {

#[derive(Clone, Copy, Debug)]
pub struct Vector4 {
    pub x: Fx,
    pub y: Fx,
    pub z: Fx,
    pub w: Fx,
}

impl Vector4 {
    pub open spec fn wf(self) -> bool {
        self.x.wf() && self.y.wf() && self.z.wf() && self.w.wf()
    }

    pub fn new(x: Fx, y: Fx, z: Fx, w: Fx) -> (r: Vector4)
        ensures
            r == (Vector4 { x, y, z, w }),
    {
        Vector4 { x, y, z, w }
    }
}

} // verus!
