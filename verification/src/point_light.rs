//! A point light: a position and an intensity color.

use vstd::prelude::*;
use crate::color::Color;
use crate::mathf::vector3::Vector3;

verus! {

#[derive(Clone, Copy, Debug)]
pub struct PointLight {
    pub position: Vector3,
    pub intensity: Color,
}

impl PointLight {
    pub open spec fn wf(self) -> bool {
        self.position.wf() && self.intensity.wf()
    }

    pub fn new(position: Vector3, intensity: Color) -> (r: PointLight)
        ensures
            r == (PointLight { position, intensity }),
    {
        PointLight { position, intensity }
    }
}

} // verus!
