//! Solid-color Phong materials.

use vstd::prelude::*;
use crate::color;
use crate::color::Color;
use crate::mathf::fx;
use crate::mathf::fx::Fx;

verus! {

#[derive(Clone, Copy, Debug)]
pub struct Material {
    pub color: Color,
    pub ambient: Fx,
    pub diffuse: Fx,
    pub specular: Fx,
    pub shininess: Fx,
}

/// The default material: white, ambient 0.1, diffuse 0.9, specular 0.9,
/// shininess 200.
pub open spec fn default_material_s() -> Material {
    Material {
        color: Color { r: fx::fx(fx::SCALE as int), g: fx::fx(fx::SCALE as int), b: fx::fx(fx::SCALE as int) },
        ambient: fx::fx(100_000_000_000),
        diffuse: fx::fx(900_000_000_000),
        specular: fx::fx(900_000_000_000),
        shininess: fx::fx(200_000_000_000_000),
    }
}

impl Material {
    pub open spec fn wf(self) -> bool {
        self.color.wf() && self.ambient.wf() && self.diffuse.wf() && self.specular.wf()
            && self.shininess.wf() && self.shininess@ >= 0
    }

    /// The default material.
    pub fn new() -> (m: Material)
        ensures
            m.wf(),
            m == default_material_s(),
    {
        Material {
            color: color::white(),
            ambient: Fx { n: 100_000_000_000 },
            diffuse: Fx { n: 900_000_000_000 },
            specular: Fx { n: 900_000_000_000 },
            shininess: Fx { n: 200_000_000_000_000 },
        }
    }

    /// Fieldwise approximate equality, with the library-wide tolerance.
    pub fn approx_eq(&self, other: &Material) -> (r: bool)
        requires
            self.wf(),
            other.wf(),
        ensures
            r == approx_m(*self, *other),
    {
        self.color.approx_eq(&other.color) && crate::mathf::approximately(
            self.ambient,
            other.ambient,
        ) && crate::mathf::approximately(self.diffuse, other.diffuse)
            && crate::mathf::approximately(self.specular, other.specular)
            && crate::mathf::approximately(self.shininess, other.shininess)
    }
}

impl Default for Material {
    fn default() -> (m: Material)
        ensures
            m.wf(),
            m == default_material_s(),
    {
        Material::new()
    }
}

/// Fieldwise approximate equality of materials.
pub open spec fn approx_m(a: Material, b: Material) -> bool {
    color::approx_c(a.color, b.color) && fx::abs_s(fx::sub_s(a.ambient@, b.ambient@)) < fx::EPSILON
        as int && fx::abs_s(fx::sub_s(a.diffuse@, b.diffuse@)) < fx::EPSILON as int && fx::abs_s(
        fx::sub_s(a.specular@, b.specular@),
    ) < fx::EPSILON as int && fx::abs_s(fx::sub_s(a.shininess@, b.shininess@)) < fx::EPSILON as int
}

} // verus!
