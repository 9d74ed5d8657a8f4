//! Colors: three fixed-point channels, nominally 0 to 1 but unclamped.

use vstd::prelude::*;
use crate::mathf::fx;
use crate::mathf::fx::Fx;
use crate::mathf::fx::EPSILON;

verus! {

#[derive(Clone, Copy, Debug)]
pub struct Color {
    pub r: Fx,
    pub g: Fx,
    pub b: Fx,
}

/// Builds a color from its channels.
pub fn new(r: Fx, g: Fx, b: Fx) -> (c: Color)
    ensures
        c == (Color { r, g, b }),
{
    Color { r, g, b }
}

pub open spec fn black_s() -> Color {
    Color { r: fx::fx(0), g: fx::fx(0), b: fx::fx(0) }
}

/// The color with every channel zero.
pub fn black() -> (c: Color)
    ensures
        c.wf(),
        c == black_s(),
{
    Color { r: Fx { n: 0 }, g: Fx { n: 0 }, b: Fx { n: 0 } }
}

/// The color with every channel one.
pub fn white() -> (c: Color)
    ensures
        c.wf(),
        c.r@ == fx::SCALE as int,
        c.g@ == fx::SCALE as int,
        c.b@ == fx::SCALE as int,
{
    Color { r: Fx { n: fx::SCALE }, g: Fx { n: fx::SCALE }, b: Fx { n: fx::SCALE } }
}

pub open spec fn add_c(a: Color, b: Color) -> Color {
    Color {
        r: fx::fx(fx::add_s(a.r@, b.r@)),
        g: fx::fx(fx::add_s(a.g@, b.g@)),
        b: fx::fx(fx::add_s(a.b@, b.b@)),
    }
}

pub open spec fn sub_c(a: Color, b: Color) -> Color {
    Color {
        r: fx::fx(fx::sub_s(a.r@, b.r@)),
        g: fx::fx(fx::sub_s(a.g@, b.g@)),
        b: fx::fx(fx::sub_s(a.b@, b.b@)),
    }
}

pub open spec fn scale_c(a: Color, k: int) -> Color {
    Color {
        r: fx::fx(fx::mul_s(a.r@, k)),
        g: fx::fx(fx::mul_s(a.g@, k)),
        b: fx::fx(fx::mul_s(a.b@, k)),
    }
}

/// The Hadamard (componentwise) product.
pub open spec fn hadamard_c(a: Color, b: Color) -> Color {
    Color {
        r: fx::fx(fx::mul_s(a.r@, b.r@)),
        g: fx::fx(fx::mul_s(a.g@, b.g@)),
        b: fx::fx(fx::mul_s(a.b@, b.b@)),
    }
}

/// Channelwise approximate equality, with the library-wide tolerance.
pub open spec fn approx_c(a: Color, b: Color) -> bool {
    fx::abs_s(fx::sub_s(a.r@, b.r@)) < EPSILON as int
        && fx::abs_s(fx::sub_s(a.g@, b.g@)) < EPSILON as int
        && fx::abs_s(fx::sub_s(a.b@, b.b@)) < EPSILON as int
}

impl Color {
    pub open spec fn wf(self) -> bool {
        self.r.wf() && self.g.wf() && self.b.wf()
    }

    pub fn add(self, other: Color) -> (c: Color)
        requires
            self.wf(),
            other.wf(),
        ensures
            c.wf(),
            c == add_c(self, other),
    {
        Color { r: self.r.add(other.r), g: self.g.add(other.g), b: self.b.add(other.b) }
    }

    pub fn sub(self, other: Color) -> (c: Color)
        requires
            self.wf(),
            other.wf(),
        ensures
            c.wf(),
            c == sub_c(self, other),
    {
        Color { r: self.r.sub(other.r), g: self.g.sub(other.g), b: self.b.sub(other.b) }
    }

    pub fn multiply_scalar(&self, rhs: Fx) -> (c: Color)
        requires
            self.wf(),
            rhs.wf(),
        ensures
            c.wf(),
            c == scale_c(*self, rhs@),
    {
        Color { r: self.r.mul(rhs), g: self.g.mul(rhs), b: self.b.mul(rhs) }
    }

    /// The Hadamard (componentwise) product.
    pub fn multiply_color(&self, rhs: &Color) -> (c: Color)
        requires
            self.wf(),
            rhs.wf(),
        ensures
            c.wf(),
            c == hadamard_c(*self, *rhs),
    {
        Color { r: self.r.mul(rhs.r), g: self.g.mul(rhs.g), b: self.b.mul(rhs.b) }
    }

    /// Channelwise approximate equality, with the library-wide tolerance.
    pub fn approx_eq(&self, other: &Color) -> (r: bool)
        requires
            self.wf(),
            other.wf(),
        ensures
            r == approx_c(*self, *other),
    {
        crate::mathf::approximately(self.r, other.r) && crate::mathf::approximately(self.g, other.g)
            && crate::mathf::approximately(self.b, other.b)
    }
}

} // verus!
