//! The camera: maps pixel coordinates to world-space rays and drives the
//! per-pixel color resolution over a canvas.

use vstd::prelude::*;
use crate::canvas::Canvas;
use crate::mathf::fx;
use crate::mathf::fx::Fx;
use crate::mathf::matrix;
use crate::mathf::matrix::Matrix;
use crate::mathf::matrix::NotInvertibleError;
use crate::mathf::ray::Ray;
use crate::mathf::vector3;
use crate::mathf::vector3::Vector3;
use crate::world;
use crate::world::NoLightError;
use crate::world::World;

verus! {

#[derive(Debug)]
pub struct Camera {
    pub hsize: usize,
    pub vsize: usize,
    pub field_of_view: Fx,
    pub transform: Matrix,
    pub inverse_transform: Matrix,
    pub pixel_size: Fx,
    pub half_width: Fx,
    pub half_height: Fx,
}

/// Half the extent the camera sees at unit distance: the tangent of half
/// the field of view.
pub open spec fn half_view_s(fov: int) -> int {
    fx::tan_s(fx::div_s(fov, 2 * (fx::SCALE as int)))
}

/// The width-to-height ratio of the output, as a fixed-point value.
pub open spec fn aspect_s(hsize: int, vsize: int) -> int {
    fx::div_s(fx::clip(hsize * (fx::SCALE as int)), fx::clip(vsize * (fx::SCALE as int)))
}

/// The half-width of the canvas in world units: the half-view for wide
/// output, scaled down by the aspect for tall output.
pub open spec fn half_width_s(hsize: int, vsize: int, fov: int) -> int {
    if aspect_s(hsize, vsize) >= fx::SCALE as int {
        half_view_s(fov)
    } else {
        fx::mul_s(half_view_s(fov), aspect_s(hsize, vsize))
    }
}

/// The half-height of the canvas in world units.
pub open spec fn half_height_s(hsize: int, vsize: int, fov: int) -> int {
    if aspect_s(hsize, vsize) >= fx::SCALE as int {
        fx::div_s(half_view_s(fov), aspect_s(hsize, vsize))
    } else {
        half_view_s(fov)
    }
}

/// The world-space size of one (square) pixel.
pub open spec fn pixel_size_s(hsize: int, vsize: int, fov: int) -> int {
    fx::div_s(
        fx::mul_s(half_width_s(hsize, vsize, fov), 2 * (fx::SCALE as int)),
        fx::clip(hsize * (fx::SCALE as int)),
    )
}

/// The ray through the center of pixel `(px, py)`: offsets from the
/// canvas edge, mapped to the canvas plane at `z = -1` (the camera looks
/// down `-z`, so `+x` is to the left), both ends carried to world space by
/// the inverse view transform.
pub open spec fn ray_for_pixel_s(c: Camera, px: int, py: int) -> Ray {
    let xoffset = fx::mul_s(
        fx::add_s(fx::clip(px * (fx::SCALE as int)), 500_000_000_000),
        c.pixel_size@,
    );
    let yoffset = fx::mul_s(
        fx::add_s(fx::clip(py * (fx::SCALE as int)), 500_000_000_000),
        c.pixel_size@,
    );
    let world_x = fx::sub_s(c.half_width@, xoffset);
    let world_y = fx::sub_s(c.half_height@, yoffset);
    let pixel = matrix::mul_point_s(
        c.inverse_transform,
        Vector3 { x: fx::fx(world_x), y: fx::fx(world_y), z: fx::fx(-(fx::SCALE as int)) },
    );
    let origin = matrix::mul_point_s(c.inverse_transform, vector3::zero_v());
    let direction = vector3::norm_v(vector3::sub_v(pixel, origin));
    Ray { origin, direction }
}

impl Camera {
    /// The view transform is invertible with its inverse cached, the
    /// output has at least one pixel each way (and fits signed indexing),
    /// and the derived extents match the construction rule.
    pub open spec fn wf(self) -> bool {
        &&& 1 <= self.hsize <= isize::MAX as usize
        &&& 1 <= self.vsize <= isize::MAX as usize
        &&& self.field_of_view.wf()
        &&& self.transform.wf()
        &&& self.transform.size == 4
        &&& self.inverse_transform.wf()
        &&& self.inverse_transform.size == 4
        &&& fx::abs_s(matrix::det_s(matrix::grid(self.transform))) >= fx::EPSILON as int
        &&& matrix::grid(self.inverse_transform) == matrix::inv_g(matrix::grid(self.transform))
        &&& self.half_width@ == half_width_s(self.hsize as int, self.vsize as int, self.field_of_view@)
        &&& self.half_height@ == half_height_s(self.hsize as int, self.vsize as int, self.field_of_view@)
        &&& self.pixel_size@ == pixel_size_s(self.hsize as int, self.vsize as int, self.field_of_view@)
    }

    /// Builds a camera with the identity view transform and the derived
    /// per-pixel extents.
    pub fn new(hsize: usize, vsize: usize, field_of_view: Fx) -> (c: Camera)
        requires
            1 <= hsize <= isize::MAX as usize,
            1 <= vsize <= isize::MAX as usize,
            field_of_view.wf(),
        ensures
            c.wf(),
            c.hsize == hsize,
            c.vsize == vsize,
            c.field_of_view == field_of_view,
            forall|i: int, j: int|
                0 <= i < 4 && 0 <= j < 4 ==> matrix::at(c.transform, i, j) == matrix::identity_at(
                    i,
                    j,
                ),
    {
        let half_view = field_of_view.div(Fx { n: 2_000_000_000_000 }).tan();
        let hs = Fx::from_usize(hsize);
        let vs = Fx::from_usize(vsize);
        proof {
            assert(vs@ >= fx::SCALE as int);
            assert(hs@ >= fx::SCALE as int);
            fx::lemma_div_trunc_nonneg(hs@ * (fx::SCALE as int), vs@);
            vstd::arithmetic::div_mod::lemma_div_by_self(vs@);
            vstd::arithmetic::div_mod::lemma_div_is_ordered(vs@, hs@ * (fx::SCALE as int), vs@);
        }
        let aspect_ratio = hs.div(vs);

        let half_width: Fx;
        let half_height: Fx;
        if aspect_ratio.n >= fx::SCALE {
            half_width = half_view;
            half_height = half_view.div(aspect_ratio);
        } else {
            half_width = half_view.mul(aspect_ratio);
            half_height = half_view;
        }

        let pixel_size = half_width.mul(Fx { n: 2_000_000_000_000 }).div(hs);

        let transform = Matrix::identity_4x4();
        proof {
            matrix::lemma_identity_like_det(transform);
        }
        let inverse_transform = match transform.inverse() {
            Ok(m) => m,
            Err(_) => vstd::pervasive::unreached(),
        };

        Camera {
            hsize,
            vsize,
            field_of_view,
            transform,
            inverse_transform,
            pixel_size,
            half_width,
            half_height,
        }
    }

    /// Replaces the view transform, caching its inverse; the camera is
    /// unchanged when the new transform is not invertible.
    pub fn set_transform(&mut self, transform: Matrix) -> (r: Result<(), NotInvertibleError>)
        requires
            old(self).wf(),
            transform.wf(),
            transform.size == 4,
        ensures
            r is Err <==> fx::abs_s(matrix::det_s(matrix::grid(transform))) < fx::EPSILON as int,
            r is Err ==> *final(self) == *old(self),
            r is Ok ==> {
                &&& final(self).wf()
                &&& final(self).transform == transform
                &&& final(self).hsize == old(self).hsize
                &&& final(self).vsize == old(self).vsize
                &&& final(self).field_of_view == old(self).field_of_view
                &&& final(self).pixel_size == old(self).pixel_size
                &&& final(self).half_width == old(self).half_width
                &&& final(self).half_height == old(self).half_height
            },
    {
        match transform.inverse() {
            Err(e) => Err(e),
            Ok(inverse_transform) => {
                self.transform = transform;
                self.inverse_transform = inverse_transform;
                Ok(())
            },
        }
    }

    /// The ray through the center of the given pixel.
    pub fn ray_for_pixel(&self, px: usize, py: usize) -> (r: Ray)
        requires
            self.wf(),
        ensures
            r.wf(),
            r == ray_for_pixel_s(*self, px as int, py as int),
    {
        let half: Fx = Fx { n: 500_000_000_000 };
        // The offset from the edge of the canvas to the pixel's center.
        let xoffset = Fx::from_usize(px).add(half).mul(self.pixel_size);
        let yoffset = Fx::from_usize(py).add(half).mul(self.pixel_size);

        // The untransformed pixel coordinates in world space; the camera
        // looks toward -z, so +x is to the left.
        let world_x = self.half_width.sub(xoffset);
        let world_y = self.half_height.sub(yoffset);

        // Carry the canvas point (the canvas sits at z = -1) and the
        // camera origin to world space, then aim between them.
        let pixel = self.inverse_transform.multiply_point(
            &vector3::new(world_x, world_y, Fx { n: -fx::SCALE }),
        );
        let origin = self.inverse_transform.multiply_point(
            &vector3::new(Fx { n: 0 }, Fx { n: 0 }, Fx { n: 0 }),
        );

        let direction = pixel.sub(&origin).normalize();
        Ray::new(origin, direction)
    }

    /// Renders the world: every pixel of the canvas gets the color of its
    /// ray.  Fails exactly when some pixel's ray hits a shape and the
    /// world has no light to shade it by.
    #[verifier::rlimit(60)]
    pub fn render(&self, world: &World) -> (r: Result<Canvas, NoLightError>)
        requires
            self.wf(),
            world.wf(),
        ensures
            world.light is Some ==> r is Ok,
            r matches Ok(image) ==> {
                &&& image.wf()
                &&& image.width == self.hsize
                &&& image.height == self.vsize
                &&& forall|x: int, y: int|
                    0 <= x < self.hsize && 0 <= y < self.vsize
                        ==> #[trigger] image.pixels@[y]@[x] == world::color_at_s(
                        *world,
                        ray_for_pixel_s(*self, x, y),
                    )
            },
            r is Err <==> world.light is None && exists|x: int, y: int|
                0 <= x < self.hsize && 0 <= y < self.vsize
                    && crate::mathf::intersection::hit_s(
                    world::sort_by_t_s(
                        world::world_xs_s(world.objects@, #[trigger] ray_for_pixel_s(*self, x, y)),
                    ),
                ) is Some,
    {
        let mut image = Canvas::new(self.hsize, self.vsize);
        let mut y: usize = 0;
        while y < self.vsize
            invariant
                self.wf(),
                world.wf(),
                image.wf(),
                image.width == self.hsize,
                image.height == self.vsize,
                y <= self.vsize,
                forall|xx: int, yy: int|
                    0 <= xx < self.hsize && 0 <= yy < y ==> #[trigger] image.pixels@[yy]@[xx]
                        == world::color_at_s(*world, ray_for_pixel_s(*self, xx, yy)),
                world.light is None ==> forall|xx: int, yy: int|
                    0 <= xx < self.hsize && 0 <= yy < y
                        ==> !(crate::mathf::intersection::hit_s(
                        world::sort_by_t_s(
                            world::world_xs_s(
                                world.objects@,
                                #[trigger] ray_for_pixel_s(*self, xx, yy),
                            ),
                        ),
                    ) is Some),
            decreases self.vsize - y,
        {
            let mut x: usize = 0;
            while x < self.hsize
                invariant
                    self.wf(),
                    world.wf(),
                    image.wf(),
                    image.width == self.hsize,
                    image.height == self.vsize,
                    y < self.vsize,
                    x <= self.hsize,
                    forall|xx: int, yy: int|
                        0 <= xx < self.hsize && 0 <= yy < y ==> #[trigger] image.pixels@[yy]@[xx]
                            == world::color_at_s(*world, ray_for_pixel_s(*self, xx, yy)),
                    forall|xx: int|
                        0 <= xx < x ==> #[trigger] image.pixels@[y as int]@[xx]
                            == world::color_at_s(*world, ray_for_pixel_s(*self, xx, y as int)),
                    world.light is None ==> forall|xx: int, yy: int|
                        0 <= xx < self.hsize && 0 <= yy < y
                            ==> !(crate::mathf::intersection::hit_s(
                            world::sort_by_t_s(
                                world::world_xs_s(
                                    world.objects@,
                                    #[trigger] ray_for_pixel_s(*self, xx, yy),
                                ),
                            ),
                        ) is Some),
                    world.light is None ==> forall|xx: int|
                        0 <= xx < x ==> !(crate::mathf::intersection::hit_s(
                            world::sort_by_t_s(
                                world::world_xs_s(
                                    world.objects@,
                                    #[trigger] ray_for_pixel_s(*self, xx, y as int),
                                ),
                            ),
                        ) is Some),
                decreases self.hsize - x,
            {
                let ray = self.ray_for_pixel(x, y);
                match world.color_at(ray) {
                    Err(e) => {
                        proof {
                            assert(ray_for_pixel_s(*self, x as int, y as int) == ray);
                        }
                        return Err(e);
                    },
                    Ok(color) => {
                        image.write_pixel(x as isize, y as isize, &color);
                    },
                }
                x = x + 1;
            }
            y = y + 1;
        }
        Ok(image)
    }
}

} // verus!
