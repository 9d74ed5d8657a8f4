//! The scene: an optional point light and an ordered collection of shared
//! shape handles, with ray-to-color resolution and shadow queries.

use vstd::prelude::*;
use std::rc::Rc;
use crate::color;
use crate::color::Color;
use crate::material::Material;
use crate::mathf::fx;
use crate::mathf::fx::Fx;
use crate::mathf::intersection;
use crate::mathf::intersection::Computations;
use crate::mathf::intersection::Intersection;
use crate::mathf::intersection::Intersections;
use crate::mathf::matrix;
use crate::mathf::ray::Ray;
use crate::mathf::shapes::Shape;
use crate::mathf::sphere::Sphere;
use crate::mathf::vector3;
use crate::mathf::vector3::Vector3;
use crate::phong_lighting;
use crate::point_light::PointLight;
use crate::transformations;

verus! {

/// Shading was asked of a world that has no light configured.
#[derive(Clone, Copy, Debug, PartialEq, Eq, Structural)]
pub struct NoLightError;

#[derive(Debug)]
pub struct World {
    pub light: Option<PointLight>,
    pub objects: Vec<Rc<Shape>>,
}

/// The intersections one shape handle contributes to a ray query.
pub open spec fn shape_xs_s(h: Rc<Shape>, ray: Ray) -> Seq<Intersection> {
    Seq::new((*h).world_ts(ray).len(), |i: int| Intersection { t: fx::fx((*h).world_ts(ray)[i]), object: h })
}

/// The concatenated intersections of every shape with a ray, in scene
/// order.
pub open spec fn world_xs_s(objs: Seq<Rc<Shape>>, ray: Ray) -> Seq<Intersection>
    decreases objs.len(),
{
    if objs.len() == 0 {
        Seq::empty()
    } else {
        world_xs_s(objs.drop_last(), ray) + shape_xs_s(objs.last(), ray)
    }
}

/// Inserts a record after every record with a `t` no greater than its own:
/// the position a stable ascending sort gives it.
pub open spec fn insert_sorted_s(s: Seq<Intersection>, x: Intersection) -> Seq<Intersection>
    decreases s.len(),
{
    if s.len() == 0 {
        seq![x]
    } else if s.last().t@ <= x.t@ {
        s.push(x)
    } else {
        insert_sorted_s(s.drop_last(), x).push(s.last())
    }
}

/// The stable ascending sort of intersections by `t`.
pub open spec fn sort_by_t_s(s: Seq<Intersection>) -> Seq<Intersection>
    decreases s.len(),
{
    if s.len() == 0 {
        Seq::empty()
    } else {
        insert_sorted_s(sort_by_t_s(s.drop_last()), s.last())
    }
}

/// When everything from position `j` on is greater than `x` and the record
/// before `j` (if any) is not, inserting lands exactly at `j`.
proof fn lemma_insert_sorted_at(s: Seq<Intersection>, x: Intersection, j: int)
    requires
        0 <= j <= s.len(),
        forall|k: int| j <= k < s.len() ==> (#[trigger] s[k]).t@ > x.t@,
        j > 0 ==> s[j - 1].t@ <= x.t@,
    ensures
        insert_sorted_s(s, x) == s.insert(j, x),
    decreases s.len(),
{
    if s.len() == 0 {
        assert(insert_sorted_s(s, x) =~= s.insert(0, x));
    } else if s.last().t@ <= x.t@ {
        assert(j == s.len());
        assert(insert_sorted_s(s, x) =~= s.insert(j, x));
    } else {
        lemma_insert_sorted_at(s.drop_last(), x, j);
        assert(insert_sorted_s(s, x) =~= s.drop_last().insert(j, x).push(s.last()));
        assert(s.drop_last().insert(j, x).push(s.last()) =~= s.insert(j, x));
    }
}

/// Inserts an intersection at its stable sorted position.
fn insert_sorted(v: &mut Vec<Intersection>, x: Intersection)
    requires
        forall|k: int| 0 <= k < old(v)@.len() ==> (#[trigger] old(v)@[k]).wf(),
        x.wf(),
    ensures
        final(v)@ == insert_sorted_s(old(v)@, x),
        forall|k: int| 0 <= k < final(v)@.len() ==> (#[trigger] final(v)@[k]).wf(),
{
    let mut j: usize = v.len();
    while j > 0 && v[j - 1].t.n > x.t.n
        invariant
            j <= v@.len(),
            forall|k: int| j <= k < v@.len() ==> (#[trigger] v@[k]).t@ > x.t@,
        decreases j,
    {
        j = j - 1;
    }
    proof {
        lemma_insert_sorted_at(v@, x, j as int);
    }
    v.insert(j, x);
}

/// Sorts intersections ascending by `t`, keeping the scene order of equal
/// records.
fn sort_by_t(v: Vec<Intersection>) -> (r: Vec<Intersection>)
    requires
        forall|k: int| 0 <= k < v@.len() ==> (#[trigger] v@[k]).wf(),
    ensures
        r@ == sort_by_t_s(v@),
        forall|k: int| 0 <= k < r@.len() ==> (#[trigger] r@[k]).wf(),
{
    let mut out: Vec<Intersection> = Vec::new();
    let mut idx: usize = 0;
    while idx < v.len()
        invariant
            idx <= v@.len(),
            forall|k: int| 0 <= k < v@.len() ==> (#[trigger] v@[k]).wf(),
            forall|k: int| 0 <= k < out@.len() ==> (#[trigger] out@[k]).wf(),
            out@ == sort_by_t_s(v@.take(idx as int)),
        decreases v@.len() - idx,
    {
        proof {
            assert(v@.take(idx as int + 1).drop_last() =~= v@.take(idx as int));
            assert(v@.take(idx as int + 1).last() == v@[idx as int]);
        }
        let x = v[idx].clone();
        insert_sorted(&mut out, x);
        idx = idx + 1;
    }
    proof {
        assert(v@.take(v@.len() as int) =~= v@);
    }
    out
}

/// Ascending order by `t` over a sequence of intersections.
pub open spec fn sorted_by_t(s: Seq<Intersection>) -> bool {
    forall|k: int, l: int| 0 <= k < l < s.len() ==> (#[trigger] s[k]).t@ <= (#[trigger] s[l]).t@
}

/// Inserting at the stable position grows the sequence by one, adds no
/// record but the inserted one, and keeps ascending order.
proof fn lemma_insert_sorted_props(s: Seq<Intersection>, x: Intersection)
    ensures
        insert_sorted_s(s, x).len() == s.len() + 1,
        forall|k: int|
            0 <= k < insert_sorted_s(s, x).len() ==> ((#[trigger] insert_sorted_s(s, x)[k]) == x
                || exists|j: int| 0 <= j < s.len() && s[j] == insert_sorted_s(s, x)[k]),
        sorted_by_t(s) ==> sorted_by_t(insert_sorted_s(s, x)),
    decreases s.len(),
{
    if s.len() == 0 {
    } else if s.last().t@ <= x.t@ {
        let ins = insert_sorted_s(s, x);
        assert(ins == s.push(x));
        assert forall|k: int|
            0 <= k < ins.len() implies ((#[trigger] ins[k]) == x || exists|j: int|
            0 <= j < s.len() && s[j] == ins[k]) by {
            if k < s.len() {
                assert(s[k] == ins[k]);
            }
        }
    } else {
        let prefix = s.drop_last();
        lemma_insert_sorted_props(prefix, x);
        let ins_p = insert_sorted_s(prefix, x);
        let ins = insert_sorted_s(s, x);
        assert(ins == ins_p.push(s.last()));
        assert forall|k: int|
            0 <= k < ins.len() implies ((#[trigger] ins[k]) == x || exists|j: int|
            0 <= j < s.len() && s[j] == ins[k]) by {
            if k < ins_p.len() {
                assert(ins[k] == ins_p[k]);
                if ins_p[k] != x {
                    let j = choose|j: int| 0 <= j < prefix.len() && prefix[j] == ins_p[k];
                    assert(s[j] == ins[k]);
                }
            } else {
                assert(ins[k] == s[s.len() - 1]);
            }
        }
        if sorted_by_t(s) {
            assert(sorted_by_t(prefix)) by {
                assert(forall|k: int| 0 <= k < prefix.len() ==> prefix[k] == s[k]);
            }
            assert forall|k: int, l: int|
                0 <= k < l < ins.len() implies (#[trigger] ins[k]).t@ <= (#[trigger] ins[l]).t@ by {
                if l < ins_p.len() {
                    assert(ins[k] == ins_p[k] && ins[l] == ins_p[l]);
                } else {
                    assert(ins[l] == s.last());
                    assert(ins[k] == ins_p[k]);
                    if ins_p[k] == x {
                        assert(x.t@ <= s.last().t@);
                    } else {
                        let j = choose|j: int| 0 <= j < prefix.len() && prefix[j] == ins_p[k];
                        assert(s[j].t@ <= s.last().t@);
                    }
                }
            }
        }
    }
}

/// The stable sort keeps the length and delivers ascending order.
pub proof fn lemma_sort_by_t_sorted(s: Seq<Intersection>)
    ensures
        sort_by_t_s(s).len() == s.len(),
        sorted_by_t(sort_by_t_s(s)),
    decreases s.len(),
{
    if s.len() > 0 {
        lemma_sort_by_t_sorted(s.drop_last());
        lemma_insert_sorted_props(sort_by_t_s(s.drop_last()), s.last());
    }
}

/// An empty world: no light and no shapes.
pub fn new() -> (w: World)
    ensures
        w.wf(),
        w.light is None,
        w.objects@.len() == 0,
{
    World { light: None, objects: Vec::new() }
}

/// The canonical two-sphere test scene: a white light at (-10, 10, -10),
/// an outer unit sphere with a green-tinted material, and an inner sphere
/// scaled to half size.
pub fn default_world() -> (w: World)
    ensures
        w.wf(),
        w.light matches Some(l) && l == (PointLight {
            position: Vector3 {
                x: fx::fx(-10_000_000_000_000),
                y: fx::fx(10_000_000_000_000),
                z: fx::fx(-10_000_000_000_000),
            },
            intensity: Color {
                r: fx::fx(fx::SCALE as int),
                g: fx::fx(fx::SCALE as int),
                b: fx::fx(fx::SCALE as int),
            },
        }),
        w.objects@.len() == 2,
        (*w.objects@[0]) matches Shape::Sphere(s1) && s1.material == outer_material_s()
            && (forall|i: int, j: int|
            0 <= i < 4 && 0 <= j < 4 ==> matrix::at(s1.transform, i, j) == matrix::identity_at(
                i,
                j,
            )),
        (*w.objects@[1]) matches Shape::Sphere(s2) && s2.material
            == crate::material::default_material_s() && (forall|i: int, j: int|
            0 <= i < 4 && 0 <= j < 4 ==> matrix::at(s2.transform, i, j)
                == transformations::scaling_at(half_extent_s(), i, j)),
{
    let light = PointLight::new(
        vector3::new(
            Fx { n: -10_000_000_000_000 },
            Fx { n: 10_000_000_000_000 },
            Fx { n: -10_000_000_000_000 },
        ),
        color::new(Fx { n: fx::SCALE }, Fx { n: fx::SCALE }, Fx { n: fx::SCALE }),
    );

    let mut material = Material::new();
    material.color = color::new(
        Fx { n: 800_000_000_000 },
        Fx { n: fx::SCALE },
        Fx { n: 600_000_000_000 },
    );
    material.diffuse = Fx { n: 700_000_000_000 };
    material.specular = Fx { n: 200_000_000_000 };

    let s1 = match Sphere::new(None, Some(material)) {
        Ok(s) => s,
        Err(_) => vstd::pervasive::unreached(),
    };

    let half = Fx { n: 500_000_000_000 };
    let scale = transformations::scaling(&vector3::new(half, half, half));
    proof {
        let g = matrix::grid(scale);
        assert(forall|r: int| 0 <= r < 4 ==> (#[trigger] g[r]).len() == 4);
        assert(forall|r: int, c: int|
            0 <= r < 4 && 0 <= c < 4 && r != c ==> #[trigger] g[r][c] == 0);
        matrix::lemma_diag_det(g);
        fx::lemma_mul_s_one(500_000_000_000);
        assert(g[0][0] == 500_000_000_000 && g[1][1] == 500_000_000_000 && g[2][2]
            == 500_000_000_000 && g[3][3] == fx::SCALE as int);
        assert(fx::mul_s(500_000_000_000, 500_000_000_000) == 250_000_000_000);
        assert(fx::mul_s(500_000_000_000, 250_000_000_000) == 125_000_000_000);
        assert(matrix::det_s(g) == 125_000_000_000);
    }
    let s2 = match Sphere::new(Some(scale), None) {
        Ok(s) => s,
        Err(_) => vstd::pervasive::unreached(),
    };

    let mut objects: Vec<Rc<Shape>> = Vec::new();
    objects.push(Rc::new(Shape::Sphere(s1)));
    objects.push(Rc::new(Shape::Sphere(s2)));

    World { light: Some(light), objects }
}

/// The material of the default world's outer sphere.
pub open spec fn outer_material_s() -> Material {
    Material {
        color: Color {
            r: fx::fx(800_000_000_000),
            g: fx::fx(fx::SCALE as int),
            b: fx::fx(600_000_000_000),
        },
        ambient: fx::fx(100_000_000_000),
        diffuse: fx::fx(700_000_000_000),
        specular: fx::fx(200_000_000_000),
        shininess: fx::fx(200_000_000_000_000),
    }
}

/// The half-size scaling vector of the default world's inner sphere.
pub open spec fn half_extent_s() -> Vector3 {
    Vector3 {
        x: fx::fx(500_000_000_000),
        y: fx::fx(500_000_000_000),
        z: fx::fx(500_000_000_000),
    }
}

/// Whether a point is occluded from the world's light: some intersection
/// of the ray from the point toward the light lies strictly nearer than
/// the light itself.
pub open spec fn is_shadowed_s(w: World, point: Vector3) -> bool {
    let vector = vector3::sub_v(w.light.unwrap().position, point);
    let distance = vector3::mag_s(vector);
    let direction = vector3::norm_v(vector);
    let shadow_ray = Ray { origin: point, direction };
    match intersection::hit_s(sort_by_t_s(world_xs_s(w.objects@, shadow_ray))) {
        None => false,
        Some(h) => h.t@ < distance,
    }
}

/// The color an intersection hit by a ray shades to.
pub open spec fn shade_hit_s(w: World, comps: Computations) -> Color {
    phong_lighting::lighting_s(
        (*comps.object).material_s(),
        w.light.unwrap(),
        comps.point,
        comps.eye_vector,
        comps.normal_vector,
        is_shadowed_s(w, comps.over_point),
    )
}

/// The color a ray resolves to: black on a miss, else the shading of the
/// hit.
pub open spec fn color_at_s(w: World, ray: Ray) -> Color {
    match intersection::hit_s(sort_by_t_s(world_xs_s(w.objects@, ray))) {
        None => color::black_s(),
        Some(h) => shade_hit_s(w, intersection::comps_fields_s(h, ray, h.object)),
    }
}

impl World {
    pub open spec fn wf(self) -> bool {
        (self.light matches Some(l) ==> l.wf()) && forall|k: int|
            0 <= k < self.objects@.len() ==> (*(#[trigger] self.objects@[k])).wf()
    }

    /// Intersects a ray with every shape of the world and sorts the
    /// records ascending by `t` (stably, keeping scene order on ties).
    pub fn intersect(&self, ray: &Ray) -> (r: Intersections)
        requires
            self.wf(),
            ray.wf(),
        ensures
            r.intersections@ == sort_by_t_s(world_xs_s(self.objects@, *ray)),
            r.intersections@.len() == world_xs_s(self.objects@, *ray).len(),
            sorted_by_t(r.intersections@),
            r.wf(),
    {
        let mut result: Vec<Intersection> = Vec::new();
        let mut idx: usize = 0;
        while idx < self.objects.len()
            invariant
                self.wf(),
                ray.wf(),
                idx <= self.objects@.len(),
                result@ == world_xs_s(self.objects@.take(idx as int), *ray),
                forall|k: int| 0 <= k < result@.len() ==> (#[trigger] result@[k]).wf(),
            decreases self.objects@.len() - idx,
        {
            let handle = &self.objects[idx];
            let mut xs = Shape::intersect(handle, ray);
            proof {
                assert forall|i: int| 0 <= i < xs@.len() implies xs@[i] == shape_xs_s(
                    self.objects@[idx as int],
                    *ray,
                )[i] by {
                    assert(xs@[i].t.n as int == (**handle).world_ts(*ray)[i]);
                }
                assert(xs@ =~= shape_xs_s(self.objects@[idx as int], *ray));
                assert(self.objects@.take(idx as int + 1).drop_last() =~= self.objects@.take(
                    idx as int,
                ));
                assert(self.objects@.take(idx as int + 1).last() == self.objects@[idx as int]);
            }
            result.append(&mut xs);
            idx = idx + 1;
        }
        proof {
            assert(self.objects@.take(self.objects@.len() as int) =~= self.objects@);
        }
        proof {
            lemma_sort_by_t_sorted(result@);
        }
        let sorted = sort_by_t(result);
        Intersections::new(sorted)
    }

    /// Whether the given point lies in shadow with respect to the world's
    /// light.
    pub fn is_shadowed(&self, point: &Vector3) -> (r: bool)
        requires
            self.wf(),
            point.wf(),
            self.light is Some,
        ensures
            r == is_shadowed_s(*self, *point),
    {
        let light = match &self.light {
            Some(l) => l,
            None => vstd::pervasive::unreached(),
        };
        let vector = light.position.sub(point);
        let distance = vector.magnitude();
        let direction = vector.normalize();

        let shadow_ray = Ray::new(*point, direction);
        let intersections = self.intersect(&shadow_ray);
        let hit = intersections.hit();

        match hit {
            None => false,
            Some(h) => h.t.n < distance.n,
        }
    }

    /// Shades the hit the given derived state describes; fails when the
    /// world has no light.
    pub fn shade_hit(&self, computations: Computations) -> (r: Result<Color, NoLightError>)
        requires
            self.wf(),
            computations.wf(),
        ensures
            r is Err <==> self.light is None,
            r matches Ok(c) ==> c.wf() && c == shade_hit_s(*self, computations),
    {
        let light = match &self.light {
            Some(l) => l,
            None => {
                return Err(NoLightError);
            },
        };

        let shadowed = self.is_shadowed(&computations.over_point);

        // The world supports a single light; more would sum the lighting
        // of each.
        Ok(
            phong_lighting::lighting(
                (*computations.object).material(),
                light,
                &computations.point,
                &computations.eye_vector,
                &computations.normal_vector,
                shadowed,
            ),
        )
    }

    /// Resolves a ray to a color: black when nothing is hit, else the
    /// shading of the nearest hit.  Fails exactly when something is hit
    /// and the world has no light to shade it by.
    pub fn color_at(&self, ray: Ray) -> (r: Result<Color, NoLightError>)
        requires
            self.wf(),
            ray.wf(),
        ensures
            r is Err <==> (self.light is None && intersection::hit_s(
                sort_by_t_s(world_xs_s(self.objects@, ray)),
            ) is Some),
            r matches Ok(c) ==> c.wf() && c == color_at_s(*self, ray),
    {
        let xs = self.intersect(&ray);
        match xs.hit() {
            None => Ok(color::black()),
            Some(i) => {
                let comps = i.prepare_computations(ray);
                self.shade_hit(comps)
            },
        }
    }
}

} // verus!
