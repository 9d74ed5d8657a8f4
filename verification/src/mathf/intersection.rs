//! Intersection records, their aggregation, and the derived per-hit state
//! used by shading.

use vstd::prelude::*;
use std::rc::Rc;
use crate::mathf::fx;
use crate::mathf::fx::Fx;
use crate::mathf::ray;
use crate::mathf::ray::Ray;
use crate::mathf::shapes;
use crate::mathf::shapes::Shape;
use crate::mathf::vector3;
use crate::mathf::vector3::Vector3;

verus! {

/// One intersection: a distance along a ray and a shared handle to the
/// shape hit.
#[derive(Debug)]
pub struct Intersection {
    pub t: Fx,
    pub object: Rc<Shape>,
}

impl Intersection {
    pub open spec fn wf(self) -> bool {
        self.t.wf() && (*self.object).wf()
    }

    pub fn new(t: Fx, object: Rc<Shape>) -> (r: Intersection)
        ensures
            r.t == t,
            r.object == object,
    {
        Intersection { t, object }
    }

    /// Derives the per-hit state from this intersection and the ray that
    /// produced it: the hit point, the eye vector, the (possibly flipped)
    /// normal with its inside flag, and the shadow-bias over-point.
    pub fn prepare_computations(&self, ray: Ray) -> (r: Computations)
        requires
            self.wf(),
            ray.wf(),
        ensures
            r.wf(),
            r.t == self.t,
            r.object == self.object,
            r == comps_fields_s(*self, ray, r.object),
    {
        let point = ray.position(self.t);
        let eye_vector = ray.direction.neg();
        let mut normal_vector = (*self.object).normal_at(&point);

        let is_inside: bool;
        if normal_vector.dot(&eye_vector).n < 0 {
            is_inside = true;
            normal_vector = normal_vector.neg();
        } else {
            is_inside = false;
        }

        let over_point = point.add(&normal_vector.mul(Fx { n: fx::EPSILON }));
        Computations {
            t: self.t,
            object: shapes::clone_shape_handle(&self.object),
            point,
            eye_vector,
            normal_vector,
            is_inside,
            over_point,
        }
    }
}

impl Clone for Intersection {
    fn clone(&self) -> (r: Self)
        ensures
            r == *self,
    {
        Intersection { t: self.t, object: shapes::clone_shape_handle(&self.object) }
    }
}

/// The state derived from one intersection and its ray.
#[derive(Debug)]
pub struct Computations {
    pub t: Fx,
    pub object: Rc<Shape>,
    pub point: Vector3,
    pub eye_vector: Vector3,
    pub normal_vector: Vector3,
    pub is_inside: bool,
    pub over_point: Vector3,
}

/// The hit point of an intersection on its ray.
pub open spec fn comps_point_s(i: Intersection, r: Ray) -> Vector3 {
    ray::position_s(r, i.t@)
}

/// Whether the surface was hit from inside: the unflipped normal points
/// away from the eye.
pub open spec fn comps_inside_s(i: Intersection, r: Ray) -> bool {
    vector3::dot_s(
        (*i.object).normal_at_s(comps_point_s(i, r)),
        vector3::neg_v(r.direction),
    ) < 0
}

/// The surface normal at the hit, flipped toward the eye when the hit is
/// from inside.
pub open spec fn comps_normal_s(i: Intersection, r: Ray) -> Vector3 {
    let n = (*i.object).normal_at_s(comps_point_s(i, r));
    if comps_inside_s(i, r) {
        vector3::neg_v(n)
    } else {
        n
    }
}

/// The hit point nudged along the (possibly flipped) normal by the
/// tolerance, the origin for shadow rays.
pub open spec fn comps_over_point_s(i: Intersection, r: Ray) -> Vector3 {
    vector3::add_v(
        comps_point_s(i, r),
        vector3::scale_v(comps_normal_s(i, r), fx::EPSILON as int),
    )
}

/// The full derived state, given the handle the result carries.
pub open spec fn comps_fields_s(i: Intersection, r: Ray, object: Rc<Shape>) -> Computations {
    Computations {
        t: i.t,
        object,
        point: comps_point_s(i, r),
        eye_vector: vector3::neg_v(r.direction),
        normal_vector: comps_normal_s(i, r),
        is_inside: comps_inside_s(i, r),
        over_point: comps_over_point_s(i, r),
    }
}

impl Computations {
    pub open spec fn wf(self) -> bool {
        self.t.wf() && (*self.object).wf() && self.point.wf() && self.eye_vector.wf()
            && self.normal_vector.wf() && self.over_point.wf()
    }
}

/// An unordered collection of intersections from one query.
#[derive(Debug)]
pub struct Intersections {
    pub intersections: Vec<Intersection>,
}

/// The hit among a sequence of intersections, scanned left to right: the
/// first record carrying the smallest nonnegative `t`, or `None` when
/// every `t` is negative.
pub open spec fn hit_s(s: Seq<Intersection>) -> Option<Intersection>
    decreases s.len(),
{
    if s.len() == 0 {
        None
    } else {
        let last = s.last();
        match hit_s(s.drop_last()) {
            None => if last.t@ >= 0 {
                Some(last)
            } else {
                None
            },
            Some(best) => if last.t@ >= 0 && last.t@ < best.t@ {
                Some(last)
            } else {
                Some(best)
            },
        }
    }
}

/// What the hit selection guarantees: `None` exactly when no `t` is
/// nonnegative, else a record of the collection with the least
/// nonnegative `t`.
pub proof fn lemma_hit_props(s: Seq<Intersection>)
    ensures
        hit_s(s) is None <==> (forall|k: int| 0 <= k < s.len() ==> (#[trigger] s[k]).t@ < 0),
        hit_s(s) matches Some(h) ==> {
            &&& h.t@ >= 0
            &&& exists|k: int| 0 <= k < s.len() && s[k] == h
            &&& forall|k: int| 0 <= k < s.len() && (#[trigger] s[k]).t@ >= 0 ==> h.t@ <= s[k].t@
        },
    decreases s.len(),
{
    if s.len() > 0 {
        lemma_hit_props(s.drop_last());
        let prefix = s.drop_last();
        assert(forall|k: int| 0 <= k < prefix.len() ==> prefix[k] == s[k]);
        match hit_s(s) {
            None => {},
            Some(h) => {
                match hit_s(prefix) {
                    None => {
                        assert(s[s.len() - 1] == h);
                    },
                    Some(b) => {
                        if h == b {
                            let k = choose|k: int| 0 <= k < prefix.len() && prefix[k] == h;
                            assert(s[k] == h);
                        } else {
                            assert(s[s.len() - 1] == h);
                        }
                    },
                }
            },
        }
    }
}

impl Intersections {
    pub open spec fn wf(self) -> bool {
        forall|k: int|
            0 <= k < self.intersections@.len() ==> (#[trigger] self.intersections@[k]).wf()
    }

    pub fn new(intersections: Vec<Intersection>) -> (r: Intersections)
        ensures
            r.intersections == intersections,
    {
        Intersections { intersections }
    }

    /// The hit: the intersection with the lowest nonnegative `t` value, or
    /// `None` when every intersection lies behind the ray origin.
    pub fn hit(&self) -> (r: Option<Intersection>)
        ensures
            r == hit_s(self.intersections@),
            r is None <==> (forall|k: int|
                0 <= k < self.intersections@.len() ==> (#[trigger] self.intersections@[k]).t@ < 0),
            r matches Some(h) ==> {
                &&& h.t@ >= 0
                &&& exists|k: int| 0 <= k < self.intersections@.len() && self.intersections@[k] == h
                &&& forall|k: int|
                    0 <= k < self.intersections@.len() && (#[trigger] self.intersections@[k]).t@
                        >= 0 ==> h.t@ <= self.intersections@[k].t@
            },
    {
        let s = &self.intersections;
        let mut result: Option<Intersection> = None;
        let mut idx: usize = 0;
        while idx < s.len()
            invariant
                idx <= s@.len(),
                result == hit_s(s@.take(idx as int)),
            decreases s@.len() - idx,
        {
            proof {
                assert(s@.take(idx as int + 1).drop_last() =~= s@.take(idx as int));
                assert(s@.take(idx as int + 1).last() == s@[idx as int]);
            }
            let i = &s[idx];
            if i.t.n >= 0 {
                match &result {
                    None => { result = Some(i.clone()) },
                    Some(x) => {
                        if i.t.n < x.t.n {
                            result = Some(i.clone())
                        }
                    },
                }
            }
            idx = idx + 1;
        }
        proof {
            assert(s@.take(s@.len() as int) =~= s@);
            lemma_hit_props(s@);
        }
        result
    }
}

} // verus!
