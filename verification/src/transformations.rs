//! Builders for the affine transform matrices: translation, scaling,
//! rotation about each axis, shearing, and the look-at view transform.
//! Composing `T3 * T2 * T1` applies `T1` first to a point.

use vstd::prelude::*;
use crate::mathf::fx;
use crate::mathf::fx::Fx;
use crate::mathf::matrix;
use crate::mathf::matrix::Matrix;
use crate::mathf::matrix::Row;
use crate::mathf::matrix::at;
use crate::mathf::vector3;
use crate::mathf::vector3::Vector3;

verus! {

/// The translation grid for `v`: identity with `v` in the last column.
pub open spec fn translation_at(v: Vector3, r: int, c: int) -> int {
    if c == 3 && r == 0 {
        v.x@
    } else if c == 3 && r == 1 {
        v.y@
    } else if c == 3 && r == 2 {
        v.z@
    } else if r == c {
        fx::SCALE as int
    } else {
        0
    }
}

/// The scaling grid for `v`: the components of `v` on the diagonal.
pub open spec fn scaling_at(v: Vector3, r: int, c: int) -> int {
    if r != c {
        0
    } else if r == 0 {
        v.x@
    } else if r == 1 {
        v.y@
    } else if r == 2 {
        v.z@
    } else {
        fx::SCALE as int
    }
}

/// Creates a translation matrix.
pub fn translation(vector3: &Vector3) -> (m: Matrix)
    requires
        vector3.wf(),
    ensures
        m.wf(),
        m.size == 4,
        forall|r: int, c: int|
            0 <= r < 4 && 0 <= c < 4 ==> at(m, r, c) == translation_at(*vector3, r, c),
{
    let o: Fx = Fx { n: fx::SCALE };
    let z: Fx = Fx { n: 0 };
    Matrix {
        size: 4,
        data: [
            Row::new([o, z, z, vector3.x]),
            Row::new([z, o, z, vector3.y]),
            Row::new([z, z, o, vector3.z]),
            Row::new([z, z, z, o]),
        ],
    }
}

/// Creates a scaling matrix.
pub fn scaling(vector3: &Vector3) -> (m: Matrix)
    requires
        vector3.wf(),
    ensures
        m.wf(),
        m.size == 4,
        forall|r: int, c: int|
            0 <= r < 4 && 0 <= c < 4 ==> at(m, r, c) == scaling_at(*vector3, r, c),
{
    let o: Fx = Fx { n: fx::SCALE };
    let z: Fx = Fx { n: 0 };
    Matrix {
        size: 4,
        data: [
            Row::new([vector3.x, z, z, z]),
            Row::new([z, vector3.y, z, z]),
            Row::new([z, z, vector3.z, z]),
            Row::new([z, z, z, o]),
        ],
    }
}

/// Translation tells points and direction vectors apart: applied to a
/// direction vector (homogeneous coordinate 0) a translation matrix gives
/// the vector back exactly, while applied to a point (homogeneous
/// coordinate 1) it moves every component by the translation; a point
/// whose sum stays representable and whose translation is nonzero
/// therefore changes.
pub proof fn lemma_translation_point_vs_vector(t: Vector3, m: Matrix, v: Vector3)
    requires
        t.wf(),
        v.wf(),
        m.size == 4,
        forall|r: int, c: int|
            0 <= r < 4 && 0 <= c < 4 ==> at(m, r, c) == translation_at(t, r, c),
    ensures
        matrix::mul_vec_s(m, v) == v,
        matrix::mul_point_s(m, v) == vector3::add_v(v, t),
        t.x@ != 0 && fx::in_range(v.x@ + t.x@) ==> matrix::mul_point_s(m, v) != v,
{
    fx::lemma_mul_s_one(v.x@);
    fx::lemma_mul_s_one(v.y@);
    fx::lemma_mul_s_one(v.z@);
    fx::lemma_mul_s_one(t.x@);
    fx::lemma_mul_s_one(t.y@);
    fx::lemma_mul_s_one(t.z@);
    fx::lemma_mul_s_zero(v.x@);
    fx::lemma_mul_s_zero(v.y@);
    fx::lemma_mul_s_zero(v.z@);
    fx::lemma_mul_s_zero(t.x@);
    fx::lemma_mul_s_zero(t.y@);
    fx::lemma_mul_s_zero(t.z@);
}


/// The inverse of a translation matrix is exactly the opposite
/// translation: every cofactor and every quotient of the inversion pass
/// is exact, so no rounding enters.
#[verifier::rlimit(100)]
pub proof fn lemma_translation_inverse_exact(t: Vector3, m: Matrix)
    requires
        t.wf(),
        m.size == 4,
        forall|r: int, c: int|
            0 <= r < 4 && 0 <= c < 4 ==> #[trigger] at(m, r, c) == translation_at(t, r, c),
    ensures
        matrix::det_s(matrix::grid(m)) == fx::SCALE as int,
        forall|i: int, j: int|
            0 <= i < 4 && 0 <= j < 4 ==> #[trigger] matrix::inv_g(matrix::grid(m))[i][j]
                == translation_at(vector3::neg_v(t), i, j),
{
    reveal_with_fuel(matrix::det_s, 3);
    reveal_with_fuel(matrix::det_row_s, 6);
    reveal_with_fuel(matrix::cof_s, 3);
    let g = matrix::grid(m);
    let s = fx::SCALE as int;
    assert(g.len() == 4);
    assert(forall|r: int| 0 <= r < 4 ==> (#[trigger] g[r]).len() == 4);
    assert(forall|r: int, c: int|
        0 <= r < 4 && 0 <= c < 4 ==> #[trigger] g[r][c] == translation_at(t, r, c));
    fx::lemma_mul_s_unit_laws();
    matrix::lemma_det3_explicit(matrix::subgrid(g, 0, 0));
    assert(matrix::cof_s(g, 0, 0) == s);
    matrix::lemma_det3_explicit(matrix::subgrid(g, 0, 1));
    assert(matrix::cof_s(g, 0, 1) == 0);
    matrix::lemma_det3_explicit(matrix::subgrid(g, 0, 2));
    assert(matrix::cof_s(g, 0, 2) == 0);
    matrix::lemma_det3_explicit(matrix::subgrid(g, 0, 3));
    assert(matrix::cof_s(g, 0, 3) == 0);
    matrix::lemma_det3_explicit(matrix::subgrid(g, 1, 0));
    assert(matrix::cof_s(g, 1, 0) == 0);
    matrix::lemma_det3_explicit(matrix::subgrid(g, 1, 1));
    assert(matrix::cof_s(g, 1, 1) == s);
    matrix::lemma_det3_explicit(matrix::subgrid(g, 1, 2));
    assert(matrix::cof_s(g, 1, 2) == 0);
    matrix::lemma_det3_explicit(matrix::subgrid(g, 1, 3));
    assert(matrix::cof_s(g, 1, 3) == 0);
    matrix::lemma_det3_explicit(matrix::subgrid(g, 2, 0));
    assert(matrix::cof_s(g, 2, 0) == 0);
    matrix::lemma_det3_explicit(matrix::subgrid(g, 2, 1));
    assert(matrix::cof_s(g, 2, 1) == 0);
    matrix::lemma_det3_explicit(matrix::subgrid(g, 2, 2));
    assert(matrix::cof_s(g, 2, 2) == s);
    matrix::lemma_det3_explicit(matrix::subgrid(g, 2, 3));
    assert(matrix::cof_s(g, 2, 3) == 0);
    matrix::lemma_det3_explicit(matrix::subgrid(g, 3, 0));
    assert(matrix::cof_s(g, 3, 0) == fx::neg_s(t.x@));
    matrix::lemma_det3_explicit(matrix::subgrid(g, 3, 1));
    assert(matrix::cof_s(g, 3, 1) == fx::neg_s(t.y@));
    matrix::lemma_det3_explicit(matrix::subgrid(g, 3, 2));
    assert(matrix::cof_s(g, 3, 2) == fx::neg_s(t.z@));
    matrix::lemma_det3_explicit(matrix::subgrid(g, 3, 3));
    assert(matrix::cof_s(g, 3, 3) == s);
    assert(fx::mul_s(s, s) == s);
    assert(fx::mul_s(g[0][0], matrix::cof_s(g, 0, 0)) == s);
    assert(fx::mul_s(g[0][1], matrix::cof_s(g, 0, 1)) == 0);
    assert(fx::mul_s(g[0][2], matrix::cof_s(g, 0, 2)) == 0);
    assert(fx::mul_s(g[0][3], matrix::cof_s(g, 0, 3)) == 0);
    assert(matrix::det_row_s(g, 1) == s);
    assert(matrix::det_row_s(g, 2) == s);
    assert(matrix::det_row_s(g, 3) == s);
    assert(matrix::det_row_s(g, 4) == s);
    assert(matrix::det_s(g) == s);
    fx::lemma_div_s_one(s);
    fx::lemma_div_s_one(0);
    fx::lemma_div_s_one(fx::neg_s(t.x@));
    fx::lemma_div_s_one(fx::neg_s(t.y@));
    fx::lemma_div_s_one(fx::neg_s(t.z@));
    assert forall|i: int, j: int|
        0 <= i < 4 && 0 <= j < 4 implies #[trigger] matrix::inv_g(g)[i][j] == translation_at(
        vector3::neg_v(t),
        i,
        j,
    ) by {
        assert(matrix::inv_g(g)[i][j] == fx::div_s(matrix::cof_s(g, j, i), matrix::det_s(g)));
    }
}


/// A point carried through a translation and back through that
/// translation's inverse returns unchanged, whenever the translated point
/// is itself representable: for translations, the inverse round trip is
/// exact.
pub proof fn lemma_translation_round_trip(t: Vector3, m: Matrix, inv: Matrix, v: Vector3)
    requires
        t.wf(),
        v.wf(),
        m.size == 4,
        inv.size == 4,
        forall|r: int, c: int|
            0 <= r < 4 && 0 <= c < 4 ==> #[trigger] at(m, r, c) == translation_at(t, r, c),
        matrix::grid(inv) == matrix::inv_g(matrix::grid(m)),
        fx::in_range(v.x@ + t.x@),
        fx::in_range(v.y@ + t.y@),
        fx::in_range(v.z@ + t.z@),
    ensures
        matrix::mul_point_s(inv, matrix::mul_point_s(m, v)) == v,
{
    lemma_translation_inverse_exact(t, m);
    let nt = vector3::neg_v(t);
    assert forall|r: int, c: int|
        0 <= r < 4 && 0 <= c < 4 implies #[trigger] at(inv, r, c) == translation_at(nt, r, c) by {
        assert(matrix::grid(inv)[r][c] == at(inv, r, c));
        assert(matrix::inv_g(matrix::grid(m))[r][c] == translation_at(nt, r, c));
    }
    lemma_translation_point_vs_vector(t, m, v);
    let moved = vector3::add_v(v, t);
    lemma_translation_point_vs_vector(nt, inv, moved);
    assert(vector3::add_v(moved, nt) == v);
}

/// The rotation grid about the x axis for the angle with sine `s` and
/// cosine `c`.
pub open spec fn rotation_x_at(s: int, co: int, r: int, c: int) -> int {
    if r == 0 && c == 0 {
        fx::SCALE as int
    } else if r == 1 && c == 1 {
        co
    } else if r == 1 && c == 2 {
        fx::neg_s(s)
    } else if r == 2 && c == 1 {
        s
    } else if r == 2 && c == 2 {
        co
    } else if r == 3 && c == 3 {
        fx::SCALE as int
    } else {
        0
    }
}

/// Creates a matrix rotating about the x axis by the given angle in
/// radians.
#[verifier::rlimit(40)]
pub fn rotation_x(radians: Fx) -> (m: Matrix)
    requires
        radians.wf(),
    ensures
        m.wf(),
        m.size == 4,
        forall|r: int, c: int|
            0 <= r < 4 && 0 <= c < 4 ==> at(m, r, c) == rotation_x_at(
                fx::sin_s(radians@),
                fx::cos_s(radians@),
                r,
                c,
            ),
{
    let o: Fx = Fx { n: fx::SCALE };
    let z: Fx = Fx { n: 0 };
    let s: Fx = radians.sin();
    let co: Fx = radians.cos();
    Matrix {
        size: 4,
        data: [
            Row::new([o, z, z, z]),
            Row::new([z, co, s.neg(), z]),
            Row::new([z, s, co, z]),
            Row::new([z, z, z, o]),
        ],
    }
}

/// The rotation grid about the y axis.
pub open spec fn rotation_y_at(s: int, co: int, r: int, c: int) -> int {
    if r == 0 && c == 0 {
        co
    } else if r == 0 && c == 2 {
        s
    } else if r == 1 && c == 1 {
        fx::SCALE as int
    } else if r == 2 && c == 0 {
        fx::neg_s(s)
    } else if r == 2 && c == 2 {
        co
    } else if r == 3 && c == 3 {
        fx::SCALE as int
    } else {
        0
    }
}

/// Creates a matrix rotating about the y axis by the given angle in
/// radians.
#[verifier::rlimit(40)]
pub fn rotation_y(radians: Fx) -> (m: Matrix)
    requires
        radians.wf(),
    ensures
        m.wf(),
        m.size == 4,
        forall|r: int, c: int|
            0 <= r < 4 && 0 <= c < 4 ==> at(m, r, c) == rotation_y_at(
                fx::sin_s(radians@),
                fx::cos_s(radians@),
                r,
                c,
            ),
{
    let o: Fx = Fx { n: fx::SCALE };
    let z: Fx = Fx { n: 0 };
    let s: Fx = radians.sin();
    let co: Fx = radians.cos();
    Matrix {
        size: 4,
        data: [
            Row::new([co, z, s, z]),
            Row::new([z, o, z, z]),
            Row::new([s.neg(), z, co, z]),
            Row::new([z, z, z, o]),
        ],
    }
}

/// The rotation grid about the z axis.
pub open spec fn rotation_z_at(s: int, co: int, r: int, c: int) -> int {
    if r == 0 && c == 0 {
        co
    } else if r == 0 && c == 1 {
        fx::neg_s(s)
    } else if r == 1 && c == 0 {
        s
    } else if r == 1 && c == 1 {
        co
    } else if r == 2 && c == 2 {
        fx::SCALE as int
    } else if r == 3 && c == 3 {
        fx::SCALE as int
    } else {
        0
    }
}

/// Creates a matrix rotating about the z axis by the given angle in
/// radians.
#[verifier::rlimit(40)]
pub fn rotation_z(radians: Fx) -> (m: Matrix)
    requires
        radians.wf(),
    ensures
        m.wf(),
        m.size == 4,
        forall|r: int, c: int|
            0 <= r < 4 && 0 <= c < 4 ==> at(m, r, c) == rotation_z_at(
                fx::sin_s(radians@),
                fx::cos_s(radians@),
                r,
                c,
            ),
{
    let o: Fx = Fx { n: fx::SCALE };
    let z: Fx = Fx { n: 0 };
    let s: Fx = radians.sin();
    let co: Fx = radians.cos();
    Matrix {
        size: 4,
        data: [
            Row::new([co, s.neg(), z, z]),
            Row::new([s, co, z, z]),
            Row::new([z, z, o, z]),
            Row::new([z, z, z, o]),
        ],
    }
}

/// The shearing grid: identity plus the six cross components.
pub open spec fn shearing_at(
    xy: int,
    xz: int,
    yx: int,
    yz: int,
    zx: int,
    zy: int,
    r: int,
    c: int,
) -> int {
    if r == c && 0 <= r < 4 {
        fx::SCALE as int
    } else if r == 0 && c == 1 {
        xy
    } else if r == 0 && c == 2 {
        xz
    } else if r == 1 && c == 0 {
        yx
    } else if r == 1 && c == 2 {
        yz
    } else if r == 2 && c == 0 {
        zx
    } else if r == 2 && c == 1 {
        zy
    } else {
        0
    }
}

/// Creates a shearing matrix: each component moves in proportion to the
/// other two.
pub fn shearing(xy: Fx, xz: Fx, yx: Fx, yz: Fx, zx: Fx, zy: Fx) -> (m: Matrix)
    requires
        xy.wf(),
        xz.wf(),
        yx.wf(),
        yz.wf(),
        zx.wf(),
        zy.wf(),
    ensures
        m.wf(),
        m.size == 4,
        forall|r: int, c: int|
            0 <= r < 4 && 0 <= c < 4 ==> at(m, r, c) == shearing_at(
                xy@,
                xz@,
                yx@,
                yz@,
                zx@,
                zy@,
                r,
                c,
            ),
{
    let o: Fx = Fx { n: fx::SCALE };
    let z: Fx = Fx { n: 0 };
    Matrix {
        size: 4,
        data: [
            Row::new([o, xy, xz, z]),
            Row::new([yx, o, yz, z]),
            Row::new([zx, zy, o, z]),
            Row::new([z, z, z, o]),
        ],
    }
}

/// The orientation grid of a view transform, from the left, true-up and
/// forward basis vectors.
pub open spec fn orientation_at(left: Vector3, true_up: Vector3, forward: Vector3, r: int, c: int) -> int {
    if r == 0 && c == 0 {
        left.x@
    } else if r == 0 && c == 1 {
        left.y@
    } else if r == 0 && c == 2 {
        left.z@
    } else if r == 1 && c == 0 {
        true_up.x@
    } else if r == 1 && c == 1 {
        true_up.y@
    } else if r == 1 && c == 2 {
        true_up.z@
    } else if r == 2 && c == 0 {
        fx::neg_s(forward.x@)
    } else if r == 2 && c == 1 {
        fx::neg_s(forward.y@)
    } else if r == 2 && c == 2 {
        fx::neg_s(forward.z@)
    } else if r == 3 && c == 3 {
        fx::SCALE as int
    } else {
        0
    }
}

/// The forward basis vector of a view from `from` toward `to`.
pub open spec fn view_forward_s(from: Vector3, to: Vector3) -> Vector3 {
    vector3::norm_v(vector3::sub_v(to, from))
}

/// The left basis vector of a view.
pub open spec fn view_left_s(from: Vector3, to: Vector3, up: Vector3) -> Vector3 {
    vector3::cross_v(view_forward_s(from, to), vector3::norm_v(up))
}

/// The recomputed up basis vector of a view.
pub open spec fn view_true_up_s(from: Vector3, to: Vector3, up: Vector3) -> Vector3 {
    vector3::cross_v(view_left_s(from, to, up), view_forward_s(from, to))
}

/// The orientation entry of the view with the given scene framing.
pub open spec fn view_orientation_at(from: Vector3, to: Vector3, up: Vector3, r: int, c: int) -> int {
    orientation_at(view_left_s(from, to, up), view_true_up_s(from, to, up), view_forward_s(from, to), r, c)
}

/// Entry `(r, c)` of the full view transform: the orientation multiplied
/// by the translation that moves the eye to the origin.
pub open spec fn view_at(from: Vector3, to: Vector3, up: Vector3, r: int, c: int) -> int {
    let t = vector3::neg_v(from);
    fx::add_s(
        fx::add_s(
            fx::add_s(
                fx::mul_s(view_orientation_at(from, to, up, r, 0), translation_at(t, 0, c)),
                fx::mul_s(view_orientation_at(from, to, up, r, 1), translation_at(t, 1, c)),
            ),
            fx::mul_s(view_orientation_at(from, to, up, r, 2), translation_at(t, 2, c)),
        ),
        fx::mul_s(view_orientation_at(from, to, up, r, 3), translation_at(t, 3, c)),
    )
}

/// Creates the view transform looking from `from` toward `to` with the
/// given approximate up direction: the orientation of the new basis,
/// composed with a translation that moves the eye to the origin.
pub fn view_transform(from: Vector3, to: Vector3, up: Vector3) -> (m: Matrix)
    requires
        from.wf(),
        to.wf(),
        up.wf(),
    ensures
        m.wf(),
        m.size == 4,
        forall|r: int, c: int|
            0 <= r < 4 && 0 <= c < 4 ==> at(m, r, c) == view_at(from, to, up, r, c),
{
    let forward: Vector3 = to.sub(&from).normalize();
    let left: Vector3 = forward.cross(&up.normalize());
    let true_up: Vector3 = left.cross(&forward);
    let o: Fx = Fx { n: fx::SCALE };
    let z: Fx = Fx { n: 0 };
    let orientation = Matrix {
        size: 4,
        data: [
            Row::new([left.x, left.y, left.z, z]),
            Row::new([true_up.x, true_up.y, true_up.z, z]),
            Row::new([forward.x.neg(), forward.y.neg(), forward.z.neg(), z]),
            Row::new([z, z, z, o]),
        ],
    };
    orientation.multiply_4x4(&translation(&vector3::new(from.x.neg(), from.y.neg(), from.z.neg())))
}

} // verus!
