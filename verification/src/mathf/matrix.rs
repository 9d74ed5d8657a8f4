//! Square matrices of fixed-point values, up to 4 x 4: multiplication,
//! transposition, and inversion by cofactor expansion.

use vstd::prelude::*;
use crate::mathf::fx;
use crate::mathf::fx::Fx;
use crate::mathf::fx::EPSILON;
use crate::mathf::vector3::Vector3;

verus! {

/// One row of a matrix; rows of smaller matrices leave trailing entries zero.
#[derive(Clone, Copy, Debug)]
pub struct Row {
    pub columns: [Fx; 4],
}

impl Row {
    pub fn new(data: [Fx; 4]) -> (r: Row)
        ensures
            r.columns == data,
    {
        Row { columns: data }
    }
}

/// Inverting a matrix whose determinant is within tolerance of zero fails
/// with this error.
#[derive(Clone, Copy, Debug, PartialEq, Eq, Structural)]
pub struct NotInvertibleError;

/// A square matrix of `size` rows and columns (2, 3 or 4), stored in a
/// fixed 4 x 4 grid whose unused entries are zero.
#[derive(Clone, Copy, Debug)]
pub struct Matrix {
    pub size: usize,
    pub data: [Row; 4],
}

/// The entry of `m` at row `r`, column `c`, as a spec value.
pub open spec fn at(m: Matrix, r: int, c: int) -> int {
    m.data[r].columns[c]@
}

/// The `size x size` grid of entries of `m`.
pub open spec fn grid(m: Matrix) -> Seq<Seq<int>> {
    Seq::new(m.size as nat, |r: int| Seq::new(m.size as nat, |c: int| at(m, r, c)))
}

/// The source index that lands at position `i` once index `removed` is
/// deleted.
pub open spec fn skip_idx(i: int, removed: int) -> int {
    if i >= removed {
        i + 1
    } else {
        i
    }
}

/// The grid with row `rr` and column `rc` removed.
pub open spec fn subgrid(g: Seq<Seq<int>>, rr: int, rc: int) -> Seq<Seq<int>> {
    Seq::new(
        (g.len() - 1) as nat,
        |r: int| Seq::new((g.len() - 1) as nat, |c: int| g[skip_idx(r, rr)][skip_idx(c, rc)]),
    )
}

/// The determinant of a 2 x 2 grid: `ad - bc` in fixed point.
pub open spec fn det2_s(g: Seq<Seq<int>>) -> int {
    fx::sub_s(fx::mul_s(g[0][0], g[1][1]), fx::mul_s(g[0][1], g[1][0]))
}

/// The determinant of a grid, by cofactor expansion along the first row.
pub open spec fn det_s(g: Seq<Seq<int>>) -> int
    decreases g.len(), 2int, 0int,
{
    if g.len() <= 1 {
        0
    } else if g.len() == 2 {
        det2_s(g)
    } else {
        det_row_s(g, g.len() as int)
    }
}

/// The partial cofactor expansion over the first `k` columns of row 0.
pub open spec fn det_row_s(g: Seq<Seq<int>>, k: int) -> int
    decreases g.len(), 1int, k,
{
    if k <= 0 {
        0
    } else {
        fx::add_s(det_row_s(g, k - 1), fx::mul_s(g[0][k - 1], cof_s(g, 0, k - 1)))
    }
}

/// The cofactor at `(r, c)`: the minor, negated on odd `r + c`.
pub open spec fn cof_s(g: Seq<Seq<int>>, r: int, c: int) -> int
    decreases g.len(), 0int, 0int,
{
    if g.len() < 2 {
        0
    } else if (r + c) % 2 == 1 {
        fx::neg_s(det_s(subgrid(g, r, c)))
    } else {
        det_s(subgrid(g, r, c))
    }
}

/// The inverse of a 4 x 4 grid: entry `(i, j)` is the cofactor at `(j, i)`
/// divided by the determinant (the transposed adjugate, folded into one
/// pass).
pub open spec fn inv_g(g: Seq<Seq<int>>) -> Seq<Seq<int>> {
    Seq::new(4, |i: int| Seq::new(4, |j: int| fx::div_s(cof_s(g, j, i), det_s(g))))
}

/// The identity entry: one on the diagonal, zero elsewhere.
pub open spec fn identity_at(r: int, c: int) -> int {
    if r == c {
        fx::SCALE as int
    } else {
        0
    }
}

/// One component of a product with the TRANSPOSE of `m`: column `i` of
/// `m` against `(x, y, z, w)`.
pub open spec fn mv_t_entry_s(m: Matrix, v: Vector3, w: int, i: int) -> int {
    fx::add_s(
        fx::add_s(
            fx::add_s(fx::mul_s(at(m, 0, i), v.x@), fx::mul_s(at(m, 1, i), v.y@)),
            fx::mul_s(at(m, 2, i), v.z@),
        ),
        fx::mul_s(at(m, 3, i), w),
    )
}

/// The transpose of a matrix applied to a direction vector.
pub open spec fn mul_vec_transposed_s(m: Matrix, v: Vector3) -> Vector3 {
    Vector3 {
        x: fx::fx(mv_t_entry_s(m, v, 0, 0)),
        y: fx::fx(mv_t_entry_s(m, v, 0, 1)),
        z: fx::fx(mv_t_entry_s(m, v, 0, 2)),
    }
}

/// Entry `(i, j)` of the product of two 4 x 4 matrices.
pub open spec fn mm_entry_s(a: Matrix, b: Matrix, i: int, j: int) -> int {
    fx::add_s(
        fx::add_s(
            fx::add_s(
                fx::mul_s(at(a, i, 0), at(b, 0, j)),
                fx::mul_s(at(a, i, 1), at(b, 1, j)),
            ),
            fx::mul_s(at(a, i, 2), at(b, 2, j)),
        ),
        fx::mul_s(at(a, i, 3), at(b, 3, j)),
    )
}

/// One component of a matrix-vector product with homogeneous coordinate `w`.
pub open spec fn mv_entry_s(m: Matrix, v: Vector3, w: int, i: int) -> int {
    fx::add_s(
        fx::add_s(
            fx::add_s(fx::mul_s(at(m, i, 0), v.x@), fx::mul_s(at(m, i, 1), v.y@)),
            fx::mul_s(at(m, i, 2), v.z@),
        ),
        fx::mul_s(at(m, i, 3), w),
    )
}

/// A matrix applied to a point (homogeneous coordinate 1, so translation
/// applies).
pub open spec fn mul_point_s(m: Matrix, v: Vector3) -> Vector3 {
    Vector3 {
        x: fx::fx(mv_entry_s(m, v, fx::SCALE as int, 0)),
        y: fx::fx(mv_entry_s(m, v, fx::SCALE as int, 1)),
        z: fx::fx(mv_entry_s(m, v, fx::SCALE as int, 2)),
    }
}

/// A matrix applied to a direction vector (homogeneous coordinate 0, so
/// translation has no effect).
pub open spec fn mul_vec_s(m: Matrix, v: Vector3) -> Vector3 {
    Vector3 {
        x: fx::fx(mv_entry_s(m, v, 0, 0)),
        y: fx::fx(mv_entry_s(m, v, 0, 1)),
        z: fx::fx(mv_entry_s(m, v, 0, 2)),
    }
}

/// The determinant of a diagonal 4 x 4 grid is the fixed-point product of
/// its diagonal: every other term of the cofactor expansion carries a
/// zero factor.
pub proof fn lemma_diag_det(g: Seq<Seq<int>>)
    requires
        g.len() == 4,
        forall|r: int| 0 <= r < 4 ==> (#[trigger] g[r]).len() == 4,
        forall|r: int, c: int| 0 <= r < 4 && 0 <= c < 4 && r != c ==> #[trigger] g[r][c] == 0,
    ensures
        det_s(g) == fx::mul_s(g[0][0], fx::mul_s(g[1][1], fx::mul_s(g[2][2], g[3][3]))),
{
    reveal_with_fuel(det_s, 4);
    reveal_with_fuel(det_row_s, 6);
    reveal_with_fuel(cof_s, 4);
    let g3 = subgrid(g, 0, 0);
    let g2 = subgrid(g3, 0, 0);
    assert(g3.len() == 3);
    assert(forall|r: int, c: int|
        0 <= r < 3 && 0 <= c < 3 ==> #[trigger] g3[r][c] == g[r + 1][c + 1]);
    assert(g2.len() == 2);
    assert(forall|r: int, c: int|
        0 <= r < 2 && 0 <= c < 2 ==> #[trigger] g2[r][c] == g3[r + 1][c + 1]);
    // 2 x 2 base: the off-diagonal product is zero.
    fx::lemma_mul_s_zero(g2[1][0]);
    assert(det_s(g2) == fx::sub_s(fx::mul_s(g2[0][0], g2[1][1]), 0));
    assert(det_s(g2) == fx::mul_s(g[2][2], g[3][3]));
    // 3 x 3 step: only the first column of row 0 survives.
    fx::lemma_mul_s_zero(cof_s(g3, 0, 1));
    fx::lemma_mul_s_zero(cof_s(g3, 0, 2));
    assert(cof_s(g3, 0, 0) == det_s(g2));
    assert(det_row_s(g3, 1) == fx::add_s(0, fx::mul_s(g3[0][0], cof_s(g3, 0, 0))));
    assert(det_s(g3) == fx::mul_s(g[1][1], det_s(g2)));
    // 4 x 4 step: only the first column of row 0 survives.
    fx::lemma_mul_s_zero(cof_s(g, 0, 1));
    fx::lemma_mul_s_zero(cof_s(g, 0, 2));
    fx::lemma_mul_s_zero(cof_s(g, 0, 3));
    assert(subgrid(g, 0, 0) =~~= g3);
    assert(cof_s(g, 0, 0) == det_s(g3));
    assert(det_row_s(g, 1) == fx::add_s(0, fx::mul_s(g[0][0], cof_s(g, 0, 0))));
    assert(det_s(g) == fx::mul_s(g[0][0], fx::mul_s(g[1][1], fx::mul_s(g[2][2], g[3][3]))));
}

/// The determinant of a 3 x 3 grid, written out over its entries.
pub proof fn lemma_det3_explicit(g: Seq<Seq<int>>)
    requires
        g.len() == 3,
    ensures
        det_s(g) == fx::add_s(
            fx::add_s(
                fx::add_s(
                    0,
                    fx::mul_s(
                        g[0][0],
                        fx::sub_s(fx::mul_s(g[1][1], g[2][2]), fx::mul_s(g[1][2], g[2][1])),
                    ),
                ),
                fx::mul_s(
                    g[0][1],
                    fx::neg_s(
                        fx::sub_s(fx::mul_s(g[1][0], g[2][2]), fx::mul_s(g[1][2], g[2][0])),
                    ),
                ),
            ),
            fx::mul_s(
                g[0][2],
                fx::sub_s(fx::mul_s(g[1][0], g[2][1]), fx::mul_s(g[1][1], g[2][0])),
            ),
        ),
{
    reveal_with_fuel(det_s, 3);
    reveal_with_fuel(det_row_s, 5);
    reveal_with_fuel(cof_s, 3);
    let s0 = subgrid(g, 0, 0);
    let s1 = subgrid(g, 0, 1);
    let s2 = subgrid(g, 0, 2);
    assert(s0[0][0] == g[1][1] && s0[0][1] == g[1][2] && s0[1][0] == g[2][1] && s0[1][1]
        == g[2][2]);
    assert(s1[0][0] == g[1][0] && s1[0][1] == g[1][2] && s1[1][0] == g[2][0] && s1[1][1]
        == g[2][2]);
    assert(s2[0][0] == g[1][0] && s2[0][1] == g[1][1] && s2[1][0] == g[2][0] && s2[1][1]
        == g[2][1]);
    assert(cof_s(g, 0, 0) == det2_s(s0));
    assert(cof_s(g, 0, 1) == fx::neg_s(det2_s(s1)));
    assert(cof_s(g, 0, 2) == det2_s(s2));
}

/// Multiplying by the identity changes no entry, on either side: every
/// cross term carries a zero factor and the diagonal factor is exactly
/// one.
pub proof fn lemma_multiply_identity(m: Matrix, id: Matrix, i: int, j: int)
    requires
        m.wf(),
        id.size == 4,
        forall|r: int, c: int|
            0 <= r < 4 && 0 <= c < 4 ==> #[trigger] at(id, r, c) == identity_at(r, c),
        0 <= i < 4,
        0 <= j < 4,
    ensures
        mm_entry_s(m, id, i, j) == at(m, i, j),
        mm_entry_s(id, m, i, j) == at(m, i, j),
{
    fx::lemma_mul_s_one(at(m, i, j));
    fx::lemma_mul_s_zero(at(m, i, 0));
    fx::lemma_mul_s_zero(at(m, i, 1));
    fx::lemma_mul_s_zero(at(m, i, 2));
    fx::lemma_mul_s_zero(at(m, i, 3));
    fx::lemma_mul_s_zero(at(m, 0, j));
    fx::lemma_mul_s_zero(at(m, 1, j));
    fx::lemma_mul_s_zero(at(m, 2, j));
    fx::lemma_mul_s_zero(at(m, 3, j));
    assert(fx::in_range(at(m, i, j)));
    if j == 0 {
        assert(mm_entry_s(m, id, i, j) == at(m, i, j));
    } else if j == 1 {
        assert(mm_entry_s(m, id, i, j) == at(m, i, j));
    } else if j == 2 {
        assert(mm_entry_s(m, id, i, j) == at(m, i, j));
    } else {
        assert(mm_entry_s(m, id, i, j) == at(m, i, j));
    }
    if i == 0 {
        assert(mm_entry_s(id, m, i, j) == at(m, i, j));
    } else if i == 1 {
        assert(mm_entry_s(id, m, i, j) == at(m, i, j));
    } else if i == 2 {
        assert(mm_entry_s(id, m, i, j) == at(m, i, j));
    } else {
        assert(mm_entry_s(id, m, i, j) == at(m, i, j));
    }
}

/// A matrix whose entries are the identity entries has determinant one
/// (in fixed-point units), which is well clear of the inversion tolerance.
pub proof fn lemma_identity_like_det(m: Matrix)
    requires
        m.size == 4,
        forall|r: int, c: int| 0 <= r < 4 && 0 <= c < 4 ==> at(m, r, c) == identity_at(r, c),
    ensures
        det_s(grid(m)) == fx::SCALE as int,
{
    let g = grid(m);
    assert(forall|r: int| 0 <= r < 4 ==> (#[trigger] g[r]).len() == 4);
    assert(forall|r: int, c: int|
        0 <= r < 4 && 0 <= c < 4 ==> #[trigger] g[r][c] == identity_at(r, c));
    lemma_diag_det(g);
    fx::lemma_mul_s_one(fx::SCALE as int);
}

/// Moves an index past a removed row or column.
fn skip_exec(i: usize, removed: usize) -> (r: usize)
    requires
        i < 3,
    ensures
        r as int == skip_idx(i as int, removed as int),
        r < 4,
{
    if i >= removed {
        i + 1
    } else {
        i
    }
}

impl Matrix {
    /// All entries are representable and the size is supported.
    pub open spec fn wf(self) -> bool {
        2 <= self.size <= 4 && forall|r: int, c: int|
            0 <= r < 4 && 0 <= c < 4 ==> fx::in_range(#[trigger] at(self, r, c))
    }

    fn get(&self, r: usize, c: usize) -> (e: Fx)
        requires
            r < 4,
            c < 4,
        ensures
            e@ == at(*self, r as int, c as int),
    {
        self.data[r].columns[c]
    }

    pub fn identity_4x4() -> (m: Matrix)
        ensures
            m.wf(),
            m.size == 4,
            forall|r: int, c: int|
                0 <= r < 4 && 0 <= c < 4 ==> at(m, r, c) == identity_at(r, c),
    {
        let o: Fx = Fx { n: fx::SCALE };
        let z: Fx = Fx { n: 0 };
        Matrix {
            size: 4,
            data: [
                Row::new([o, z, z, z]),
                Row::new([z, o, z, z]),
                Row::new([z, z, o, z]),
                Row::new([z, z, z, o]),
            ],
        }
    }

    /// Entry `(i, j)` of `self * rhs`: row `i` of `self` against column `j`
    /// of `rhs`.
    fn mm(&self, rhs: &Matrix, i: usize, j: usize) -> (e: Fx)
        requires
            self.wf(),
            rhs.wf(),
            i < 4,
            j < 4,
        ensures
            e.wf(),
            e@ == mm_entry_s(*self, *rhs, i as int, j as int),
    {
        self.get(i, 0).mul(rhs.get(0, j)).add(self.get(i, 1).mul(rhs.get(1, j))).add(
            self.get(i, 2).mul(rhs.get(2, j)),
        ).add(self.get(i, 3).mul(rhs.get(3, j)))
    }

    pub fn multiply_4x4(&self, rhs: &Matrix) -> (m: Matrix)
        requires
            self.wf(),
            rhs.wf(),
            self.size == 4,
            rhs.size == 4,
        ensures
            m.wf(),
            m.size == 4,
            forall|r: int, c: int|
                0 <= r < 4 && 0 <= c < 4 ==> at(m, r, c) == mm_entry_s(*self, *rhs, r, c),
    {
        Matrix {
            size: 4,
            data: [
                Row::new(
                    [self.mm(rhs, 0, 0), self.mm(rhs, 0, 1), self.mm(rhs, 0, 2), self.mm(rhs, 0, 3)],
                ),
                Row::new(
                    [self.mm(rhs, 1, 0), self.mm(rhs, 1, 1), self.mm(rhs, 1, 2), self.mm(rhs, 1, 3)],
                ),
                Row::new(
                    [self.mm(rhs, 2, 0), self.mm(rhs, 2, 1), self.mm(rhs, 2, 2), self.mm(rhs, 2, 3)],
                ),
                Row::new(
                    [self.mm(rhs, 3, 0), self.mm(rhs, 3, 1), self.mm(rhs, 3, 2), self.mm(rhs, 3, 3)],
                ),
            ],
        }
    }

    /// One component of the product with `(x, y, z, w)`.
    fn mv(&self, rhs: &Vector3, w: Fx, i: usize) -> (e: Fx)
        requires
            self.wf(),
            rhs.wf(),
            w.wf(),
            i < 4,
        ensures
            e.wf(),
            e@ == mv_entry_s(*self, *rhs, w@, i as int),
    {
        self.get(i, 0).mul(rhs.x).add(self.get(i, 1).mul(rhs.y)).add(self.get(i, 2).mul(rhs.z)).add(
            self.get(i, 3).mul(w),
        )
    }

    /// Applies the matrix with homogeneous coordinate `w`, keeping the
    /// first three components.
    fn multiply_vector4(&self, rhs: &Vector3, w: Fx) -> (r: Vector3)
        requires
            self.wf(),
            rhs.wf(),
            w.wf(),
        ensures
            r.wf(),
            r.x@ == mv_entry_s(*self, *rhs, w@, 0),
            r.y@ == mv_entry_s(*self, *rhs, w@, 1),
            r.z@ == mv_entry_s(*self, *rhs, w@, 2),
    {
        Vector3 { x: self.mv(rhs, w, 0), y: self.mv(rhs, w, 1), z: self.mv(rhs, w, 2) }
    }

    /// Applies the matrix to a point: the homogeneous coordinate is 1, so
    /// translation applies.
    pub fn multiply_point(&self, rhs: &Vector3) -> (r: Vector3)
        requires
            self.wf(),
            rhs.wf(),
            self.size == 4,
        ensures
            r.wf(),
            r == mul_point_s(*self, *rhs),
    {
        self.multiply_vector4(rhs, Fx { n: fx::SCALE })
    }

    /// Applies the matrix to a direction vector: the homogeneous coordinate
    /// is 0, so translation has no effect.
    pub fn multiply_vector(&self, rhs: &Vector3) -> (r: Vector3)
        requires
            self.wf(),
            rhs.wf(),
            self.size == 4,
        ensures
            r.wf(),
            r == mul_vec_s(*self, *rhs),
    {
        self.multiply_vector4(rhs, Fx { n: 0 })
    }

    pub fn transpose(&self) -> (m: Matrix)
        requires
            self.wf(),
            self.size == 4,
        ensures
            m.wf(),
            m.size == 4,
            forall|r: int, c: int| 0 <= r < 4 && 0 <= c < 4 ==> at(m, r, c) == at(*self, c, r),
    {
        Matrix {
            size: 4,
            data: [
                Row::new([self.get(0, 0), self.get(1, 0), self.get(2, 0), self.get(3, 0)]),
                Row::new([self.get(0, 1), self.get(1, 1), self.get(2, 1), self.get(3, 1)]),
                Row::new([self.get(0, 2), self.get(1, 2), self.get(2, 2), self.get(3, 2)]),
                Row::new([self.get(0, 3), self.get(1, 3), self.get(2, 3), self.get(3, 3)]),
            ],
        }
    }

    /// A copy with the given row and column removed; trailing entries of
    /// the smaller matrix are zero.
    pub fn submatrix(&self, remove_row: usize, remove_col: usize) -> (m: Matrix)
        requires
            self.wf(),
            3 <= self.size,
            remove_row < self.size,
            remove_col < self.size,
        ensures
            m.wf(),
            m.size + 1 == self.size,
            grid(m) == subgrid(grid(*self), remove_row as int, remove_col as int),
    {
        let z: Fx = Fx { n: 0 };
        let m = if self.size == 4 {
            let e = |r: usize, c: usize| -> (e: Fx)
                requires
                    r < 3,
                    c < 3,
                    self.wf(),
                ensures
                    e@ == at(
                        *self,
                        skip_idx(r as int, remove_row as int),
                        skip_idx(c as int, remove_col as int),
                    ),
                { self.get(skip_exec(r, remove_row), skip_exec(c, remove_col)) };
            Matrix {
                size: 3,
                data: [
                    Row::new([e(0, 0), e(0, 1), e(0, 2), z]),
                    Row::new([e(1, 0), e(1, 1), e(1, 2), z]),
                    Row::new([e(2, 0), e(2, 1), e(2, 2), z]),
                    Row::new([z, z, z, z]),
                ],
            }
        } else {
            let e = |r: usize, c: usize| -> (e: Fx)
                requires
                    r < 2,
                    c < 2,
                    self.wf(),
                ensures
                    e@ == at(
                        *self,
                        skip_idx(r as int, remove_row as int),
                        skip_idx(c as int, remove_col as int),
                    ),
                { self.get(skip_exec(r, remove_row), skip_exec(c, remove_col)) };
            Matrix {
                size: 2,
                data: [
                    Row::new([e(0, 0), e(0, 1), z, z]),
                    Row::new([e(1, 0), e(1, 1), z, z]),
                    Row::new([z, z, z, z]),
                    Row::new([z, z, z, z]),
                ],
            }
        };
        proof {
            assert(grid(m) =~~= subgrid(grid(*self), remove_row as int, remove_col as int));
        }
        m
    }

    /// The determinant of the submatrix at `(row, col)`.
    pub fn minor(&self, row: usize, col: usize) -> (r: Fx)
        requires
            self.wf(),
            3 <= self.size,
            row < self.size,
            col < self.size,
        ensures
            r.wf(),
            r@ == det_s(subgrid(grid(*self), row as int, col as int)),
        decreases self.size, 0int,
    {
        let sub = self.submatrix(row, col);
        sub.determinant()
    }

    /// The minor at `(row, col)`, negated when `row + col` is odd.
    pub fn cofactor(&self, row: usize, col: usize) -> (r: Fx)
        requires
            self.wf(),
            3 <= self.size,
            row < self.size,
            col < self.size,
        ensures
            r.wf(),
            r@ == cof_s(grid(*self), row as int, col as int),
        decreases self.size, 1int,
    {
        let minor = self.minor(row, col);
        let is_odd = (row + col) % 2 == 1;
        if is_odd {
            minor.neg()
        } else {
            minor
        }
    }

    /// The determinant: `ad - bc` for a 2 x 2 matrix, and the cofactor
    /// expansion along the first row above that.
    pub fn determinant(&self) -> (r: Fx)
        requires
            self.wf(),
        ensures
            r.wf(),
            r@ == det_s(grid(*self)),
        decreases self.size, 2int,
    {
        if self.size == 2 {
            return self.get(0, 0).mul(self.get(1, 1)).sub(self.get(0, 1).mul(self.get(1, 0)));
        }
        let mut det: Fx = Fx { n: 0 };
        let mut col: usize = 0;
        while col < self.size
            invariant
                self.wf(),
                3 <= self.size <= 4,
                col <= self.size,
                det.wf(),
                det@ == det_row_s(grid(*self), col as int),
            decreases self.size - col,
        {
            det = det.add(self.get(0, col).mul(self.cofactor(0, col)));
            col = col + 1;
        }
        det
    }

    /// Whether the determinant is at least the tolerance away from zero.
    pub fn is_invertible(&self) -> (r: bool)
        requires
            self.wf(),
        ensures
            r == (fx::abs_s(det_s(grid(*self))) >= EPSILON as int),
    {
        let det = self.determinant();
        !crate::mathf::approximately(det, Fx { n: 0 })
    }

    /// The inverse, or `NotInvertibleError` when the determinant is within
    /// tolerance of zero.  Each entry `(c, r)` of the result is the
    /// cofactor at `(r, c)` over the determinant: assigning transposed
    /// folds the adjugate transpose into the same pass.
    pub fn inverse(&self) -> (res: Result<Matrix, NotInvertibleError>)
        requires
            self.wf(),
            self.size == 4,
        ensures
            res is Err <==> fx::abs_s(det_s(grid(*self))) < EPSILON as int,
            res matches Ok(m) ==> m.wf() && m.size == 4 && grid(m) == inv_g(grid(*self)),
    {
        if !self.is_invertible() {
            return Err(NotInvertibleError);
        }
        let det = self.determinant();
        let e = |r: usize, c: usize| -> (e: Fx)
            requires
                r < 4,
                c < 4,
                self.wf(),
                self.size == 4,
                det.wf(),
                det@ == det_s(grid(*self)),
                det@ != 0,
            ensures
                e.wf(),
                e@ == fx::div_s(cof_s(grid(*self), c as int, r as int), det_s(grid(*self))),
            { self.cofactor(c, r).div(det) };
        let m = Matrix {
            size: 4,
            data: [
                Row::new([e(0, 0), e(0, 1), e(0, 2), e(0, 3)]),
                Row::new([e(1, 0), e(1, 1), e(1, 2), e(1, 3)]),
                Row::new([e(2, 0), e(2, 1), e(2, 2), e(2, 3)]),
                Row::new([e(3, 0), e(3, 1), e(3, 2), e(3, 3)]),
            ],
        };
        proof {
            assert(grid(m) =~~= inv_g(grid(*self)));
        }
        Ok(m)
    }
}

} // verus!
