//! Fixed-point scalar arithmetic.
//!
//! Every geometric quantity in this library is a real number represented in
//! decimal fixed point: an `i128` count of trillionths (`SCALE` units per
//! whole).  Arithmetic truncates toward zero after each operation and
//! saturates at `FX_MAX`, so every operation is total and its result is
//! pinned exactly by the spec functions below.

use vstd::prelude::*;

verus! {

/// Number of fixed-point units in 1.0 (one trillion).
pub const SCALE: i128 = 1_000_000_000_000;

/// Saturation bound: values live in `[-FX_MAX, FX_MAX]` (ten million in
/// real terms), so products of two in-range values fit in an `i128`.
pub const FX_MAX: i128 = 10_000_000_000_000_000_000;

/// Comparison tolerance: one hundred-thousandth, in fixed-point units.
pub const EPSILON: i128 = 10_000_000;

/// The circle constant and friends, in fixed-point units.
pub const PI_FX: i128 = 3_141_592_653_590;

pub const TWO_PI_FX: i128 = 6_283_185_307_180;

pub const HALF_PI_FX: i128 = 1_570_796_326_795;

/// pi / 180, in fixed-point units.
pub const DEGREE_TO_RADIAN: i128 = 17_453_292_520;

/// 180 / pi, in fixed-point units.
pub const RADIAN_TO_DEGREE: i128 = 57_295_779_513_082;

/// A fixed-point number: `n` trillionths.
#[derive(Clone, Copy, Debug, PartialEq, Eq, Structural)]
pub struct Fx {
    pub n: i128,
}

impl View for Fx {
    type V = int;

    open spec fn view(&self) -> int {
        self.n as int
    }
}

/// The fixed-point value with the given unit count, as a spec value.
pub open spec fn fx(x: int) -> Fx {
    Fx { n: x as i128 }
}

pub open spec fn in_range(x: int) -> bool {
    -(FX_MAX as int) <= x <= FX_MAX as int
}

/// Saturation to the representable range.
pub open spec fn clip(x: int) -> int {
    if x > FX_MAX as int {
        FX_MAX as int
    } else if x < -(FX_MAX as int) {
        -(FX_MAX as int)
    } else {
        x
    }
}

pub open spec fn abs_s(a: int) -> int {
    if a < 0 {
        -a
    } else {
        a
    }
}

/// Quotient of `a` by `b`, truncated toward zero (`b > 0`).
pub open spec fn div_trunc(a: int, b: int) -> int
    recommends
        b > 0,
{
    if a >= 0 {
        a / b
    } else {
        -((-a) / b)
    }
}

/// Quotient truncated toward zero, for any nonzero divisor.
pub open spec fn div_trunc2(a: int, b: int) -> int
    recommends
        b != 0,
{
    if b > 0 {
        div_trunc(a, b)
    } else {
        div_trunc(-a, -b)
    }
}

pub open spec fn add_s(a: int, b: int) -> int {
    clip(a + b)
}

pub open spec fn sub_s(a: int, b: int) -> int {
    clip(a - b)
}

pub open spec fn neg_s(a: int) -> int {
    clip(-a)
}

/// Fixed-point product: the real product, truncated and saturated.
pub open spec fn mul_s(a: int, b: int) -> int {
    clip(div_trunc(a * b, SCALE as int))
}

/// Fixed-point quotient: the real quotient, truncated and saturated.
pub open spec fn div_s(a: int, b: int) -> int
    recommends
        b != 0,
{
    clip(div_trunc2(a * (SCALE as int), b))
}

/// Division of a fixed-point value by a plain integer.
pub open spec fn divi_s(a: int, d: int) -> int
    recommends
        d > 0,
{
    clip(div_trunc(a, d))
}

/// `r` is the integer square root of `x`: the greatest `r` with `r * r <= x`.
pub open spec fn is_isqrt(x: int, r: int) -> bool {
    r >= 0 && r * r <= x && x < (r + 1) * (r + 1)
}

/// The integer square root of a nonnegative `x`.
pub open spec fn isqrt_s(x: int) -> int {
    choose|r: int| is_isqrt(x, r)
}

/// The fixed-point square root: the integer square root of `x * SCALE`.
pub open spec fn sqrt_s(x: int) -> int {
    isqrt_s(x * (SCALE as int))
}

/// Every nonnegative integer has an integer square root, so `isqrt_s`
/// picks the one root there is.
pub proof fn lemma_isqrt_exists(x: int)
    requires
        x >= 0,
    ensures
        is_isqrt(x, isqrt_s(x)),
    decreases x,
{
    if x == 0 {
        assert(is_isqrt(0, 0));
        assert(exists|q: int| #[trigger] is_isqrt(x, q)) by {
            assert(is_isqrt(x, 0));
        }
    } else {
        lemma_isqrt_exists(x - 1);
        let r = isqrt_s(x - 1);
        if (r + 1) * (r + 1) <= x {
            assert(is_isqrt(x, r + 1)) by (nonlinear_arith)
                requires
                    is_isqrt(x - 1, r),
                    (r + 1) * (r + 1) <= x,
            ;
            assert(exists|q: int| #[trigger] is_isqrt(x, q)) by {
                assert(is_isqrt(x, r + 1));
            }
        } else {
            assert(is_isqrt(x, r));
            assert(exists|q: int| #[trigger] is_isqrt(x, q)) by {
                assert(is_isqrt(x, r));
            }
        }
    }
}

pub proof fn lemma_isqrt_unique(x: int, a: int, b: int)
    requires
        is_isqrt(x, a),
        is_isqrt(x, b),
    ensures
        a == b,
{
    if a < b {
        assert((a + 1) * (a + 1) <= b * b) by (nonlinear_arith)
            requires
                0 <= a,
                a + 1 <= b,
        ;
    }
    if b < a {
        assert((b + 1) * (b + 1) <= a * a) by (nonlinear_arith)
            requires
                0 <= b,
                b + 1 <= a,
        ;
    }
}

/// A nonnegative dividend gives a nonnegative truncated quotient, no
/// larger than the dividend.
pub proof fn lemma_div_trunc_nonneg(a: int, b: int)
    requires
        a >= 0,
        b > 0,
    ensures
        0 <= div_trunc(a, b) <= a,
{
    vstd::arithmetic::div_mod::lemma_div_pos_is_pos(a, b);
    vstd::arithmetic::div_mod::lemma_div_nonincreasing(a, b);
}

/// Truncated division is monotone in the dividend.
pub proof fn lemma_div_trunc_ordered(a1: int, a2: int, b: int)
    requires
        a1 <= a2,
        b > 0,
    ensures
        div_trunc(a1, b) <= div_trunc(a2, b),
{
    if a1 >= 0 {
        vstd::arithmetic::div_mod::lemma_div_is_ordered(a1, a2, b);
    } else if a2 >= 0 {
        vstd::arithmetic::div_mod::lemma_div_pos_is_pos(-a1, b);
        vstd::arithmetic::div_mod::lemma_div_pos_is_pos(a2, b);
    } else {
        vstd::arithmetic::div_mod::lemma_div_is_ordered(-a2, -a1, b);
    }
}

/// The square of any value is nonnegative under fixed-point multiplication.
pub proof fn lemma_mul_s_square_nonneg(a: int)
    ensures
        mul_s(a, a) >= 0,
{
    assert(a * a >= 0) by (nonlinear_arith);
    lemma_div_trunc_nonneg(a * a, SCALE as int);
}

/// The product of nonnegative values is nonnegative.
pub proof fn lemma_mul_s_nonneg(a: int, b: int)
    requires
        a >= 0,
        b >= 0,
    ensures
        mul_s(a, b) >= 0,
{
    assert(a * b >= 0) by (nonlinear_arith)
        requires
            a >= 0,
            b >= 0,
    ;
    lemma_div_trunc_nonneg(a * b, SCALE as int);
}

/// Multiplying by zero gives zero.
pub proof fn lemma_mul_s_zero(a: int)
    ensures
        mul_s(0, a) == 0,
        mul_s(a, 0) == 0,
{
    assert(0 * a == 0) by (nonlinear_arith);
    assert(a * 0 == 0) by (nonlinear_arith);
    assert(div_trunc(0, SCALE as int) == 0);
}

/// Multiplying an in-range value by one (`SCALE` units) leaves it unchanged.
pub proof fn lemma_mul_s_one(a: int)
    requires
        in_range(a),
    ensures
        mul_s(SCALE as int, a) == a,
        mul_s(a, SCALE as int) == a,
{
    let s = SCALE as int;
    assert(s * a == a * s) by (nonlinear_arith);
    if a >= 0 {
        vstd::arithmetic::div_mod::lemma_div_by_multiple(a, s);
        assert(div_trunc(a * s, s) == a);
    } else {
        vstd::arithmetic::div_mod::lemma_div_by_multiple(-a, s);
        assert((-a) * s == -(a * s)) by (nonlinear_arith);
        assert(div_trunc(a * s, s) == -(((-(a * s))) / s));
        assert(div_trunc(a * s, s) == a);
    }
}

/// The zero and one laws of fixed-point multiplication, quantified for
/// use in larger algebraic proofs.
pub proof fn lemma_mul_s_unit_laws()
    ensures
        forall|a: int| #[trigger] mul_s(0, a) == 0,
        forall|a: int| #[trigger] mul_s(a, 0) == 0,
        forall|a: int| in_range(a) ==> #[trigger] mul_s(SCALE as int, a) == a,
        forall|a: int| in_range(a) ==> #[trigger] mul_s(a, SCALE as int) == a,
{
    assert forall|a: int| #[trigger] mul_s(0, a) == 0 by {
        lemma_mul_s_zero(a);
    }
    assert forall|a: int| #[trigger] mul_s(a, 0) == 0 by {
        lemma_mul_s_zero(a);
    }
    assert forall|a: int| in_range(a) implies #[trigger] mul_s(SCALE as int, a) == a by {
        lemma_mul_s_one(a);
    }
    assert forall|a: int| in_range(a) implies #[trigger] mul_s(a, SCALE as int) == a by {
        lemma_mul_s_one(a);
    }
}

/// Dividing an in-range value by one (`SCALE` units) leaves it unchanged.
pub proof fn lemma_div_s_one(a: int)
    requires
        in_range(a),
    ensures
        div_s(a, SCALE as int) == a,
{
    let s = SCALE as int;
    if a >= 0 {
        vstd::arithmetic::div_mod::lemma_div_by_multiple(a, s);
        assert(div_trunc(a * s, s) == a);
    } else {
        vstd::arithmetic::div_mod::lemma_div_by_multiple(-a, s);
        assert((-a) * s == -(a * s)) by (nonlinear_arith);
        assert(div_trunc(a * s, s) == a);
    }
}

/// Saturates an exact intermediate value into the representable range.
fn clip_exec(x: i128) -> (r: i128)
    ensures
        r as int == clip(x as int),
{
    if x > FX_MAX {
        FX_MAX
    } else if x < -FX_MAX {
        -FX_MAX
    } else {
        x
    }
}

/// Divides with truncation toward zero, matching `div_trunc`.
fn div_round_to_zero(a: i128, b: i128) -> (r: i128)
    requires
        b > 0,
        a > i128::MIN,
    ensures
        r as int == div_trunc(a as int, b as int),
{
    if a >= 0 {
        (((a as u128) / (b as u128)) as i128)
    } else {
        let m: u128 = (-a) as u128;
        let q: u128 = m / (b as u128);
        -(q as i128)
    }
}

impl Fx {
    /// A value is well formed when it lies in the representable range.
    pub open spec fn wf(self) -> bool {
        in_range(self@)
    }

    /// The fixed-point value of a small integer.
    pub fn from_int(i: i64) -> (r: Fx)
        ensures
            r.wf(),
            r@ == clip(i * (SCALE as int)),
    {
        Fx { n: clip_exec((i as i128) * SCALE) }
    }

    /// The fixed-point value of the fraction `num / den`, truncated toward
    /// zero; decimal fractions of up to twelve places are exact.
    pub fn from_ratio(num: i64, den: i64) -> (r: Fx)
        requires
            den > 0,
        ensures
            r.wf(),
            r@ == clip(div_trunc(num * (SCALE as int), den as int)),
    {
        let q: i128 = div_round_to_zero((num as i128) * SCALE, den as i128);
        Fx { n: clip_exec(q) }
    }

    /// The fixed-point value of a pixel count or similar size.
    pub fn from_usize(u: usize) -> (r: Fx)
        ensures
            r.wf(),
            r@ == clip(u * (SCALE as int)),
    {
        Fx { n: clip_exec((u as i128) * SCALE) }
    }

    pub fn zero() -> (r: Fx)
        ensures
            r.wf(),
            r@ == 0,
    {
        Fx { n: 0 }
    }

    pub fn one() -> (r: Fx)
        ensures
            r.wf(),
            r@ == SCALE as int,
    {
        Fx { n: SCALE }
    }

    pub fn add(self, rhs: Fx) -> (r: Fx)
        requires
            self.wf(),
            rhs.wf(),
        ensures
            r.wf(),
            r@ == add_s(self@, rhs@),
    {
        Fx { n: clip_exec(self.n + rhs.n) }
    }

    pub fn sub(self, rhs: Fx) -> (r: Fx)
        requires
            self.wf(),
            rhs.wf(),
        ensures
            r.wf(),
            r@ == sub_s(self@, rhs@),
    {
        Fx { n: clip_exec(self.n - rhs.n) }
    }

    pub fn neg(self) -> (r: Fx)
        requires
            self.wf(),
        ensures
            r.wf(),
            r@ == neg_s(self@),
    {
        Fx { n: clip_exec(-self.n) }
    }

    pub fn abs(self) -> (r: Fx)
        requires
            self.wf(),
        ensures
            r.wf(),
            r@ == abs_s(self@),
    {
        if self.n < 0 {
            Fx { n: -self.n }
        } else {
            self
        }
    }

    pub fn mul(self, rhs: Fx) -> (r: Fx)
        requires
            self.wf(),
            rhs.wf(),
        ensures
            r.wf(),
            r@ == mul_s(self@, rhs@),
    {
        proof {
            assert(self.n * rhs.n <= FX_MAX * FX_MAX && -(FX_MAX * FX_MAX) <= self.n * rhs.n)
                by (nonlinear_arith)
                requires
                    -FX_MAX <= self.n <= FX_MAX,
                    -FX_MAX <= rhs.n <= FX_MAX,
            ;
        }
        let p: i128 = self.n * rhs.n;
        let q: i128 = div_round_to_zero(p, SCALE);
        Fx { n: clip_exec(q) }
    }

    pub fn div(self, rhs: Fx) -> (r: Fx)
        requires
            self.wf(),
            rhs.wf(),
            rhs@ != 0,
        ensures
            r.wf(),
            r@ == div_s(self@, rhs@),
    {
        let num: i128 = self.n * SCALE;
        let q: i128 = if rhs.n > 0 {
            div_round_to_zero(num, rhs.n)
        } else {
            div_round_to_zero(-num, -rhs.n)
        };
        Fx { n: clip_exec(q) }
    }

    /// Divides by a plain positive integer (used for Taylor coefficients).
    pub fn divi(self, d: i128) -> (r: Fx)
        requires
            self.wf(),
            d > 0,
        ensures
            r.wf(),
            r@ == divi_s(self@, d as int),
    {
        let q: i128 = div_round_to_zero(self.n, d);
        Fx { n: clip_exec(q) }
    }

    /// The fixed-point square root of a nonnegative value, computed by
    /// binary search on the integer square root of `n * SCALE`.
    pub fn sqrt(self) -> (r: Fx)
        requires
            self.wf(),
            self@ >= 0,
        ensures
            r.wf(),
            r@ >= 0,
            r@ == sqrt_s(self@),
            is_isqrt(self@ * (SCALE as int), r@),
    {
        let x: u128 = (self.n * SCALE) as u128;
        let mut lo: u128 = 0;
        let mut hi: u128 = 3_200_000_000_000_000;
        proof {
            assert(hi * hi > x && lo * lo <= x) by (nonlinear_arith)
                requires
                    x <= 10_000_000_000_000_000_000i128 as u128 * 1_000_000_000_000i128 as u128,
                    hi == 3_200_000_000_000_000u128,
                    lo == 0u128,
            ;
        }
        while lo + 1 < hi
            invariant
                lo < hi,
                hi <= 3_200_000_000_000_000,
                lo * lo <= x,
                x < hi * hi,
            decreases hi - lo,
        {
            let mid: u128 = lo + (hi - lo) / 2;
            proof {
                assert(mid * mid <= 3_200_000_000_000_000u128 * 3_200_000_000_000_000u128)
                    by (nonlinear_arith)
                    requires
                        mid <= 3_200_000_000_000_000u128,
                ;
            }
            if mid * mid <= x {
                lo = mid;
            } else {
                hi = mid;
            }
        }
        let r: i128 = lo as i128;
        proof {
            assert(is_isqrt(x as int, r as int));
            assert(exists|q: int| #[trigger] is_isqrt(self@ * (SCALE as int), q)) by {
                assert(is_isqrt(self@ * (SCALE as int), r as int));
            }
            lemma_isqrt_unique(self@ * (SCALE as int), r as int, isqrt_s(self@ * (SCALE as int)));
        }
        Fx { n: r }
    }

    /// Brings an angle into `[-PI_FX, PI_FX]` by whole turns.
    pub fn reduce(self) -> (r: Fx)
        requires
            self.wf(),
        ensures
            r.wf(),
            r@ == reduce_s(self@),
            -PI_FX <= r@ <= PI_FX,
    {
        let mut v: i128 = self.n;
        while v > PI_FX
            invariant
                in_range(v as int),
                reduce_s(v as int) == reduce_s(self@),
            decreases abs_s(v as int),
        {
            v = v - TWO_PI_FX;
        }
        while v < -PI_FX
            invariant
                in_range(v as int),
                v <= PI_FX,
                reduce_s(v as int) == reduce_s(self@),
            decreases abs_s(v as int),
        {
            v = v + TWO_PI_FX;
        }
        proof {
            assert(reduce_s(v as int) == v as int);
        }
        Fx { n: v }
    }

    /// The sine of an angle in radians, by range reduction and a Taylor
    /// polynomial through the seventeenth power.
    pub fn sin(self) -> (r: Fx)
        requires
            self.wf(),
        ensures
            r.wf(),
            r@ == sin_s(self@),
    {
        let red: Fx = self.reduce();
        let f: Fx = if red.n > HALF_PI_FX {
            Fx { n: PI_FX - red.n }
        } else if red.n < -HALF_PI_FX {
            Fx { n: -PI_FX - red.n }
        } else {
            red
        };
        let x2: Fx = f.mul(f);
        let t3: Fx = f.mul(x2).divi(6).neg();
        let t5: Fx = t3.mul(x2).divi(20).neg();
        let t7: Fx = t5.mul(x2).divi(42).neg();
        let t9: Fx = t7.mul(x2).divi(72).neg();
        let t11: Fx = t9.mul(x2).divi(110).neg();
        let t13: Fx = t11.mul(x2).divi(156).neg();
        let t15: Fx = t13.mul(x2).divi(210).neg();
        let t17: Fx = t15.mul(x2).divi(272).neg();
        f.add(t3).add(t5).add(t7).add(t9).add(t11).add(t13).add(t15).add(t17)
    }

    /// The cosine of an angle in radians, as the sine of the angle advanced
    /// by a quarter turn.
    pub fn cos(self) -> (r: Fx)
        requires
            self.wf(),
        ensures
            r.wf(),
            r@ == cos_s(self@),
    {
        self.add(Fx { n: HALF_PI_FX }).sin()
    }

    /// The tangent of an angle in radians; where the cosine rounds to zero
    /// the result saturates at `FX_MAX`.
    pub fn tan(self) -> (r: Fx)
        requires
            self.wf(),
        ensures
            r.wf(),
            r@ == tan_s(self@),
    {
        let s: Fx = self.sin();
        let c: Fx = self.cos();
        if c.n == 0 {
            Fx { n: FX_MAX }
        } else {
            s.div(c)
        }
    }

    /// Raises a fixed-point base to a nonnegative integer exponent by
    /// repeated multiplication.
    pub fn powi(self, e: u32) -> (r: Fx)
        requires
            self.wf(),
        ensures
            r.wf(),
            r@ == pow_s(self@, e as nat),
    {
        let mut acc: Fx = Fx { n: SCALE };
        let mut i: u32 = 0;
        while i < e
            invariant
                self.wf(),
                i <= e,
                acc.wf(),
                acc@ == pow_s(self@, i as nat),
            decreases e - i,
        {
            acc = acc.mul(self);
            i = i + 1;
        }
        acc
    }

    /// The whole part of a nonnegative value, as a plain integer.
    pub fn int_part_u32(self) -> (r: u32)
        requires
            self.wf(),
            self@ >= 0,
        ensures
            r as int == div_trunc(self@, SCALE as int),
    {
        (((self.n as u128) / (SCALE as u128)) as u32)
    }
}

/// The angle with the same sine and cosine in `[-PI_FX, PI_FX]`.
pub open spec fn reduce_s(x: int) -> int
    decreases abs_s(x),
{
    if x > PI_FX {
        reduce_s(x - TWO_PI_FX)
    } else if x < -(PI_FX as int) {
        reduce_s(x + TWO_PI_FX)
    } else {
        x
    }
}

/// The sine of an angle in radians, as this library computes it: range
/// reduction to `[-HALF_PI_FX, HALF_PI_FX]` and the Taylor polynomial of
/// nine terms evaluated in fixed point.
pub open spec fn sin_s(x: int) -> int {
    let red = reduce_s(x);
    let f = if red > HALF_PI_FX {
        PI_FX - red
    } else if red < -(HALF_PI_FX as int) {
        -(PI_FX as int) - red
    } else {
        red
    };
    let x2 = mul_s(f, f);
    let t3 = neg_s(divi_s(mul_s(f, x2), 6));
    let t5 = neg_s(divi_s(mul_s(t3, x2), 20));
    let t7 = neg_s(divi_s(mul_s(t5, x2), 42));
    let t9 = neg_s(divi_s(mul_s(t7, x2), 72));
    let t11 = neg_s(divi_s(mul_s(t9, x2), 110));
    let t13 = neg_s(divi_s(mul_s(t11, x2), 156));
    let t15 = neg_s(divi_s(mul_s(t13, x2), 210));
    let t17 = neg_s(divi_s(mul_s(t15, x2), 272));
    add_s(add_s(add_s(add_s(add_s(add_s(add_s(add_s(f, t3), t5), t7), t9), t11), t13), t15), t17)
}

/// The cosine of an angle in radians.
pub open spec fn cos_s(x: int) -> int {
    sin_s(add_s(x, HALF_PI_FX as int))
}

/// The tangent of an angle in radians, saturated where the cosine rounds
/// to zero.
pub open spec fn tan_s(x: int) -> int {
    if cos_s(x) == 0 {
        FX_MAX as int
    } else {
        div_s(sin_s(x), cos_s(x))
    }
}

/// A fixed-point base raised to a nonnegative integer exponent.
pub open spec fn pow_s(b: int, e: nat) -> int
    decreases e,
{
    if e == 0 {
        SCALE as int
    } else {
        mul_s(pow_s(b, (e - 1) as nat), b)
    }
}

} // verus!
