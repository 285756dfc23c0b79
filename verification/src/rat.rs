//! Exact rational arithmetic.
//!
//! The camera/viewport pipeline is pure coordinate algebra: divisions by the
//! zoom scale, rotations given by a direction pair, translations.  All of it
//! is carried out here over exact rationals (`num / den`, `den > 0`) so that
//! every geometric contract can be stated and proved as exact algebra.
//!
//! The mathematical value of a rational is the unbounded pair [`Q`]; two
//! values are equal when they cross-multiply equally ([`q_eq`]).  Executable
//! operations work on machine integers and therefore carry preconditions
//! saying that the exact numerator and denominator of the result fit in
//! `i128`; callers discharge those from magnitude bounds with the lemmas at
//! the bottom of this module.

use vstd::prelude::*;

verus! {

/// An exact rational number `num / den` with a positive denominator.
#[derive(Clone, Copy, Debug)]
pub struct Rat {
    pub num: i128,
    pub den: i128,
}

/// The mathematical value of a rational: an unbounded numerator/denominator
/// pair.  `d` is never 0 for values produced by this module, but may be
/// negative in intermediate spec expressions.
pub ghost struct Q {
    pub n: int,
    pub d: int,
}

/// A denominator of zero denotes no rational number at all.
pub open spec fn q_wf(a: Q) -> bool {
    a.d != 0
}

/// Equality of rational values by cross multiplication.
pub open spec fn q_eq(a: Q, b: Q) -> bool {
    a.n * b.d == b.n * a.d
}

/// `a <= b`, valid when both denominators are positive.
pub open spec fn q_le(a: Q, b: Q) -> bool {
    a.n * b.d <= b.n * a.d
}

pub open spec fn q_int(i: int) -> Q {
    Q { n: i, d: 1 }
}

pub open spec fn q_add(a: Q, b: Q) -> Q {
    Q { n: a.n * b.d + b.n * a.d, d: a.d * b.d }
}

pub open spec fn q_sub(a: Q, b: Q) -> Q {
    Q { n: a.n * b.d - b.n * a.d, d: a.d * b.d }
}

pub open spec fn q_mul(a: Q, b: Q) -> Q {
    Q { n: a.n * b.n, d: a.d * b.d }
}

pub open spec fn q_neg(a: Q) -> Q {
    Q { n: -a.n, d: a.d }
}

/// Division, with the sign moved into the numerator so that a positive
/// denominator stays positive.
pub open spec fn q_div(a: Q, b: Q) -> Q {
    if b.n >= 0 {
        Q { n: a.n * b.d, d: a.d * b.n }
    } else {
        Q { n: -(a.n * b.d), d: -(a.d * b.n) }
    }
}

/// Nearest integer, halves rounded away from zero.
pub open spec fn q_round(a: Q) -> int
    recommends
        a.d > 0,
{
    if a.n >= 0 {
        (2 * a.n + a.d) / (2 * a.d)
    } else {
        -((2 * -a.n + a.d) / (2 * a.d))
    }
}

/// Magnitude bounds: `|n| <= nb` and `0 < d <= db`.
pub open spec fn q_bounded(a: Q, nb: int, db: int) -> bool {
    -nb <= a.n <= nb && 0 < a.d <= db
}

pub open spec fn fits(x: int) -> bool {
    -(i128::MAX as int) <= x <= i128::MAX as int
}

pub open spec fn add_fits(a: Q, b: Q) -> bool {
    &&& fits(a.n * b.d)
    &&& fits(b.n * a.d)
    &&& fits(a.n * b.d + b.n * a.d)
    &&& fits(a.n * b.d - b.n * a.d)
    &&& fits(a.d * b.d)
}

pub open spec fn mul_fits(a: Q, b: Q) -> bool {
    &&& fits(a.n * b.n)
    &&& fits(a.d * b.d)
}

pub open spec fn div_fits(a: Q, b: Q) -> bool {
    &&& fits(a.n * b.d)
    &&& fits(a.d * b.n)
    &&& fits(b.n)
}

impl Rat {
    /// The value of this rational.
    pub open spec fn q(self) -> Q {
        Q { n: self.num as int, d: self.den as int }
    }

    /// Denominators are kept positive.
    pub open spec fn wf(self) -> bool {
        self.den > 0
    }

    pub fn from_i64(n: i64) -> (r: Rat)
        ensures
            r.wf(),
            r.q() == q_int(n as int),
    {
        Rat { num: n as i128, den: 1 }
    }
}

pub fn rat_add(a: &Rat, b: &Rat) -> (r: Rat)
    requires
        a.wf(),
        b.wf(),
        add_fits(a.q(), b.q()),
    ensures
        r.wf(),
        r.q() == q_add(a.q(), b.q()),
{
    proof {
        lemma_pos_mul_pos(a.den as int, b.den as int);
    }
    Rat { num: a.num * b.den + b.num * a.den, den: a.den * b.den }
}

pub fn rat_sub(a: &Rat, b: &Rat) -> (r: Rat)
    requires
        a.wf(),
        b.wf(),
        add_fits(a.q(), b.q()),
    ensures
        r.wf(),
        r.q() == q_sub(a.q(), b.q()),
{
    proof {
        lemma_pos_mul_pos(a.den as int, b.den as int);
    }
    Rat { num: a.num * b.den - b.num * a.den, den: a.den * b.den }
}

pub fn rat_mul(a: &Rat, b: &Rat) -> (r: Rat)
    requires
        a.wf(),
        b.wf(),
        mul_fits(a.q(), b.q()),
    ensures
        r.wf(),
        r.q() == q_mul(a.q(), b.q()),
{
    proof {
        lemma_pos_mul_pos(a.den as int, b.den as int);
    }
    Rat { num: a.num * b.num, den: a.den * b.den }
}

pub fn rat_neg(a: &Rat) -> (r: Rat)
    requires
        a.wf(),
        fits(a.q().n),
    ensures
        r.wf(),
        r.q() == q_neg(a.q()),
{
    Rat { num: -a.num, den: a.den }
}

pub fn rat_div(a: &Rat, b: &Rat) -> (r: Rat)
    requires
        a.wf(),
        b.wf(),
        b.num != 0,
        div_fits(a.q(), b.q()),
    ensures
        r.wf(),
        r.q() == q_div(a.q(), b.q()),
{
    if b.num > 0 {
        proof {
            lemma_pos_mul_pos(a.den as int, b.num as int);
        }
        Rat { num: a.num * b.den, den: a.den * b.num }
    } else {
        proof {
            lemma_pos_mul_pos(a.den as int, -b.num as int);
            lemma_mul_neg(a.den as int, b.num as int);
        }
        Rat { num: -(a.num * b.den), den: a.den * (-b.num) }
    }
}

proof fn lemma_pos_mul_pos(x: int, y: int) by (nonlinear_arith)
    requires
        x > 0,
        y > 0,
    ensures
        x * y > 0,
{
}

proof fn lemma_mul_neg(x: int, y: int) by (nonlinear_arith)
    ensures
        x * (-y) == -(x * y),
{
}

/// Round to the nearest integer, halves away from zero.
pub fn rat_round(a: &Rat) -> (k: i64)
    requires
        a.wf(),
        q_bounded(a.q(), 0x7fff_ffff_ffff_ffff, 0x7fff_ffff_ffff_ffff),
    ensures
        k as int == q_round(a.q()),
{
    proof {
        lemma_q_round_range(a.q());
    }
    if a.num >= 0 {
        let k: i128 = (2 * a.num + a.den) / (2 * a.den);
        k as i64
    } else {
        let k: i128 = (2 * (-a.num) + a.den) / (2 * a.den);
        -(k as i64)
    }
}

/// Nearest integer, clamped into `[-bound, bound]`.
pub open spec fn spec_round_clamped(a: Q, bound: int) -> int {
    let r = q_round(a);
    if r < -bound {
        -bound
    } else if r > bound {
        bound
    } else {
        r
    }
}

/// Round to the nearest integer and clamp the result into
/// `[-bound, bound]`.
pub fn rat_round_clamped(a: &Rat, bound: i64) -> (k: i64)
    requires
        a.wf(),
        bound >= 1,
        -0x2000_0000_0000_0000_0000_0000_0000_0000 <= a.num
            <= 0x2000_0000_0000_0000_0000_0000_0000_0000,
        a.den <= 0x2000_0000_0000_0000_0000_0000_0000_0000,
    ensures
        k as int == spec_round_clamped(a.q(), bound as int),
        -bound <= k <= bound,
{
    let r: i128 = if a.num >= 0 {
        (2 * a.num + a.den) / (2 * a.den)
    } else {
        -((2 * (-a.num) + a.den) / (2 * a.den))
    };
    proof {
        lemma_q_round_range(a.q());
    }
    if r < -(bound as i128) {
        -bound
    } else if r > bound as i128 {
        bound
    } else {
        r as i64
    }
}


/// The rational with exactly this numerator and denominator (spec-level
/// inverse of [`Rat::q`], meaningful when the value fits).
pub open spec fn rat_of(a: Q) -> Rat {
    Rat { num: a.n as i128, den: a.d as i128 }
}

/// Quantize onto the grid of multiples of `1/den` (nearest, halves away
/// from zero) and clamp the numerator into `[lo_num, hi_num]`.
pub open spec fn spec_snap(a: Q, den: int, lo_num: int, hi_num: int) -> Q {
    let k = q_round(Q { n: a.n * den, d: a.d });
    let k2 = if k < lo_num {
        lo_num
    } else if k > hi_num {
        hi_num
    } else {
        k
    };
    Q { n: k2, d: den }
}

/// Quantize a rational onto a fixed denominator and clamp it, keeping
/// state representable forever under repeated updates.
pub fn rat_snap(a: &Rat, den: i64, lo_num: i64, hi_num: i64) -> (r: Rat)
    requires
        a.wf(),
        1 <= den <= 0x10000,
        lo_num <= hi_num,
        -0x4000_0000_0000 <= lo_num,
        hi_num <= 0x4000_0000_0000,
        -0x1_0000_0000_0000_0000_0000_0000 <= a.num <= 0x1_0000_0000_0000_0000_0000_0000,
        a.den <= 0x1_0000_0000_0000_0000_0000_0000,
    ensures
        r.wf(),
        r.den == den as i128,
        r.q() == spec_snap(a.q(), den as int, lo_num as int, hi_num as int),
        r == rat_of(spec_snap(a.q(), den as int, lo_num as int, hi_num as int)),
        lo_num as int <= r.q().n <= hi_num as int,
{
    proof {
        assert(-0x10000000000000000000000000000 <= (a.num as int) * (den as int)
            <= 0x10000000000000000000000000000) by (nonlinear_arith)
            requires
                -0x1_0000_0000_0000_0000_0000_0000 <= a.num as int
                    <= 0x1_0000_0000_0000_0000_0000_0000,
                1 <= den as int <= 0x10000,
        ;
    }
    let n2: i128 = a.num * (den as i128);
    proof {
        lemma_q_round_range(Q { n: n2 as int, d: a.den as int });
    }
    let k: i128 = if n2 >= 0 {
        (2 * n2 + a.den) / (2 * a.den)
    } else {
        -((2 * (-n2) + a.den) / (2 * a.den))
    };
    let k2: i128 = if k < lo_num as i128 {
        lo_num as i128
    } else if k > hi_num as i128 {
        hi_num as i128
    } else {
        k
    };
    Rat { num: k2, den: den as i128 }
}

/// The rounded value never exceeds the numerator in magnitude.
pub proof fn lemma_q_round_range(a: Q)
    requires
        a.d > 0,
    ensures
        a.n >= 0 ==> 0 <= q_round(a) <= a.n,
        a.n < 0 ==> a.n <= q_round(a) <= 0,
{
    if a.n >= 0 {
        lemma_round_div_le(a.n, a.d);
    } else {
        lemma_round_div_le(-a.n, a.d);
    }
}

proof fn lemma_round_div_le(n: int, d: int) by (nonlinear_arith)
    requires
        n >= 0,
        d > 0,
    ensures
        0 <= (2 * n + d) / (2 * d) <= n,
{
}

// ---------------------------------------------------------------------------
// Algebra of rational values under cross-multiplication equality.
// ---------------------------------------------------------------------------

pub proof fn lemma_q_eq_trans(a: Q, b: Q, c: Q) by (nonlinear_arith)
    requires
        q_eq(a, b),
        q_eq(b, c),
        b.d != 0,
    ensures
        q_eq(a, c),
{
}

/// The denominators produced by the operations are nonzero whenever the
/// operands' are (and, for division, the divisor is nonzero).
pub proof fn lemma_q_op_wf(a: Q, b: Q) by (nonlinear_arith)
    requires
        a.d != 0,
        b.d != 0,
    ensures
        q_wf(q_add(a, b)),
        q_wf(q_sub(a, b)),
        q_wf(q_mul(a, b)),
        b.n != 0 ==> q_wf(q_div(a, b)),
        a.d > 0 && b.d > 0 ==> q_add(a, b).d > 0 && q_sub(a, b).d > 0 && q_mul(a, b).d > 0,
        a.d > 0 && b.n != 0 ==> q_div(a, b).d > 0,
{
}

/// Equal factors give equal products.
pub proof fn lemma_mul_subst(x: int, y: int, z: int, w: int) by (nonlinear_arith)
    requires
        x == y,
        z == w,
    ensures
        x * z == y * w,
{
}

proof fn lemma_distrib(x: int, y: int, z: int) by (nonlinear_arith)
    ensures
        (x + y) * z == x * z + y * z,
        (x - y) * z == x * z - y * z,
{
}

/// Regroupings of a product of four factors.
proof fn lemma_mul4(p: int, q: int, r: int, s: int) by (nonlinear_arith)
    ensures
        (p * q) * (r * s) == (p * r) * (q * s),
        (p * q) * (r * s) == (p * s) * (q * r),
        (p * q) * (r * s) == (p * s) * (r * q),
{
}

pub proof fn lemma_q_add_cong(a: Q, a2: Q, b: Q, b2: Q)
    requires
        q_eq(a, a2),
        q_eq(b, b2),
        a.d != 0,
        a2.d != 0,
        b.d != 0,
        b2.d != 0,
    ensures
        q_eq(q_add(a, b), q_add(a2, b2)),
        q_eq(q_sub(a, b), q_sub(a2, b2)),
{
    lemma_distrib(a.n * b.d, b.n * a.d, a2.d * b2.d);
    lemma_mul4(a.n, b.d, a2.d, b2.d);
    lemma_mul4(b.n, a.d, a2.d, b2.d);
    lemma_mul_subst(a.n * a2.d, a2.n * a.d, b.d * b2.d, b.d * b2.d);
    lemma_mul_subst(b.n * b2.d, b2.n * b.d, a.d * a2.d, a.d * a2.d);
    lemma_mul4(a2.n, a.d, b.d, b2.d);
    lemma_mul4(b2.n, b.d, a.d, a2.d);
    lemma_distrib(a2.n * b2.d, b2.n * a2.d, a.d * b.d);
}

pub proof fn lemma_q_mul_cong(a: Q, a2: Q, b: Q, b2: Q)
    requires
        q_eq(a, a2),
        q_eq(b, b2),
        a.d != 0,
        a2.d != 0,
        b.d != 0,
        b2.d != 0,
    ensures
        q_eq(q_mul(a, b), q_mul(a2, b2)),
{
    lemma_mul4(a.n, b.n, a2.d, b2.d);
    lemma_mul_subst(a.n * a2.d, a2.n * a.d, b.n * b2.d, b2.n * b.d);
    lemma_mul4(a2.n, a.d, b2.n, b.d);
}

#[verifier::rlimit(100)]
pub proof fn lemma_q_div_cong(a: Q, a2: Q, b: Q, b2: Q) by (nonlinear_arith)
    requires
        q_eq(a, a2),
        q_eq(b, b2),
        a.d > 0,
        a2.d > 0,
        b.d > 0,
        b2.d > 0,
        b.n != 0,
        b2.n != 0,
    ensures
        q_eq(q_div(a, b), q_div(a2, b2)),
{
}

/// Multiplying and then dividing by the same nonzero value is the identity.
pub proof fn lemma_q_cancel_mul_div(a: Q, b: Q) by (nonlinear_arith)
    requires
        a.d != 0,
        b.d != 0,
        b.n != 0,
    ensures
        q_eq(q_div(q_mul(a, b), b), a),
{
}

/// Adding and then subtracting the same value is the identity.
pub proof fn lemma_q_cancel_add_sub(a: Q, b: Q) by (nonlinear_arith)
    requires
        a.d != 0,
        b.d != 0,
    ensures
        q_eq(q_sub(q_add(a, b), b), a),
{
}

// ---------------------------------------------------------------------------
// Magnitude-bound lemmas, used to discharge the `*_fits` preconditions.
// ---------------------------------------------------------------------------

pub proof fn lemma_q_add_bound(a: Q, b: Q, na: int, da: int, nb: int, db: int) by (nonlinear_arith)
    requires
        q_bounded(a, na, da),
        q_bounded(b, nb, db),
        na * db + nb * da <= i128::MAX as int,
        da * db <= i128::MAX as int,
    ensures
        add_fits(a, b),
        q_bounded(q_add(a, b), na * db + nb * da, da * db),
        q_bounded(q_sub(a, b), na * db + nb * da, da * db),
{
}

pub proof fn lemma_q_mul_bound(a: Q, b: Q, na: int, da: int, nb: int, db: int) by (nonlinear_arith)
    requires
        q_bounded(a, na, da),
        q_bounded(b, nb, db),
        na * nb <= i128::MAX as int,
        da * db <= i128::MAX as int,
    ensures
        mul_fits(a, b),
        q_bounded(q_mul(a, b), na * nb, da * db),
{
}

pub proof fn lemma_q_div_bound(a: Q, b: Q, na: int, da: int, nb: int, db: int) by (nonlinear_arith)
    requires
        q_bounded(a, na, da),
        q_bounded(b, nb, db),
        b.n != 0,
        na * db <= i128::MAX as int,
        da * nb <= i128::MAX as int,
    ensures
        div_fits(a, b),
        q_bounded(q_div(a, b), na * db, da * nb),
{
}

} // verus!
