//! Rational 2-vectors and the rotation algebra used by the camera.
//!
//! A rotation is given by a direction pair `(cos, sin)`; its inverse is the
//! true algebraic inverse, which divides by the squared norm `cos² + sin²`,
//! so that rotating and then un-rotating is the exact identity for every
//! nonzero direction pair ([`lemma_rot_unrot`]) — not only for unit ones.

use vstd::prelude::*;

use crate::rat::{
    Rat, Q, q_wf, q_eq, q_add, q_sub, q_mul, q_div, q_bounded,
    lemma_q_op_wf, lemma_q_eq_trans, lemma_q_div_cong, lemma_q_cancel_mul_div, lemma_mul_subst,
};

verus! {

/// An exact rational point or vector in the plane.
#[derive(Clone, Copy, Debug)]
pub struct V2 {
    pub x: Rat,
    pub y: Rat,
}

/// The mathematical value of a [`V2`].
pub ghost struct Q2 {
    pub x: Q,
    pub y: Q,
}

impl V2 {
    pub open spec fn q(self) -> Q2 {
        Q2 { x: self.x.q(), y: self.y.q() }
    }

    pub open spec fn wf(self) -> bool {
        self.x.wf() && self.y.wf()
    }

    pub fn new(x: Rat, y: Rat) -> (r: V2)
        ensures
            r == (V2 { x, y }),
    {
        V2 { x, y }
    }
}

/// Both denominators are positive.
pub open spec fn q2_pos(v: Q2) -> bool {
    v.x.d > 0 && v.y.d > 0
}

/// Magnitude bounds on both components.
pub open spec fn q2_bounded(v: Q2, nb: int, db: int) -> bool {
    q_bounded(v.x, nb, db) && q_bounded(v.y, nb, db)
}

pub open spec fn q2_eq(a: Q2, b: Q2) -> bool {
    q_eq(a.x, b.x) && q_eq(a.y, b.y)
}

pub open spec fn q2_add(a: Q2, b: Q2) -> Q2 {
    Q2 { x: q_add(a.x, b.x), y: q_add(a.y, b.y) }
}

pub open spec fn q2_sub(a: Q2, b: Q2) -> Q2 {
    Q2 { x: q_sub(a.x, b.x), y: q_sub(a.y, b.y) }
}

/// Componentwise product (used for scaling by a per-axis zoom factor).
pub open spec fn q2_cmul(a: Q2, b: Q2) -> Q2 {
    Q2 { x: q_mul(a.x, b.x), y: q_mul(a.y, b.y) }
}

/// Componentwise quotient.
pub open spec fn q2_cdiv(a: Q2, b: Q2) -> Q2 {
    Q2 { x: q_div(a.x, b.x), y: q_div(a.y, b.y) }
}

/// Squared norm of a direction pair.
pub open spec fn q_norm2(c: Q, s: Q) -> Q {
    q_add(q_mul(c, c), q_mul(s, s))
}

/// Rotation by the direction `(c, s)`.
pub open spec fn q2_rot(c: Q, s: Q, v: Q2) -> Q2 {
    Q2 {
        x: q_sub(q_mul(c, v.x), q_mul(s, v.y)),
        y: q_add(q_mul(s, v.x), q_mul(c, v.y)),
    }
}

/// The algebraic inverse of [`q2_rot`]: rotation by `(c, -s)` scaled by
/// `1 / (c² + s²)`.
pub open spec fn q2_rot_inv(c: Q, s: Q, v: Q2) -> Q2 {
    Q2 {
        x: q_div(q_add(q_mul(c, v.x), q_mul(s, v.y)), q_norm2(c, s)),
        y: q_div(q_sub(q_mul(c, v.y), q_mul(s, v.x)), q_norm2(c, s)),
    }
}

/// The squared norm of a direction pair that is not the zero vector is
/// strictly positive.
pub proof fn lemma_norm2_pos(c: Q, s: Q)
    requires
        c.d != 0,
        s.d != 0,
        c.n != 0 || s.n != 0,
    ensures
        q_norm2(c, s).n > 0,
        q_norm2(c, s).d > 0,
{
    assert((c.n * c.n) * (s.d * s.d) + (s.n * s.n) * (c.d * c.d) > 0) by (nonlinear_arith)
        requires
            c.d != 0,
            s.d != 0,
            c.n != 0 || s.n != 0,
    ;
    assert((c.d * c.d) * (s.d * s.d) > 0) by (nonlinear_arith)
        requires
            c.d != 0,
            s.d != 0,
    ;
}

// The collapse of un-rotation applied to rotation factors into a small
// core identity times a common monomial; the following lemmas carry that
// factoring out in steps small enough for the arithmetic solver.

#[verifier::rlimit(100)]
proof fn lemma_d2(x: int, y: int, z: int) by (nonlinear_arith)
    ensures
        (x + y) * z == x * z + y * z,
        (x - y) * z == x * z - y * z,
        z * (x + y) == z * x + z * y,
        z * (x - y) == z * x - z * y,
{
}

#[verifier::rlimit(100)]
proof fn lemma_m_assoc(a: int, b: int, c: int) by (nonlinear_arith)
    ensures
        (a * b) * c == a * (b * c),
        (a * b) * c == b * (a * c),
        a * (b * c) == b * (a * c),
{
}

#[verifier::rlimit(100)]
proof fn lemma_mono_m1x(cn: int, sd: int, xn: int, yd: int) by (nonlinear_arith)
    ensures
        (cn * ((cn * xn) * (sd * yd))) * sd == ((cn * cn) * (sd * sd)) * (xn * yd),
{
}

#[verifier::rlimit(100)]
proof fn lemma_mono_m2x(cn: int, sn: int, cd: int, sd: int, xd: int, yn: int) by (nonlinear_arith)
    ensures
        (cn * ((sn * yn) * (cd * xd))) * sd == (sn * ((cn * yn) * (sd * xd))) * cd,
{
}

#[verifier::rlimit(100)]
proof fn lemma_mono_m3x(sn: int, cd: int, xn: int, yd: int) by (nonlinear_arith)
    ensures
        (sn * ((sn * xn) * (cd * yd))) * cd == ((sn * sn) * (cd * cd)) * (xn * yd),
{
}

#[verifier::rlimit(100)]
proof fn lemma_mono_m2y(cn: int, sn: int, cd: int, sd: int, xn: int, yd: int) by (nonlinear_arith)
    ensures
        (cn * ((sn * xn) * (cd * yd))) * sd == (sn * ((cn * xn) * (sd * yd))) * cd,
{
}

#[verifier::rlimit(100)]
proof fn lemma_mono_m1y(cn: int, sd: int, yn: int, xd: int) by (nonlinear_arith)
    ensures
        (cn * ((cn * yn) * (sd * xd))) * sd == ((cn * cn) * (sd * sd)) * (yn * xd),
{
}

#[verifier::rlimit(100)]
proof fn lemma_mono_m3y(sn: int, cd: int, yn: int, xd: int) by (nonlinear_arith)
    ensures
        (sn * ((sn * yn) * (cd * xd))) * cd == ((sn * sn) * (cd * cd)) * (yn * xd),
{
}

/// Pull one `cd` out of the divisor block: `w·(t·(cd²·sd²)) = (w·((cd·t)·sd²))·cd`.
#[verifier::rlimit(100)]
proof fn lemma_mono_la(w: int, t: int, cd: int, sd: int) by (nonlinear_arith)
    ensures
        w * (t * ((cd * cd) * (sd * sd))) == (w * ((cd * t) * (sd * sd))) * cd,
{
}

#[verifier::rlimit(100)]
proof fn lemma_mono_lb1(v: int, t: int, cd: int, sd: int) by (nonlinear_arith)
    ensures
        v * (t * ((cd * cd) * (sd * sd))) == (v * cd) * (t * (cd * (sd * sd))),
{
}

#[verifier::rlimit(100)]
proof fn lemma_mono_lb2(w: int, sd: int, t: int, cd: int) by (nonlinear_arith)
    ensures
        (w * sd) * (t * (cd * (sd * sd))) == (w * ((cd * t) * (sd * sd))) * sd,
{
}

/// The two per-axis denominators agree up to swapping `cd` and `sd`.
#[verifier::rlimit(100)]
proof fn lemma_mono_bridge_x(cd: int, sd: int, xd: int, yd: int) by (nonlinear_arith)
    ensures
        (sd * ((sd * xd) * (cd * yd))) * cd == (cd * ((cd * xd) * (sd * yd))) * sd,
{
}

#[verifier::rlimit(100)]
proof fn lemma_mono_canon_x(cd: int, sd: int, xd: int, yd: int) by (nonlinear_arith)
    ensures
        sd * ((sd * xd) * (cd * yd)) == ((cd * xd) * (sd * sd)) * yd,
{
}

#[verifier::rlimit(100)]
proof fn lemma_mono_bridge_y(cd: int, sd: int, xd: int, yd: int) by (nonlinear_arith)
    ensures
        (sd * ((cd * xd) * (sd * yd))) * cd == (cd * ((sd * xd) * (cd * yd))) * sd,
{
}

#[verifier::rlimit(100)]
proof fn lemma_mono_canon_y(cd: int, sd: int, xd: int, yd: int) by (nonlinear_arith)
    ensures
        sd * ((cd * xd) * (sd * yd)) == ((cd * yd) * (sd * sd)) * xd,
{
}

proof fn lemma_rot_core_x(cn: int, cd: int, sn: int, sd: int, xn: int, xd: int, yn: int, yd: int)
    ensures
        (cn * ((cn * xn) * (sd * yd) - (sn * yn) * (cd * xd))) * sd + (sn * ((sn * xn) * (cd * yd)
            + (cn * yn) * (sd * xd))) * cd == (xn * ((cn * cn) * (sd * sd) + (sn * sn) * (cd
            * cd))) * yd,
{
    let p1 = (cn * xn) * (sd * yd);
    let p2 = (sn * yn) * (cd * xd);
    let p3 = (sn * xn) * (cd * yd);
    let p4 = (cn * yn) * (sd * xd);
    let a = (cn * cn) * (sd * sd);
    let b = (sn * sn) * (cd * cd);
    lemma_d2(p1, p2, cn);
    lemma_mul_subst(cn * (p1 - p2), cn * p1 - cn * p2, sd, sd);
    lemma_d2(cn * p1, cn * p2, sd);
    lemma_d2(p3, p4, sn);
    lemma_mul_subst(sn * (p3 + p4), sn * p3 + sn * p4, cd, cd);
    lemma_d2(sn * p3, sn * p4, cd);
    lemma_mono_m1x(cn, sd, xn, yd);
    lemma_mono_m2x(cn, sn, cd, sd, xd, yn);
    lemma_mono_m3x(sn, cd, xn, yd);
    lemma_d2(a, b, xn);
    lemma_mul_subst(xn * (a + b), xn * a + xn * b, yd, yd);
    lemma_d2(xn * a, xn * b, yd);
    lemma_m_assoc(xn, a, yd);
    lemma_m_assoc(xn, b, yd);
}

proof fn lemma_rot_core_y(cn: int, cd: int, sn: int, sd: int, xn: int, xd: int, yn: int, yd: int)
    ensures
        (cn * ((sn * xn) * (cd * yd) + (cn * yn) * (sd * xd))) * sd - (sn * ((cn * xn) * (sd * yd)
            - (sn * yn) * (cd * xd))) * cd == (yn * ((cn * cn) * (sd * sd) + (sn * sn) * (cd
            * cd))) * xd,
{
    let p1 = (cn * xn) * (sd * yd);
    let p2 = (sn * yn) * (cd * xd);
    let p3 = (sn * xn) * (cd * yd);
    let p4 = (cn * yn) * (sd * xd);
    let a = (cn * cn) * (sd * sd);
    let b = (sn * sn) * (cd * cd);
    lemma_d2(p3, p4, cn);
    lemma_mul_subst(cn * (p3 + p4), cn * p3 + cn * p4, sd, sd);
    lemma_d2(cn * p3, cn * p4, sd);
    lemma_d2(p1, p2, sn);
    lemma_mul_subst(sn * (p1 - p2), sn * p1 - sn * p2, cd, cd);
    lemma_d2(sn * p1, sn * p2, cd);
    lemma_mono_m2y(cn, sn, cd, sd, xn, yd);
    lemma_mono_m1y(cn, sd, yn, xd);
    lemma_mono_m3y(sn, cd, yn, xd);
    lemma_d2(a, b, yn);
    lemma_mul_subst(yn * (a + b), yn * a + yn * b, xd, xd);
    lemma_d2(yn * a, yn * b, xd);
    lemma_m_assoc(yn, a, xd);
    lemma_m_assoc(yn, b, xd);
}

proof fn lemma_rot_lift_sum_x(aa: int, bb: int, cn: int, sn: int, cd: int, sd: int, xd: int, yd: int)
    ensures
        ((cn * aa) * (sd * ((sd * xd) * (cd * yd))) + (sn * bb) * (cd * ((cd * xd) * (sd * yd))))
            * (xd * ((cd * cd) * (sd * sd))) == ((cd * ((cd * xd) * (sd * yd))) * ((cd * xd) * (sd
            * sd))) * ((cn * aa) * sd + (sn * bb) * cd),
{
    let s1 = sd * ((sd * xd) * (cd * yd));
    let s2 = cd * ((cd * xd) * (sd * yd));
    let tt = xd * ((cd * cd) * (sd * sd));
    let mm = s2 * ((cd * xd) * (sd * sd));
    lemma_d2((cn * aa) * s1, (sn * bb) * s2, tt);
    lemma_m_assoc(cn * aa, s1, tt);
    lemma_m_assoc(sn * bb, s2, tt);
    // s1 * tt == mm * sd
    lemma_mono_lb1(s1, xd, cd, sd);
    lemma_mono_bridge_x(cd, sd, xd, yd);
    lemma_mul_subst(s1 * cd, s2 * sd, xd * (cd * (sd * sd)), xd * (cd * (sd * sd)));
    lemma_mono_lb2(s2, sd, xd, cd);
    // s2 * tt == mm * cd
    lemma_mono_la(s2, xd, cd, sd);
    lemma_mul_subst(cn * aa, cn * aa, s1 * tt, mm * sd);
    lemma_mul_subst(sn * bb, sn * bb, s2 * tt, mm * cd);
    lemma_m_assoc(cn * aa, mm, sd);
    lemma_m_assoc(sn * bb, mm, cd);
    lemma_d2((cn * aa) * sd, (sn * bb) * cd, mm);
}

proof fn lemma_rot_lift_rhs_x(nn: int, cd: int, sd: int, xn: int, xd: int, yd: int)
    ensures
        (xn * nn) * ((cd * ((cd * xd) * (sd * yd))) * (sd * ((sd * xd) * (cd * yd)))) == ((cd
            * ((cd * xd) * (sd * yd))) * ((cd * xd) * (sd * sd))) * ((xn * nn) * yd),
{
    let s1 = sd * ((sd * xd) * (cd * yd));
    let s2 = cd * ((cd * xd) * (sd * yd));
    let kk = (cd * xd) * (sd * sd);
    let mm = s2 * kk;
    lemma_mono_canon_x(cd, sd, xd, yd);
    lemma_mul_subst(s2, s2, s1, kk * yd);
    lemma_m_assoc(s2, kk, yd);
    lemma_mul_subst(xn * nn, xn * nn, s2 * s1, mm * yd);
    lemma_m_assoc(xn * nn, mm, yd);
}

proof fn lemma_rot_lift_sum_y(aa: int, bb: int, cn: int, sn: int, cd: int, sd: int, xd: int, yd: int)
    ensures
        ((cn * bb) * (sd * ((cd * xd) * (sd * yd))) - (sn * aa) * (cd * ((sd * xd) * (cd * yd))))
            * (yd * ((cd * cd) * (sd * sd))) == ((cd * ((sd * xd) * (cd * yd))) * ((cd * yd) * (sd
            * sd))) * ((cn * bb) * sd - (sn * aa) * cd),
{
    let s1 = sd * ((cd * xd) * (sd * yd));
    let s2 = cd * ((sd * xd) * (cd * yd));
    let tt = yd * ((cd * cd) * (sd * sd));
    let mm = s2 * ((cd * yd) * (sd * sd));
    lemma_d2((cn * bb) * s1, (sn * aa) * s2, tt);
    lemma_m_assoc(cn * bb, s1, tt);
    lemma_m_assoc(sn * aa, s2, tt);
    // s1 * tt == mm * sd
    lemma_mono_lb1(s1, yd, cd, sd);
    lemma_mono_bridge_y(cd, sd, xd, yd);
    lemma_mul_subst(s1 * cd, s2 * sd, yd * (cd * (sd * sd)), yd * (cd * (sd * sd)));
    lemma_mono_lb2(s2, sd, yd, cd);
    // s2 * tt == mm * cd
    lemma_mono_la(s2, yd, cd, sd);
    lemma_mul_subst(cn * bb, cn * bb, s1 * tt, mm * sd);
    lemma_mul_subst(sn * aa, sn * aa, s2 * tt, mm * cd);
    lemma_m_assoc(cn * bb, mm, sd);
    lemma_m_assoc(sn * aa, mm, cd);
    lemma_d2((cn * bb) * sd, (sn * aa) * cd, mm);
}

proof fn lemma_rot_lift_rhs_y(nn: int, cd: int, sd: int, yn: int, xd: int, yd: int)
    ensures
        (yn * nn) * ((cd * ((sd * xd) * (cd * yd))) * (sd * ((cd * xd) * (sd * yd)))) == ((cd
            * ((sd * xd) * (cd * yd))) * ((cd * yd) * (sd * sd))) * ((yn * nn) * xd),
{
    let s1 = sd * ((cd * xd) * (sd * yd));
    let s2 = cd * ((sd * xd) * (cd * yd));
    let kk = (cd * yd) * (sd * sd);
    let mm = s2 * kk;
    lemma_mono_canon_y(cd, sd, xd, yd);
    lemma_mul_subst(s2, s2, s1, kk * xd);
    lemma_m_assoc(s2, kk, xd);
    lemma_mul_subst(yn * nn, yn * nn, s2 * s1, mm * xd);
    lemma_m_assoc(yn * nn, mm, xd);
}

proof fn lemma_rot_collapse_x(cn: int, cd: int, sn: int, sd: int, xn: int, xd: int, yn: int, yd: int)
    ensures
        ((cn * ((cn * xn) * (sd * yd) - (sn * yn) * (cd * xd))) * (sd * ((sd * xd) * (cd * yd)))
            + (sn * ((sn * xn) * (cd * yd) + (cn * yn) * (sd * xd))) * (cd * ((cd * xd) * (sd
            * yd)))) * (xd * ((cd * cd) * (sd * sd))) == (xn * ((cn * cn) * (sd * sd) + (sn * sn)
            * (cd * cd))) * ((cd * ((cd * xd) * (sd * yd))) * (sd * ((sd * xd) * (cd * yd)))),
{
    let aa = (cn * xn) * (sd * yd) - (sn * yn) * (cd * xd);
    let bb = (sn * xn) * (cd * yd) + (cn * yn) * (sd * xd);
    let nn = (cn * cn) * (sd * sd) + (sn * sn) * (cd * cd);
    let mm = (cd * ((cd * xd) * (sd * yd))) * ((cd * xd) * (sd * sd));
    lemma_rot_core_x(cn, cd, sn, sd, xn, xd, yn, yd);
    lemma_rot_lift_sum_x(aa, bb, cn, sn, cd, sd, xd, yd);
    lemma_rot_lift_rhs_x(nn, cd, sd, xn, xd, yd);
    lemma_mul_subst(mm, mm, (cn * aa) * sd + (sn * bb) * cd, (xn * nn) * yd);
}

proof fn lemma_rot_collapse_y(cn: int, cd: int, sn: int, sd: int, xn: int, xd: int, yn: int, yd: int)
    ensures
        ((cn * ((sn * xn) * (cd * yd) + (cn * yn) * (sd * xd))) * (sd * ((cd * xd) * (sd * yd)))
            - (sn * ((cn * xn) * (sd * yd) - (sn * yn) * (cd * xd))) * (cd * ((sd * xd) * (cd
            * yd)))) * (yd * ((cd * cd) * (sd * sd))) == (yn * ((cn * cn) * (sd * sd) + (sn * sn)
            * (cd * cd))) * ((cd * ((sd * xd) * (cd * yd))) * (sd * ((cd * xd) * (sd * yd)))),
{
    let aa = (cn * xn) * (sd * yd) - (sn * yn) * (cd * xd);
    let bb = (sn * xn) * (cd * yd) + (cn * yn) * (sd * xd);
    let nn = (cn * cn) * (sd * sd) + (sn * sn) * (cd * cd);
    let mm = (cd * ((sd * xd) * (cd * yd))) * ((cd * yd) * (sd * sd));
    lemma_rot_core_y(cn, cd, sn, sd, xn, xd, yn, yd);
    lemma_rot_lift_sum_y(aa, bb, cn, sn, cd, sd, xd, yd);
    lemma_rot_lift_rhs_y(nn, cd, sd, yn, xd, yd);
    lemma_mul_subst(mm, mm, (cn * bb) * sd - (sn * aa) * cd, (yn * nn) * xd);
}

/// Un-rotating an already rotated vector gives back the vector, for every
/// direction pair with a nonzero squared norm.
pub proof fn lemma_rot_unrot(c: Q, s: Q, v: Q2)
    requires
        c.d > 0,
        s.d > 0,
        q2_pos(v),
        q_norm2(c, s).n != 0,
    ensures
        q2_eq(q2_rot_inv(c, s, q2_rot(c, s, v)), v),
{
    let ax = q_sub(q_mul(c, v.x), q_mul(s, v.y));
    let ay = q_add(q_mul(s, v.x), q_mul(c, v.y));
    let n2 = q_norm2(c, s);

    // positive denominators of every intermediate value
    lemma_q_op_wf(c, v.x);
    lemma_q_op_wf(s, v.y);
    lemma_q_op_wf(s, v.x);
    lemma_q_op_wf(c, v.y);
    lemma_q_op_wf(q_mul(c, v.x), q_mul(s, v.y));
    lemma_q_op_wf(q_mul(s, v.x), q_mul(c, v.y));
    lemma_q_op_wf(c, c);
    lemma_q_op_wf(s, s);
    lemma_q_op_wf(q_mul(c, c), q_mul(s, s));
    lemma_q_op_wf(c, ax);
    lemma_q_op_wf(s, ay);
    lemma_q_op_wf(c, ay);
    lemma_q_op_wf(s, ax);
    lemma_q_op_wf(q_mul(c, ax), q_mul(s, ay));
    lemma_q_op_wf(q_mul(c, ay), q_mul(s, ax));
    lemma_q_op_wf(v.x, n2);
    lemma_q_op_wf(v.y, n2);

    // collapse of the composed numerators: rotating then projecting back
    // scales by the squared norm
    lemma_rot_collapse_x(c.n, c.d, s.n, s.d, v.x.n, v.x.d, v.y.n, v.y.d);
    lemma_rot_collapse_y(c.n, c.d, s.n, s.d, v.x.n, v.x.d, v.y.n, v.y.d);
    assert(q_eq(q_add(q_mul(c, ax), q_mul(s, ay)), q_mul(v.x, n2)));
    assert(q_eq(q_sub(q_mul(c, ay), q_mul(s, ax)), q_mul(v.y, n2)));

    // divide both sides by the squared norm and cancel
    lemma_q_div_cong(q_add(q_mul(c, ax), q_mul(s, ay)), q_mul(v.x, n2), n2, n2);
    lemma_q_div_cong(q_sub(q_mul(c, ay), q_mul(s, ax)), q_mul(v.y, n2), n2, n2);
    lemma_q_cancel_mul_div(v.x, n2);
    lemma_q_cancel_mul_div(v.y, n2);
    lemma_q_op_wf(q_mul(v.x, n2), n2);
    lemma_q_op_wf(q_mul(v.y, n2), n2);
    lemma_q_eq_trans(
        q_div(q_add(q_mul(c, ax), q_mul(s, ay)), n2),
        q_div(q_mul(v.x, n2), n2),
        v.x,
    );
    lemma_q_eq_trans(
        q_div(q_sub(q_mul(c, ay), q_mul(s, ax)), n2),
        q_div(q_mul(v.y, n2), n2),
        v.y,
    );
}

} // verus!
