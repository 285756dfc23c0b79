//! The camera: position, rotation and per-axis zoom, with the two coordinate
//! mappings derived from them.
//!
//! `pointer_to_pos` maps a pointer pixel into world space; `pos_to_pointer`
//! is the algebraic inverse, mapping a world point back onto the screen.
//! Both are exact over rationals, with the rotation given as a `(cos, sin)`
//! direction pair, and [`lemma_pointer_round_trip`] proves that composing
//! them is the identity for every camera state whose scale and rotation are
//! nondegenerate.
//!
//! Inputs carry magnitude bounds (`q2_bounded`) solely so that the exact
//! numerators and denominators fit in the machine integers; the laws
//! themselves hold without them.

use vstd::prelude::*;

use crate::rat::{
    Rat, Q, q_eq, q_int, q_add, q_sub, q_mul, q_div, q_neg, q_bounded,
    rat_add, rat_sub, rat_mul, rat_div, rat_neg, rat_round_clamped, spec_round_clamped, rat_of,
    lemma_q_add_bound, lemma_q_mul_bound, lemma_q_div_bound,
    lemma_q_op_wf, lemma_q_eq_trans, lemma_q_add_cong, lemma_q_mul_cong, lemma_q_div_cong,
    lemma_q_cancel_mul_div, lemma_q_cancel_add_sub,
};
use crate::vec2::{
    V2, Q2, q2_pos, q2_eq, q2_add, q2_sub, q2_cmul, q2_cdiv, q2_rot, q2_rot_inv, q_norm2,
    q2_bounded, lemma_norm2_pos, lemma_rot_unrot,
};

verus! {

/// Magnitude bounds on pointer and world points handed to the mappings:
/// numerators up to 2^24, denominators up to 2^10.
pub const COORD_NUM_MAX: i128 = 0x100_0000;

pub const COORD_DEN_MAX: i128 = 0x400;

/// Magnitude bounds on viewport sizes in pixels.
pub const VIEW_NUM_MAX: i128 = 0x4000;

pub const VIEW_DEN_MAX: i128 = 0x10;

/// Magnitude bounds on the zoom scale: values up to 4096/64 = 64 at a
/// granularity of 1/64.
pub const SCALE_NUM_MAX: i128 = 0x1000;

pub const SCALE_DEN_MAX: i128 = 0x40;

/// Magnitude bounds on the rotation direction pair.
pub const ROT_NUM_MAX: i128 = 0x40;

pub const ROT_DEN_MAX: i128 = 0x40;

/// Magnitude bounds on the camera position: values up to 2^20 world units
/// at a granularity of 1/64.
pub const POS_NUM_MAX: i128 = 0x400_0000;

pub const POS_DEN_MAX: i128 = 0x40;

/// A rotation, stored as the direction pair `(cos, sin)` of its angle.
#[derive(Clone, Copy, Debug)]
pub struct Rotor {
    pub cos: Rat,
    pub sin: Rat,
}

/// Camera state: world position, rotation, and per-axis zoom scale.
///
/// Invariant: the scale components are nonzero (they are divided by), and
/// the rotation direction pair is not the zero vector.
#[derive(Clone, Copy, Debug)]
pub struct Camera {
    pub position: V2,
    pub rotation: Rotor,
    pub scale: V2,
}

impl Camera {
    /// The structural invariant: everything the coordinate mappings divide
    /// by is nonzero.
    pub open spec fn valid(self) -> bool {
        &&& self.position.wf()
        &&& self.rotation.cos.wf()
        &&& self.rotation.sin.wf()
        &&& self.scale.wf()
        &&& self.scale.x.num != 0
        &&& self.scale.y.num != 0
        &&& !(self.rotation.cos.num == 0 && self.rotation.sin.num == 0)
    }

    /// [`Camera::valid`] plus the magnitude bounds under which the exact
    /// arithmetic fits in machine integers.
    pub open spec fn wf(self) -> bool {
        &&& self.valid()
        &&& q2_bounded(self.position.q(), POS_NUM_MAX as int, POS_DEN_MAX as int)
        &&& q2_bounded(self.scale.q(), SCALE_NUM_MAX as int, SCALE_DEN_MAX as int)
        &&& q_bounded(self.rotation.cos.q(), ROT_NUM_MAX as int, ROT_DEN_MAX as int)
        &&& q_bounded(self.rotation.sin.q(), ROT_NUM_MAX as int, ROT_DEN_MAX as int)
    }
}

impl Default for Camera {
    /// Origin position, no rotation, unit scale.
    fn default() -> (r: Camera)
        ensures
            r.wf(),
            r.position.q().x == q_int(0),
            r.position.q().y == q_int(0),
            r.rotation.cos.q() == q_int(1),
            r.rotation.sin.q() == q_int(0),
            r.scale.q().x == q_int(1),
            r.scale.q().y == q_int(1),
    {
        Camera {
            position: V2 { x: Rat { num: 0, den: 1 }, y: Rat { num: 0, den: 1 } },
            rotation: Rotor { cos: Rat { num: 1, den: 1 }, sin: Rat { num: 0, den: 1 } },
            scale: V2 { x: Rat { num: 1, den: 1 }, y: Rat { num: 1, den: 1 } },
        }
    }
}

/// The world-space size of the viewport: `viewport / scale`, per axis.
pub open spec fn spec_real_size(cam: Camera, viewport: Q2) -> Q2 {
    q2_cdiv(viewport, cam.scale.q())
}

/// Half the real size: the world-space offset of the viewport center.
pub open spec fn spec_center_offset(cam: Camera, viewport: Q2) -> Q2 {
    Q2 {
        x: q_div(q_div(viewport.x, cam.scale.q().x), q_int(2)),
        y: q_div(q_div(viewport.y, cam.scale.q().y), q_int(2)),
    }
}

/// Pointer pixel to world point: scale down, un-rotate, then translate by
/// the center offset and the camera position.
pub open spec fn spec_pointer_to_pos(cam: Camera, pointer: Q2, viewport: Q2) -> Q2 {
    q2_sub(
        q2_sub(
            q2_rot_inv(cam.rotation.cos.q(), cam.rotation.sin.q(), q2_cdiv(pointer, cam.scale.q())),
            spec_center_offset(cam, viewport),
        ),
        cam.position.q(),
    )
}

/// World point to pointer pixel: the algebraic inverse of
/// [`spec_pointer_to_pos`] — translate, rotate, then scale up.
pub open spec fn spec_pos_to_pointer(cam: Camera, world: Q2, viewport: Q2) -> Q2 {
    q2_cmul(
        q2_rot(
            cam.rotation.cos.q(),
            cam.rotation.sin.q(),
            q2_add(q2_add(world, cam.position.q()), spec_center_offset(cam, viewport)),
        ),
        cam.scale.q(),
    )
}

impl Camera {
    /// The real (world-space) size of the viewport.
    pub fn real_size(&self, viewport: &V2) -> (r: V2)
        requires
            self.wf(),
            viewport.wf(),
            q2_bounded(viewport.q(), VIEW_NUM_MAX as int, VIEW_DEN_MAX as int),
        ensures
            r.wf(),
            r.q() == spec_real_size(*self, viewport.q()),
            q2_bounded(r.q(), 0x100000, 0x10000),
    {
        proof {
            lemma_q_div_bound(viewport.x.q(), self.scale.x.q(), 0x4000, 0x10, 0x1000, 0x40);
            lemma_q_div_bound(viewport.y.q(), self.scale.y.q(), 0x4000, 0x10, 0x1000, 0x40);
        }
        let x = rat_div(&viewport.x, &self.scale.x);
        let y = rat_div(&viewport.y, &self.scale.y);
        V2 { x, y }
    }

    /// The world-space offset of the viewport center: `real_size / 2`.
    pub fn center_offset(&self, viewport: &V2) -> (r: V2)
        requires
            self.wf(),
            viewport.wf(),
            q2_bounded(viewport.q(), VIEW_NUM_MAX as int, VIEW_DEN_MAX as int),
        ensures
            r.wf(),
            r.q() == spec_center_offset(*self, viewport.q()),
            q2_bounded(r.q(), 0x100000, 0x20000),
    {
        let rs = self.real_size(viewport);
        let two = Rat { num: 2, den: 1 };
        proof {
            lemma_q_div_bound(rs.x.q(), two.q(), 0x100000, 0x10000, 2, 1);
            lemma_q_div_bound(rs.y.q(), two.q(), 0x100000, 0x10000, 2, 1);
        }
        let x = rat_div(&rs.x, &two);
        let y = rat_div(&rs.y, &two);
        V2 { x, y }
    }

    /// Map a pointer pixel into world space under this camera.
    pub fn pointer_to_pos(&self, pointer: &V2, viewport: &V2) -> (r: V2)
        requires
            self.wf(),
            pointer.wf(),
            q2_bounded(pointer.q(), COORD_NUM_MAX as int, COORD_DEN_MAX as int),
            viewport.wf(),
            q2_bounded(viewport.q(), VIEW_NUM_MAX as int, VIEW_DEN_MAX as int),
        ensures
            r.wf(),
            r.q() == spec_pointer_to_pos(*self, pointer.q(), viewport.q()),
            q2_bounded(
                r.q(),
                0x2000_0000_0000_0000_0000_0000_0000_0000,
                0x2000_0000_0000_0000_0000_0000_0000_0000,
            ),
    {
        let c = self.rotation.cos;
        let s = self.rotation.sin;
        proof {
            lemma_q_div_bound(pointer.x.q(), self.scale.x.q(), 0x1000000, 0x400, 0x1000, 0x40);
            lemma_q_div_bound(pointer.y.q(), self.scale.y.q(), 0x1000000, 0x400, 0x1000, 0x40);
        }
        let qx = rat_div(&pointer.x, &self.scale.x);
        let qy = rat_div(&pointer.y, &self.scale.y);
        proof {
            lemma_q_mul_bound(c.q(), qx.q(), 0x40, 0x40, 0x40000000, 0x400000);
            lemma_q_mul_bound(s.q(), qy.q(), 0x40, 0x40, 0x40000000, 0x400000);
            lemma_q_mul_bound(c.q(), qy.q(), 0x40, 0x40, 0x40000000, 0x400000);
            lemma_q_mul_bound(s.q(), qx.q(), 0x40, 0x40, 0x40000000, 0x400000);
        }
        let cqx = rat_mul(&c, &qx);
        let sqy = rat_mul(&s, &qy);
        let cqy = rat_mul(&c, &qy);
        let sqx = rat_mul(&s, &qx);
        proof {
            lemma_q_add_bound(cqx.q(), sqy.q(), 0x1000000000, 0x10000000, 0x1000000000, 0x10000000);
            lemma_q_add_bound(cqy.q(), sqx.q(), 0x1000000000, 0x10000000, 0x1000000000, 0x10000000);
        }
        let ux = rat_add(&cqx, &sqy);
        let uy = rat_sub(&cqy, &sqx);
        proof {
            lemma_q_mul_bound(c.q(), c.q(), 0x40, 0x40, 0x40, 0x40);
            lemma_q_mul_bound(s.q(), s.q(), 0x40, 0x40, 0x40, 0x40);
        }
        let cc = rat_mul(&c, &c);
        let ss = rat_mul(&s, &s);
        proof {
            lemma_q_add_bound(cc.q(), ss.q(), 0x1000, 0x1000, 0x1000, 0x1000);
            lemma_norm2_pos(c.q(), s.q());
        }
        let n2 = rat_add(&cc, &ss);
        proof {
            lemma_q_div_bound(
                ux.q(), n2.q(),
                0x20000000000000000, 0x100000000000000,
                0x2000000, 0x1000000,
            );
            lemma_q_div_bound(
                uy.q(), n2.q(),
                0x20000000000000000, 0x100000000000000,
                0x2000000, 0x1000000,
            );
        }
        let rx = rat_div(&ux, &n2);
        let ry = rat_div(&uy, &n2);
        let o = self.center_offset(viewport);
        proof {
            lemma_q_add_bound(
                rx.q(), o.x.q(),
                0x20000000000000000000000, 0x200000000000000000000,
                0x100000, 0x20000,
            );
            lemma_q_add_bound(
                ry.q(), o.y.q(),
                0x20000000000000000000000, 0x200000000000000000000,
                0x100000, 0x20000,
            );
        }
        let wx1 = rat_sub(&rx, &o.x);
        let wy1 = rat_sub(&ry, &o.y);
        proof {
            lemma_q_add_bound(
                wx1.q(), self.position.x.q(),
                0x800000000000000000000000000, 0x4000000000000000000000000,
                0x4000000, 0x40,
            );
            lemma_q_add_bound(
                wy1.q(), self.position.y.q(),
                0x800000000000000000000000000, 0x4000000000000000000000000,
                0x4000000, 0x40,
            );
        }
        let x = rat_sub(&wx1, &self.position.x);
        let y = rat_sub(&wy1, &self.position.y);
        V2 { x, y }
    }

    /// Map a world point onto the screen: the inverse of
    /// [`Camera::pointer_to_pos`].
    pub fn pos_to_pointer(&self, world: &V2, viewport: &V2) -> (r: V2)
        requires
            self.wf(),
            world.wf(),
            q2_bounded(world.q(), COORD_NUM_MAX as int, COORD_DEN_MAX as int),
            viewport.wf(),
            q2_bounded(viewport.q(), VIEW_NUM_MAX as int, VIEW_DEN_MAX as int),
        ensures
            r.wf(),
            r.q() == spec_pos_to_pointer(*self, world.q(), viewport.q()),
    {
        let c = self.rotation.cos;
        let s = self.rotation.sin;
        let o = self.center_offset(viewport);
        proof {
            lemma_q_add_bound(
                world.x.q(), self.position.x.q(), 0x1000000, 0x400, 0x4000000, 0x40,
            );
            lemma_q_add_bound(
                world.y.q(), self.position.y.q(), 0x1000000, 0x400, 0x4000000, 0x40,
            );
        }
        let ax = rat_add(&world.x, &self.position.x);
        let ay = rat_add(&world.y, &self.position.y);
        proof {
            lemma_q_add_bound(ax.q(), o.x.q(), 0x2000000000, 0x10000, 0x100000, 0x20000);
            lemma_q_add_bound(ay.q(), o.y.q(), 0x2000000000, 0x10000, 0x100000, 0x20000);
        }
        let bx = rat_add(&ax, &o.x);
        let by = rat_add(&ay, &o.y);
        proof {
            lemma_q_mul_bound(c.q(), bx.q(), 0x40, 0x40, 0x80000000000000, 0x200000000);
            lemma_q_mul_bound(s.q(), by.q(), 0x40, 0x40, 0x80000000000000, 0x200000000);
            lemma_q_mul_bound(s.q(), bx.q(), 0x40, 0x40, 0x80000000000000, 0x200000000);
            lemma_q_mul_bound(c.q(), by.q(), 0x40, 0x40, 0x80000000000000, 0x200000000);
        }
        let cbx = rat_mul(&c, &bx);
        let sby = rat_mul(&s, &by);
        let sbx = rat_mul(&s, &bx);
        let cby = rat_mul(&c, &by);
        proof {
            lemma_q_add_bound(
                cbx.q(), sby.q(),
                0x2000000000000000, 0x8000000000, 0x2000000000000000, 0x8000000000,
            );
            lemma_q_add_bound(
                sbx.q(), cby.q(),
                0x2000000000000000, 0x8000000000, 0x2000000000000000, 0x8000000000,
            );
        }
        let tx = rat_sub(&cbx, &sby);
        let ty = rat_add(&sbx, &cby);
        proof {
            lemma_q_mul_bound(
                tx.q(), self.scale.x.q(),
                0x20000000000000000000000000, 0x40000000000000000000, 0x1000, 0x40,
            );
            lemma_q_mul_bound(
                ty.q(), self.scale.y.q(),
                0x20000000000000000000000000, 0x40000000000000000000, 0x1000, 0x40,
            );
        }
        let x = rat_mul(&tx, &self.scale.x);
        let y = rat_mul(&ty, &self.scale.y);
        V2 { x, y }
    }
}

/// The depth range of the projection: deep enough for any plausible
/// z-ordering while staying within a 16-bit-like budget.
pub const DEPTH_RANGE: i128 = 0xffff;

/// The nonzero entries of the camera's view/projection matrix (row-major
/// positions 0..3, 4..7, 10..11; the rest are 0 except `m33 == 1`).
#[derive(Clone, Copy, Debug)]
pub struct CameraMatrix {
    pub m00: Rat,
    pub m01: Rat,
    pub m03: Rat,
    pub m10: Rat,
    pub m11: Rat,
    pub m13: Rat,
    pub m22: Rat,
    pub m23: Rat,
}

/// `2·scale.x / viewport.x`: the horizontal orthographic factor `2 / realSize.x`.
pub open spec fn spec_matrix_fx(cam: Camera, viewport: Q2) -> Q {
    q_div(q_mul(q_int(2), cam.scale.q().x), viewport.x)
}

pub open spec fn spec_matrix_fy(cam: Camera, viewport: Q2) -> Q {
    q_div(q_mul(q_int(2), cam.scale.q().y), viewport.y)
}

/// The closed form of the matrix product
/// `Projection · CenterTranslate · Rotate · CameraTranslate`: applied to a
/// world point `(wx, wy, 0, 1)` it yields the clip coordinates
/// `(m00·wx + m01·wy + m03, m10·wx + m11·wy + m13, m23, 1)`.
pub open spec fn spec_camera_matrix(cam: Camera, viewport: Q2) -> CameraMatrix {
    let c = cam.rotation.cos.q();
    let s = cam.rotation.sin.q();
    let pos = cam.position.q();
    let o = spec_center_offset(cam, viewport);
    let fx = spec_matrix_fx(cam, viewport);
    let fy = spec_matrix_fy(cam, viewport);
    CameraMatrix {
        m00: rat_of(q_mul(fx, c)),
        m01: rat_of(q_mul(fx, q_neg(s))),
        m03: rat_of(q_sub(q_mul(fx, q_add(q_sub(q_mul(c, pos.x), q_mul(s, pos.y)), o.x)), q_int(1))),
        m10: rat_of(q_mul(q_neg(fy), s)),
        m11: rat_of(q_mul(q_neg(fy), c)),
        m13: rat_of(q_add(q_mul(q_neg(fy), q_add(q_add(q_mul(s, pos.x), q_mul(c, pos.y)), o.y)), q_int(1))),
        m22: rat_of(Q { n: 1, d: DEPTH_RANGE as int }),
        m23: rat_of(Q { n: -1, d: 2 }),
    }
}

impl Camera {
    /// The view/projection matrix of this camera over the given viewport:
    /// an orthographic projection over `[0, realSize.x] × [realSize.y, 0]`
    /// with depth range `[0, DEPTH_RANGE]`, composed with the translation
    /// to the viewport center, the rotation, and the translation placing
    /// the camera at `(-position, -DEPTH_RANGE/2)`.
    pub fn matrix(&self, viewport: &V2) -> (m: CameraMatrix)
        requires
            self.wf(),
            viewport.wf(),
            q2_bounded(viewport.q(), VIEW_NUM_MAX as int, VIEW_DEN_MAX as int),
            viewport.x.num >= 1,
            viewport.y.num >= 1,
        ensures
            m == spec_camera_matrix(*self, viewport.q()),
            m.m00.wf() && m.m01.wf() && m.m03.wf() && m.m10.wf() && m.m11.wf() && m.m13.wf()
                && m.m22.wf() && m.m23.wf(),
    {
        let c = self.rotation.cos;
        let s = self.rotation.sin;
        let two = Rat { num: 2, den: 1 };
        let one = Rat { num: 1, den: 1 };
        let o = self.center_offset(viewport);
        proof {
            lemma_q_mul_bound(two.q(), self.scale.x.q(), 2, 1, 0x1000, 0x40);
            lemma_q_mul_bound(two.q(), self.scale.y.q(), 2, 1, 0x1000, 0x40);
        }
        let sx2 = rat_mul(&two, &self.scale.x);
        let sy2 = rat_mul(&two, &self.scale.y);
        proof {
            lemma_q_div_bound(sx2.q(), viewport.x.q(), 0x2000, 0x40, 0x4000, 0x10);
            lemma_q_div_bound(sy2.q(), viewport.y.q(), 0x2000, 0x40, 0x4000, 0x10);
        }
        let fx = rat_div(&sx2, &viewport.x);
        let fy = rat_div(&sy2, &viewport.y);
        let nfy = rat_neg(&fy);
        let ns = rat_neg(&s);
        proof {
            lemma_q_mul_bound(fx.q(), c.q(), 0x20000, 0x100000, 0x40, 0x40);
            lemma_q_mul_bound(fx.q(), ns.q(), 0x20000, 0x100000, 0x40, 0x40);
            lemma_q_mul_bound(nfy.q(), s.q(), 0x20000, 0x100000, 0x40, 0x40);
            lemma_q_mul_bound(nfy.q(), c.q(), 0x20000, 0x100000, 0x40, 0x40);
        }
        let m00 = rat_mul(&fx, &c);
        let m01 = rat_mul(&fx, &ns);
        let m10 = rat_mul(&nfy, &s);
        let m11 = rat_mul(&nfy, &c);
        proof {
            lemma_q_mul_bound(c.q(), self.position.x.q(), 0x40, 0x40, 0x4000000, 0x40);
            lemma_q_mul_bound(s.q(), self.position.y.q(), 0x40, 0x40, 0x4000000, 0x40);
            lemma_q_mul_bound(s.q(), self.position.x.q(), 0x40, 0x40, 0x4000000, 0x40);
            lemma_q_mul_bound(c.q(), self.position.y.q(), 0x40, 0x40, 0x4000000, 0x40);
        }
        let cpx = rat_mul(&c, &self.position.x);
        let spy = rat_mul(&s, &self.position.y);
        let spx = rat_mul(&s, &self.position.x);
        let cpy = rat_mul(&c, &self.position.y);
        proof {
            lemma_q_add_bound(cpx.q(), spy.q(), 0x100000000, 0x1000, 0x100000000, 0x1000);
            lemma_q_add_bound(spx.q(), cpy.q(), 0x100000000, 0x1000, 0x100000000, 0x1000);
        }
        let gx = rat_sub(&cpx, &spy);
        let gy = rat_add(&spx, &cpy);
        proof {
            lemma_q_add_bound(gx.q(), o.x.q(), 0x200000000000, 0x1000000, 0x100000, 0x20000);
            lemma_q_add_bound(gy.q(), o.y.q(), 0x200000000000, 0x1000000, 0x100000, 0x20000);
        }
        let gx2 = rat_add(&gx, &o.x);
        let gy2 = rat_add(&gy, &o.y);
        proof {
            lemma_q_mul_bound(
                fx.q(), gx2.q(), 0x20000, 0x100000, 0x8000000000000000, 0x20000000000,
            );
            lemma_q_mul_bound(
                nfy.q(), gy2.q(), 0x20000, 0x100000, 0x8000000000000000, 0x20000000000,
            );
        }
        let hx = rat_mul(&fx, &gx2);
        let hy = rat_mul(&nfy, &gy2);
        proof {
            lemma_q_add_bound(hx.q(), one.q(), 0x100000000000000000000, 0x2000000000000000, 1, 1);
            lemma_q_add_bound(hy.q(), one.q(), 0x100000000000000000000, 0x2000000000000000, 1, 1);
        }
        let m03 = rat_sub(&hx, &one);
        let m13 = rat_add(&hy, &one);
        CameraMatrix {
            m00,
            m01,
            m03,
            m10,
            m11,
            m13,
            m22: Rat { num: 1, den: DEPTH_RANGE },
            m23: Rat { num: -1, den: 2 },
        }
    }

    /// The pointer's world position quantized to whole world units, for the
    /// grid's proximity query: rounded to the nearest unit and clamped into
    /// the grid interaction domain.
    pub fn pointer_world_units(&self, pointer: &V2, viewport: &V2) -> (w: (i64, i64))
        requires
            self.wf(),
            pointer.wf(),
            q2_bounded(pointer.q(), COORD_NUM_MAX as int, COORD_DEN_MAX as int),
            viewport.wf(),
            q2_bounded(viewport.q(), VIEW_NUM_MAX as int, VIEW_DEN_MAX as int),
        ensures
            w.0 as int == spec_round_clamped(
                spec_pointer_to_pos(*self, pointer.q(), viewport.q()).x,
                0x4000_0000,
            ),
            w.1 as int == spec_round_clamped(
                spec_pointer_to_pos(*self, pointer.q(), viewport.q()).y,
                0x4000_0000,
            ),
            -0x4000_0000 <= w.0 <= 0x4000_0000,
            -0x4000_0000 <= w.1 <= 0x4000_0000,
    {
        let world = self.pointer_to_pos(pointer, viewport);
        let x = rat_round_clamped(&world.x, 0x4000_0000);
        let y = rat_round_clamped(&world.y, 0x4000_0000);
        (x, y)
    }
}

/// Round trip: mapping a world point onto the screen and the resulting
/// pointer position back into world space returns the same point, for every
/// nondegenerate camera state and every viewport.
pub proof fn lemma_pointer_round_trip(cam: Camera, world: Q2, viewport: Q2)
    requires
        cam.valid(),
        q2_pos(world),
        q2_pos(viewport),
    ensures
        q2_eq(
            spec_pointer_to_pos(cam, spec_pos_to_pointer(cam, world, viewport), viewport),
            world,
        ),
{
    let c = cam.rotation.cos.q();
    let s = cam.rotation.sin.q();
    let sc = cam.scale.q();
    let pos = cam.position.q();
    let o = spec_center_offset(cam, viewport);
    let w_pos = q2_add(world, pos);
    let t = q2_add(w_pos, o);
    let rt = q2_rot(c, s, t);
    let p = q2_cmul(rt, sc);
    let qv = q2_cdiv(p, sc);
    let n2 = q_norm2(c, s);

    // positive denominators for every intermediate value
    lemma_q_op_wf(viewport.x, sc.x);
    lemma_q_op_wf(viewport.y, sc.y);
    lemma_q_op_wf(q_div(viewport.x, sc.x), q_int(2));
    lemma_q_op_wf(q_div(viewport.y, sc.y), q_int(2));
    lemma_q_op_wf(world.x, pos.x);
    lemma_q_op_wf(world.y, pos.y);
    lemma_q_op_wf(w_pos.x, o.x);
    lemma_q_op_wf(w_pos.y, o.y);
    lemma_q_op_wf(c, t.x);
    lemma_q_op_wf(s, t.y);
    lemma_q_op_wf(s, t.x);
    lemma_q_op_wf(c, t.y);
    lemma_q_op_wf(q_mul(c, t.x), q_mul(s, t.y));
    lemma_q_op_wf(q_mul(s, t.x), q_mul(c, t.y));
    lemma_q_op_wf(rt.x, sc.x);
    lemma_q_op_wf(rt.y, sc.y);
    lemma_q_op_wf(p.x, sc.x);
    lemma_q_op_wf(p.y, sc.y);
    lemma_q_op_wf(c, c);
    lemma_q_op_wf(s, s);
    lemma_q_op_wf(q_mul(c, c), q_mul(s, s));
    lemma_norm2_pos(c, s);
    lemma_q_op_wf(c, qv.x);
    lemma_q_op_wf(s, qv.y);
    lemma_q_op_wf(s, qv.x);
    lemma_q_op_wf(c, qv.y);
    lemma_q_op_wf(q_mul(c, qv.x), q_mul(s, qv.y));
    lemma_q_op_wf(q_mul(c, qv.y), q_mul(s, qv.x));
    lemma_q_op_wf(q_add(q_mul(c, qv.x), q_mul(s, qv.y)), n2);
    lemma_q_op_wf(q_sub(q_mul(c, qv.y), q_mul(s, qv.x)), n2);
    lemma_q_op_wf(c, rt.x);
    lemma_q_op_wf(s, rt.y);
    lemma_q_op_wf(c, rt.y);
    lemma_q_op_wf(s, rt.x);
    lemma_q_op_wf(q_mul(c, rt.x), q_mul(s, rt.y));
    lemma_q_op_wf(q_mul(c, rt.y), q_mul(s, rt.x));
    lemma_q_op_wf(q_add(q_mul(c, rt.x), q_mul(s, rt.y)), n2);
    lemma_q_op_wf(q_sub(q_mul(c, rt.y), q_mul(s, rt.x)), n2);

    // scaling up and back down cancels
    lemma_q_cancel_mul_div(rt.x, sc.x);
    lemma_q_cancel_mul_div(rt.y, sc.y);

    // rotating the scaled-down pointer equals rotating the pre-scale vector
    lemma_q_mul_cong(c, c, qv.x, rt.x);
    lemma_q_mul_cong(s, s, qv.y, rt.y);
    lemma_q_mul_cong(c, c, qv.y, rt.y);
    lemma_q_mul_cong(s, s, qv.x, rt.x);
    lemma_q_add_cong(q_mul(c, qv.x), q_mul(c, rt.x), q_mul(s, qv.y), q_mul(s, rt.y));
    lemma_q_add_cong(q_mul(c, qv.y), q_mul(c, rt.y), q_mul(s, qv.x), q_mul(s, rt.x));
    lemma_q_div_cong(
        q_add(q_mul(c, qv.x), q_mul(s, qv.y)),
        q_add(q_mul(c, rt.x), q_mul(s, rt.y)),
        n2,
        n2,
    );
    lemma_q_div_cong(
        q_sub(q_mul(c, qv.y), q_mul(s, qv.x)),
        q_sub(q_mul(c, rt.y), q_mul(s, rt.x)),
        n2,
        n2,
    );

    // un-rotating the rotated vector gives it back
    lemma_rot_unrot(c, s, t);
    lemma_q_eq_trans(
        q2_rot_inv(c, s, qv).x,
        q2_rot_inv(c, s, rt).x,
        t.x,
    );
    lemma_q_eq_trans(
        q2_rot_inv(c, s, qv).y,
        q2_rot_inv(c, s, rt).y,
        t.y,
    );

    // the two translations cancel in turn
    lemma_q_add_cong(q2_rot_inv(c, s, qv).x, t.x, o.x, o.x);
    lemma_q_add_cong(q2_rot_inv(c, s, qv).y, t.y, o.y, o.y);
    lemma_q_cancel_add_sub(w_pos.x, o.x);
    lemma_q_cancel_add_sub(w_pos.y, o.y);
    lemma_q_op_wf(t.x, o.x);
    lemma_q_op_wf(t.y, o.y);
    lemma_q_op_wf(q2_rot_inv(c, s, qv).x, o.x);
    lemma_q_op_wf(q2_rot_inv(c, s, qv).y, o.y);
    lemma_q_op_wf(world.x, pos.x);
    lemma_q_op_wf(world.y, pos.y);
    lemma_q_eq_trans(q_sub(q2_rot_inv(c, s, qv).x, o.x), q_sub(t.x, o.x), w_pos.x);
    lemma_q_eq_trans(q_sub(q2_rot_inv(c, s, qv).y, o.y), q_sub(t.y, o.y), w_pos.y);
    lemma_q_add_cong(q_sub(q2_rot_inv(c, s, qv).x, o.x), w_pos.x, pos.x, pos.x);
    lemma_q_add_cong(q_sub(q2_rot_inv(c, s, qv).y, o.y), w_pos.y, pos.y, pos.y);
    lemma_q_cancel_add_sub(world.x, pos.x);
    lemma_q_cancel_add_sub(world.y, pos.y);
    lemma_q_op_wf(w_pos.x, pos.x);
    lemma_q_op_wf(w_pos.y, pos.y);
    lemma_q_eq_trans(
        q_sub(q_sub(q2_rot_inv(c, s, qv).x, o.x), pos.x),
        q_sub(w_pos.x, pos.x),
        world.x,
    );
    lemma_q_eq_trans(
        q_sub(q_sub(q2_rot_inv(c, s, qv).y, o.y), pos.y),
        q_sub(w_pos.y, pos.y),
        world.y,
    );
}

} // verus!
