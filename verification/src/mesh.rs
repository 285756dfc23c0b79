//! Vertex and index emission for grid entities.
//!
//! Each entity becomes four vertices — the unit-square corners scaled by
//! its size, rotated, and translated to its world position — plus six
//! indices forming two triangles.  The rotation is given as the `(cos,
//! sin)` direction pair of the entity's angle, supplied by the embedder
//! (the same modeling as the camera's [`Rotor`]).  The per-vertex emphasis
//! emitted for the shader is `2·intensity + 1/2`: exactly the baseline
//! `1/2` when the stored proximity falloff is 0.

use vstd::prelude::*;

use crate::camera::Rotor;
use crate::grid::{QuadEntity, entity_wf};
use crate::rat::{
    Rat, Q, q_int, q_add, q_mul, q_bounded,
    rat_add, rat_sub, rat_mul,
    lemma_q_add_bound, lemma_q_mul_bound,
};
use crate::vec2::{V2, Q2, q2_add, q2_rot};

verus! {

/// One emitted vertex of a quad.
#[derive(Clone, Copy, Debug)]
pub struct QuadVertex {
    pub pos: V2,
    pub size_x: u32,
    pub size_y: u32,
    pub fill_color: u32,
    pub stroke_color: u32,
    pub border_radius: u32,
    pub border_width: u32,
    /// The emphasis scalar handed to the shader.
    pub intensity: Rat,
}

/// Corner `k` (counterclockwise from the lower-left) of the entity's
/// rectangle, centered on the origin: half the size on each axis.
pub open spec fn spec_corner(e: QuadEntity, k: int) -> Q2 {
    Q2 {
        x: Q {
            n: if k == 0 || k == 1 {
                -(e.size_x as int)
            } else {
                e.size_x as int
            },
            d: 2,
        },
        y: Q {
            n: if k == 0 || k == 3 {
                -(e.size_y as int)
            } else {
                e.size_y as int
            },
            d: 2,
        },
    }
}

/// World position of corner `k`: the corner rotated by the entity's
/// direction pair and translated to the entity's position.
pub open spec fn spec_vertex_pos(e: QuadEntity, c: Q, s: Q, k: int) -> Q2 {
    q2_add(
        q2_rot(c, s, spec_corner(e, k)),
        Q2 { x: q_int(e.pos_x as int), y: q_int(e.pos_y as int) },
    )
}

/// The emphasis emitted for a stored proximity falloff: `2·i + 1/2`.
pub open spec fn spec_emitted(i: Q) -> Q {
    q_add(q_mul(q_int(2), i), Q { n: 1, d: 2 })
}

/// Rotate a corner by the direction pair and translate it to the entity's
/// position.
fn rotate_corner(c: &Rat, s: &Rat, kx: &Rat, ky: &Rat, tx: i64, ty: i64) -> (r: V2)
    requires
        c.wf(),
        s.wf(),
        kx.wf(),
        ky.wf(),
        q_bounded(c.q(), 0x40, 0x40),
        q_bounded(s.q(), 0x40, 0x40),
        q_bounded(kx.q(), 0x10000, 2),
        q_bounded(ky.q(), 0x10000, 2),
        -0x400000 <= tx <= 0x400000,
        -0x400000 <= ty <= 0x400000,
    ensures
        r.wf(),
        r.q() == q2_add(
            q2_rot(c.q(), s.q(), Q2 { x: kx.q(), y: ky.q() }),
            Q2 { x: q_int(tx as int), y: q_int(ty as int) },
        ),
{
    proof {
        lemma_q_mul_bound(c.q(), kx.q(), 0x40, 0x40, 0x10000, 2);
        lemma_q_mul_bound(s.q(), ky.q(), 0x40, 0x40, 0x10000, 2);
        lemma_q_mul_bound(s.q(), kx.q(), 0x40, 0x40, 0x10000, 2);
        lemma_q_mul_bound(c.q(), ky.q(), 0x40, 0x40, 0x10000, 2);
    }
    let cx = rat_mul(c, kx);
    let sy = rat_mul(s, ky);
    let sx = rat_mul(s, kx);
    let cy = rat_mul(c, ky);
    proof {
        lemma_q_add_bound(cx.q(), sy.q(), 0x400000, 0x80, 0x400000, 0x80);
        lemma_q_add_bound(sx.q(), cy.q(), 0x400000, 0x80, 0x400000, 0x80);
    }
    let rx = rat_sub(&cx, &sy);
    let ry = rat_add(&sx, &cy);
    let txr = Rat::from_i64(tx);
    let tyr = Rat::from_i64(ty);
    proof {
        lemma_q_add_bound(rx.q(), txr.q(), 0x40000000, 0x4000, 0x400000, 1);
        lemma_q_add_bound(ry.q(), tyr.q(), 0x40000000, 0x4000, 0x400000, 1);
    }
    let x = rat_add(&rx, &txr);
    let y = rat_add(&ry, &tyr);
    V2 { x, y }
}

/// The four vertices of an entity: exact rotated corner positions, the
/// entity's visual fields copied through, and the emitted emphasis
/// `2·intensity + 1/2` on every vertex.
pub fn entity_vertices(e: &QuadEntity, rotor: &Rotor) -> (vs: Vec<QuadVertex>)
    requires
        entity_wf(*e),
        e.size_x <= 0x10000,
        e.size_y <= 0x10000,
        -0x400000 <= e.pos_x <= 0x400000,
        -0x400000 <= e.pos_y <= 0x400000,
        rotor.cos.wf(),
        rotor.sin.wf(),
        q_bounded(rotor.cos.q(), 0x40, 0x40),
        q_bounded(rotor.sin.q(), 0x40, 0x40),
        q_bounded(e.intensity.q(), 0x100000, 0x100000),
    ensures
        vs@.len() == 4,
        forall|k: int|
            0 <= k < 4 ==> (#[trigger] vs@[k]).pos.q() == spec_vertex_pos(
                *e,
                rotor.cos.q(),
                rotor.sin.q(),
                k,
            ) && vs@[k].intensity.wf() && vs@[k].intensity.q() == spec_emitted(e.intensity.q())
                && vs@[k].size_x == e.size_x && vs@[k].size_y == e.size_y && vs@[k].fill_color
                == e.fill_color && vs@[k].stroke_color == e.stroke_color && vs@[k].border_radius
                == e.border_radius && vs@[k].border_width == e.border_width,
{
    let two = Rat { num: 2, den: 1 };
    let half = Rat { num: 1, den: 2 };
    proof {
        lemma_q_mul_bound(two.q(), e.intensity.q(), 2, 1, 0x100000, 0x100000);
        lemma_q_add_bound(
            q_mul(two.q(), e.intensity.q()), half.q(), 0x200000, 0x100000, 1, 2,
        );
    }
    let doubled = rat_mul(&two, &e.intensity);
    let emitted = rat_add(&doubled, &half);
    let lo_x = Rat { num: -(e.size_x as i128), den: 2 };
    let hi_x = Rat { num: e.size_x as i128, den: 2 };
    let lo_y = Rat { num: -(e.size_y as i128), den: 2 };
    let hi_y = Rat { num: e.size_y as i128, den: 2 };
    let p0 = rotate_corner(&rotor.cos, &rotor.sin, &lo_x, &lo_y, e.pos_x, e.pos_y);
    let p1 = rotate_corner(&rotor.cos, &rotor.sin, &lo_x, &hi_y, e.pos_x, e.pos_y);
    let p2 = rotate_corner(&rotor.cos, &rotor.sin, &hi_x, &hi_y, e.pos_x, e.pos_y);
    let p3 = rotate_corner(&rotor.cos, &rotor.sin, &hi_x, &lo_y, e.pos_x, e.pos_y);
    let mut vs: Vec<QuadVertex> = Vec::new();
    vs.push(QuadVertex {
        pos: p0,
        size_x: e.size_x,
        size_y: e.size_y,
        fill_color: e.fill_color,
        stroke_color: e.stroke_color,
        border_radius: e.border_radius,
        border_width: e.border_width,
        intensity: emitted,
    });
    vs.push(QuadVertex {
        pos: p1,
        size_x: e.size_x,
        size_y: e.size_y,
        fill_color: e.fill_color,
        stroke_color: e.stroke_color,
        border_radius: e.border_radius,
        border_width: e.border_width,
        intensity: emitted,
    });
    vs.push(QuadVertex {
        pos: p2,
        size_x: e.size_x,
        size_y: e.size_y,
        fill_color: e.fill_color,
        stroke_color: e.stroke_color,
        border_radius: e.border_radius,
        border_width: e.border_width,
        intensity: emitted,
    });
    vs.push(QuadVertex {
        pos: p3,
        size_x: e.size_x,
        size_y: e.size_y,
        fill_color: e.fill_color,
        stroke_color: e.stroke_color,
        border_radius: e.border_radius,
        border_width: e.border_width,
        intensity: emitted,
    });
    vs
}

/// The six vertex indices of quad `quad_index`: two triangles over its
/// four consecutive vertices.
pub fn indices_for_quad(quad_index: u32) -> (r: Vec<u32>)
    requires
        quad_index < 0x4000_0000,
    ensures
        r@.len() == 6,
        r@[0] == 4 * quad_index,
        r@[1] == 4 * quad_index + 1,
        r@[2] == 4 * quad_index + 2,
        r@[3] == 4 * quad_index,
        r@[4] == 4 * quad_index + 2,
        r@[5] == 4 * quad_index + 3,
{
    let i = 4 * quad_index;
    let mut r: Vec<u32> = Vec::new();
    r.push(i);
    r.push(i + 1);
    r.push(i + 2);
    r.push(i);
    r.push(i + 2);
    r.push(i + 3);
    r
}

} // verus!
