//! The scene controller: smooth damped zoom and drag-based pan from raw
//! pointer and scroll events, over a monotonic clock.
//!
//! The controller is a pure function of `(state, event)` and
//! `(state, now, ease)`: the embedder performs the two floating-point
//! powers the original easing uses — the per-frame catch-up fraction
//! `dt^0.6` and the wheel multiplier `2^(scroll_speed · delta)` — and
//! hands them in as exact rationals, the same split as the camera's
//! rotation direction pair.  Zoom and position are quantized onto a 1/64
//! grid and clamped at every mutation, so the state stays representable
//! under arbitrarily many updates: scale in `[1/64, 64]`, position within
//! `±2^20` world units.

use vstd::prelude::*;

use crate::camera::{Camera, Rotor};
use crate::rat::{
    Rat, q_int, q_le, q_add, q_sub, q_mul, q_div, q_bounded, spec_snap, rat_of,
    rat_add, rat_sub, rat_mul, rat_div, rat_snap,
    lemma_q_add_bound, lemma_q_mul_bound, lemma_q_div_bound,
};
use crate::vec2::V2;

verus! {

/// A normalized input event.  The `Scroll` multiplier is
/// `2^(scroll_speed · wheel delta)`, computed by the embedder.
#[derive(Clone, Copy, Debug)]
pub enum InputEvent {
    PointerMoved { x: i64, y: i64 },
    Button { pressed: bool },
    Scroll { factor: Rat },
}

pub open spec fn event_wf(e: InputEvent) -> bool {
    match e {
        InputEvent::PointerMoved { x, y } => -0x20000 <= x <= 0x20000 && -0x20000 <= y
            <= 0x20000,
        InputEvent::Button { .. } => true,
        InputEvent::Scroll { factor } => factor.wf() && factor.num >= 1 && q_bounded(
            factor.q(),
            0x100000,
            0x10000,
        ),
    }
}

/// Continuously updated interaction state: the live camera, the zoom
/// target the scroll wheel moves, the pointer and its drag anchor, and
/// the frame clock in microseconds.
pub struct SceneController {
    pub camera: Camera,
    pub mouse_x: i64,
    pub mouse_y: i64,
    pub held_x: i64,
    pub held_y: i64,
    pub dragging: bool,
    pub scroll_speed: Rat,
    pub hard_scale: V2,
    pub prev_elapsed_us: u64,
    pub current_elapsed_us: u64,
}

impl SceneController {
    pub open spec fn wf(self) -> bool {
        &&& self.camera.wf()
        &&& self.camera.scale.x.den == 0x40 && 1 <= self.camera.scale.x.num <= 0x1000
        &&& self.camera.scale.y.den == 0x40 && 1 <= self.camera.scale.y.num <= 0x1000
        &&& self.camera.position.x.den == 0x40 && self.camera.position.y.den == 0x40
        &&& self.hard_scale.wf()
        &&& self.hard_scale.x.den == 0x40 && 1 <= self.hard_scale.x.num <= 0x1000
        &&& self.hard_scale.y.den == 0x40 && 1 <= self.hard_scale.y.num <= 0x1000
        &&& -0x20000 <= self.mouse_x <= 0x20000 && -0x20000 <= self.mouse_y <= 0x20000
        &&& -0x20000 <= self.held_x <= 0x20000 && -0x20000 <= self.held_y <= 0x20000
        &&& self.prev_elapsed_us <= self.current_elapsed_us
        &&& self.scroll_speed.wf()
    }

    /// A fresh controller: camera at the origin without rotation, live and
    /// target scale both snapped from the given factor, no drag, clock at
    /// zero.
    pub fn new(scale_factor: &Rat, scroll_speed: &Rat) -> (r: SceneController)
        requires
            scale_factor.wf(),
            q_bounded(scale_factor.q(), 0x10000000, 0x10000),
            scroll_speed.wf(),
        ensures
            r.wf(),
            r.camera.scale.x == rat_of(spec_snap(scale_factor.q(), 0x40, 1, 0x1000)),
            r.camera.scale.y == r.camera.scale.x,
            r.hard_scale.x == r.camera.scale.x,
            r.hard_scale.y == r.camera.scale.x,
            r.camera.position.x.q() == (crate::rat::Q { n: 0, d: 0x40 }),
            r.camera.position.y.q() == (crate::rat::Q { n: 0, d: 0x40 }),
            r.camera.rotation.cos.q() == q_int(1),
            r.camera.rotation.sin.q() == q_int(0),
            r.mouse_x == 0 && r.mouse_y == 0 && r.held_x == 0 && r.held_y == 0,
            !r.dragging,
            r.prev_elapsed_us == 0 && r.current_elapsed_us == 0,
            r.scroll_speed == *scroll_speed,
    {
        let s = rat_snap(scale_factor, 0x40, 1, 0x1000);
        SceneController {
            camera: Camera {
                position: V2 { x: Rat { num: 0, den: 0x40 }, y: Rat { num: 0, den: 0x40 } },
                rotation: Rotor { cos: Rat { num: 1, den: 1 }, sin: Rat { num: 0, den: 1 } },
                scale: V2 { x: s, y: s },
            },
            mouse_x: 0,
            mouse_y: 0,
            held_x: 0,
            held_y: 0,
            dragging: false,
            scroll_speed: *scroll_speed,
            hard_scale: V2 { x: s, y: s },
            prev_elapsed_us: 0,
            current_elapsed_us: 0,
        }
    }
}

/// The exact effect of one event: pointer moves record the position, a
/// press snapshots the drag anchor and a release clears it, and a scroll
/// multiplies the zoom target — clamped at the mutation — without touching
/// the live camera.
pub open spec fn spec_interact(c: SceneController, e: InputEvent) -> SceneController {
    match e {
        InputEvent::PointerMoved { x, y } => SceneController { mouse_x: x, mouse_y: y, ..c },
        InputEvent::Button { pressed } => if pressed {
            SceneController { dragging: true, held_x: c.mouse_x, held_y: c.mouse_y, ..c }
        } else {
            SceneController { dragging: false, ..c }
        },
        InputEvent::Scroll { factor } => SceneController {
            hard_scale: V2 {
                x: rat_of(spec_snap(q_mul(c.hard_scale.x.q(), factor.q()), 0x40, 1, 0x1000)),
                y: rat_of(spec_snap(q_mul(c.hard_scale.y.q(), factor.q()), 0x40, 1, 0x1000)),
            },
            ..c
        },
    }
}

/// The live scale interpolated toward the target by the easing fraction,
/// snapped back onto the zoom grid.
pub open spec fn spec_eased_scale(s: Rat, h: Rat, ease: Rat) -> Rat {
    rat_of(spec_snap(q_add(s.q(), q_mul(ease.q(), q_sub(h.q(), s.q()))), 0x40, 1, 0x1000))
}

/// The position advanced by the pointer's drag delta in world units
/// (divided by the new scale, so drag speed is zoom invariant), snapped
/// and clamped.
pub open spec fn spec_dragged_pos(p: Rat, mouse: int, held: int, s: Rat) -> Rat {
    rat_of(
        spec_snap(
            q_add(p.q(), q_div(q_int(mouse - held), s.q())),
            0x40,
            -0x4000000,
            0x4000000,
        ),
    )
}

/// The exact effect of one frame update: ease the scale toward the
/// target, pan by the drag delta if dragging, and advance the clock.
/// Rotation, target scale, pointer and anchor are unchanged.
pub open spec fn spec_update(c: SceneController, now_us: u64, ease: Rat) -> SceneController {
    let sx = spec_eased_scale(c.camera.scale.x, c.hard_scale.x, ease);
    let sy = spec_eased_scale(c.camera.scale.y, c.hard_scale.y, ease);
    let px = if c.dragging {
        spec_dragged_pos(c.camera.position.x, c.mouse_x as int, c.held_x as int, sx)
    } else {
        c.camera.position.x
    };
    let py = if c.dragging {
        spec_dragged_pos(c.camera.position.y, c.mouse_y as int, c.held_y as int, sy)
    } else {
        c.camera.position.y
    };
    SceneController {
        camera: Camera {
            position: V2 { x: px, y: py },
            rotation: c.camera.rotation,
            scale: V2 { x: sx, y: sy },
        },
        prev_elapsed_us: c.current_elapsed_us,
        current_elapsed_us: now_us,
        ..c
    }
}

impl SceneController {
    /// React to one input event.
    pub fn interact(&mut self, event: &InputEvent)
        requires
            old(self).wf(),
            event_wf(*event),
        ensures
            final(self).wf(),
            *final(self) == spec_interact(*old(self), *event),
    {
        match event {
            InputEvent::PointerMoved { x, y } => {
                self.mouse_x = *x;
                self.mouse_y = *y;
            },
            InputEvent::Button { pressed } => {
                if *pressed {
                    self.dragging = true;
                    self.held_x = self.mouse_x;
                    self.held_y = self.mouse_y;
                } else {
                    self.dragging = false;
                }
            },
            InputEvent::Scroll { factor } => {
                proof {
                    lemma_q_mul_bound(
                        self.hard_scale.x.q(), factor.q(), 0x1000, 0x40, 0x100000, 0x10000,
                    );
                    lemma_q_mul_bound(
                        self.hard_scale.y.q(), factor.q(), 0x1000, 0x40, 0x100000, 0x10000,
                    );
                }
                let hx = rat_mul(&self.hard_scale.x, factor);
                let hy = rat_mul(&self.hard_scale.y, factor);
                let sx = rat_snap(&hx, 0x40, 1, 0x1000);
                let sy = rat_snap(&hy, 0x40, 1, 0x1000);
                self.hard_scale = V2 { x: sx, y: sy };
            },
        }
    }

    /// One frame: advance the live scale toward the target by the easing
    /// fraction (`dt^0.6`, supplied by the embedder, in `[0, 1]`), pan by
    /// the drag delta at the new scale, and record the clock sample.
    pub fn update(&mut self, now_us: u64, ease: &Rat)
        requires
            old(self).wf(),
            ease.wf(),
            q_le(q_int(0), ease.q()),
            q_le(ease.q(), q_int(1)),
            ease.den <= 0x10000,
            now_us >= old(self).current_elapsed_us,
        ensures
            final(self).wf(),
            *final(self) == spec_update(*old(self), now_us, *ease),
    {
        proof {
            lemma_q_add_bound(
                self.hard_scale.x.q(), self.camera.scale.x.q(), 0x1000, 0x40, 0x1000, 0x40,
            );
            lemma_q_add_bound(
                self.hard_scale.y.q(), self.camera.scale.y.q(), 0x1000, 0x40, 0x1000, 0x40,
            );
        }
        let dx = rat_sub(&self.hard_scale.x, &self.camera.scale.x);
        let dy = rat_sub(&self.hard_scale.y, &self.camera.scale.y);
        proof {
            lemma_q_mul_bound(ease.q(), dx.q(), 0x10000, 0x10000, 0x80000, 0x1000);
            lemma_q_mul_bound(ease.q(), dy.q(), 0x10000, 0x10000, 0x80000, 0x1000);
        }
        let ex = rat_mul(ease, &dx);
        let ey = rat_mul(ease, &dy);
        proof {
            lemma_q_add_bound(
                self.camera.scale.x.q(), ex.q(), 0x1000, 0x40, 0x800000000, 0x10000000,
            );
            lemma_q_add_bound(
                self.camera.scale.y.q(), ey.q(), 0x1000, 0x40, 0x800000000, 0x10000000,
            );
        }
        let nx = rat_add(&self.camera.scale.x, &ex);
        let ny = rat_add(&self.camera.scale.y, &ey);
        let sx = rat_snap(&nx, 0x40, 1, 0x1000);
        let sy = rat_snap(&ny, 0x40, 1, 0x1000);
        if self.dragging {
            let dxm: i64 = self.mouse_x - self.held_x;
            let dym: i64 = self.mouse_y - self.held_y;
            let rx = Rat::from_i64(dxm);
            let ry = Rat::from_i64(dym);
            proof {
                lemma_q_div_bound(rx.q(), sx.q(), 0x40000, 1, 0x1000, 0x40);
                lemma_q_div_bound(ry.q(), sy.q(), 0x40000, 1, 0x1000, 0x40);
            }
            let qx = rat_div(&rx, &sx);
            let qy = rat_div(&ry, &sy);
            proof {
                lemma_q_add_bound(
                    self.camera.position.x.q(), qx.q(), 0x4000000, 0x40, 0x1000000, 0x1000,
                );
                lemma_q_add_bound(
                    self.camera.position.y.q(), qy.q(), 0x4000000, 0x40, 0x1000000, 0x1000,
                );
            }
            let px = rat_add(&self.camera.position.x, &qx);
            let py = rat_add(&self.camera.position.y, &qy);
            let npx = rat_snap(&px, 0x40, -0x4000000, 0x4000000);
            let npy = rat_snap(&py, 0x40, -0x4000000, 0x4000000);
            self.camera.position = V2 { x: npx, y: npy };
        }
        self.camera.scale = V2 { x: sx, y: sy };
        self.prev_elapsed_us = self.current_elapsed_us;
        self.current_elapsed_us = now_us;
    }

    /// The last frame interval, in microseconds.
    pub fn dt(&self) -> (r: u64)
        requires
            self.wf(),
        ensures
            r == self.current_elapsed_us - self.prev_elapsed_us,
    {
        self.current_elapsed_us - self.prev_elapsed_us
    }

    /// The clock sample of the current frame, in microseconds.
    pub fn current_elapsed(&self) -> (r: u64)
        ensures
            r == self.current_elapsed_us,
    {
        self.current_elapsed_us
    }
}

} // verus!
