//! The quad grid: a dense square lattice of procedurally seeded rectangle
//! entities, addressed by row-major index.
//!
//! Everything here is exact integer arithmetic: a cell `(x, y)` of a grid of
//! width `w` sits at world position `(16x - 8w, 16y - 8w)` (the lattice is
//! centered on the origin with a spacing of 16 world units), and the nearest
//! cell to an arbitrary world position is found by rounding and clamping per
//! axis — never an error, however far outside the lattice the position lies.

use vstd::prelude::*;
use vstd::arithmetic::div_mod::{
    lemma_fundamental_div_mod, lemma_fundamental_div_mod_converse, lemma_div_is_ordered,
};

use crate::rat::{Rat, Q, q_int, q_round, lemma_q_round_range};
use crate::rng::rand_range_u32;

verus! {

/// World units between adjacent lattice cells.
pub const CELL_SPACING: i64 = 16;

/// `r` is the integer square root (rounded down) of `v`.
pub open spec fn is_isqrt(r: int, v: int) -> bool {
    0 <= r && r * r <= v && v < (r + 1) * (r + 1)
}

/// Integer square root by bisection.
pub fn isqrt_u64(v: u64) -> (r: u64)
    ensures
        is_isqrt(r as int, v as int),
{
    let mut lo: u64 = 0;
    let mut hi: u64 = 0x1_0000_0000;
    while lo + 1 < hi
        invariant
            0 <= lo < hi <= 0x1_0000_0000,
            (lo as int) * (lo as int) <= v as int,
            (v as int) < (hi as int) * (hi as int),
        decreases hi - lo,
    {
        let mid: u64 = lo + (hi - lo) / 2;
        proof {
            assert((mid as int) * (mid as int) < 0x10000000000000000) by (nonlinear_arith)
                requires
                    0 <= mid as int,
                    mid as int <= 0xffffffff,
            ;
        }
        if mid * mid <= v {
            lo = mid;
        } else {
            hi = mid;
        }
    }
    lo
}

/// The grid width for a requested number of quads: the integer square root.
pub fn area_width_for(n_quads: u32) -> (w: u32)
    ensures
        is_isqrt(w as int, n_quads as int),
        w <= 0x10000,
{
    let r = isqrt_u64(n_quads as u64);
    proof {
        if r > 0x10000 {
            assert((r as int) * (r as int) > 0x10000 * 0x10000) by (nonlinear_arith)
                requires
                    r as int > 0x10000,
            ;
        }
    }
    r as u32
}

/// Row-major index of the cell `(x, y)`.
pub fn index_from_grid_coord(x: u32, y: u32, area_width: u32) -> (i: u32)
    requires
        x < area_width,
        y < area_width,
        area_width <= 0x10000,
    ensures
        i as int == (y as int) * (area_width as int) + (x as int),
{
    proof {
        assert((y as int) * (area_width as int) + (x as int) < 0x100000000) by (nonlinear_arith)
            requires
                x < area_width,
                y < area_width,
                area_width <= 0x10000,
        ;
        assert((y as int) * (area_width as int) >= 0) by (nonlinear_arith)
            requires
                y >= 0,
                area_width >= 0,
        ;
    }
    y * area_width + x
}

/// The cell `(x, y)` of a row-major index.
pub fn grid_coord_from_index(i: u32, area_width: u32) -> (xy: (u32, u32))
    requires
        area_width > 0,
    ensures
        xy.0 as int == (i as int) % (area_width as int),
        xy.1 as int == (i as int) / (area_width as int),
{
    (i % area_width, i / area_width)
}

/// Grid index bijection: for every cell of the grid, converting to a
/// row-major index and back returns the same cell.
pub proof fn lemma_grid_index_bijection(x: int, y: int, area_width: int)
    requires
        0 <= x < area_width,
        0 <= y < area_width,
    ensures
        (y * area_width + x) % area_width == x,
        (y * area_width + x) / area_width == y,
{
    lemma_fundamental_div_mod_converse(y * area_width + x, area_width, y, x);
}

/// World coordinate of lattice line `g` in a grid of the given width:
/// `(g - width/2) * spacing`, kept exact as `16g - 8·width`.
pub open spec fn spec_cell_pos(g: int, area_width: int) -> int {
    16 * g - 8 * area_width
}

/// World position of the cell `(x, y)`.
pub fn pos_from_grid_coord(x: u32, y: u32, area_width: u32) -> (p: (i64, i64))
    requires
        x <= 0x20000,
        y <= 0x20000,
        area_width <= 0x10000,
    ensures
        p.0 == spec_cell_pos(x as int, area_width as int),
        p.1 == spec_cell_pos(y as int, area_width as int),
{
    let half: i64 = 8 * (area_width as i64);
    (16 * (x as i64) - half, 16 * (y as i64) - half)
}

/// World position of the entity at a row-major index.
pub fn pos_from_index(i: u32, area_width: u32) -> (p: (i64, i64))
    requires
        0 < area_width <= 0x10000,
        i as int / (area_width as int) <= 0x20000,
    ensures
        p.0 == spec_cell_pos((i as int) % (area_width as int), area_width as int),
        p.1 == spec_cell_pos((i as int) / (area_width as int), area_width as int),
{
    let (x, y) = grid_coord_from_index(i, area_width);
    pos_from_grid_coord(x, y, area_width)
}

/// Round `n / 16` to the nearest integer, halves away from zero.
pub fn round_div16(n: i64) -> (k: i64)
    requires
        -0x2000_0000_0000_0000 <= n <= 0x2000_0000_0000_0000,
    ensures
        k as int == q_round(Q { n: n as int, d: 16 }),
{
    proof {
        lemma_q_round_range(Q { n: n as int, d: 16 });
    }
    if n >= 0 {
        (2 * n + 16) / 32
    } else {
        -((2 * (-n) + 16) / 32)
    }
}

/// Nearest lattice line to a world coordinate, clamped into the grid.
pub open spec fn spec_closest_axis(p: int, area_width: int) -> int {
    let r = q_round(Q { n: p + 8 * area_width, d: 16 });
    if r < 0 {
        0
    } else if r > area_width - 1 {
        area_width - 1
    } else {
        r
    }
}

fn closest_axis(p: i64, area_width: u32) -> (x: u32)
    requires
        1 <= area_width <= 0x10000,
        -0x4000_0000_0000 <= p <= 0x4000_0000_0000,
    ensures
        x as int == spec_closest_axis(p as int, area_width as int),
        x < area_width,
{
    let m: i64 = p + 8 * (area_width as i64);
    let r = round_div16(m);
    let upper: i64 = (area_width as i64) - 1;
    if r < 0 {
        0
    } else if r > upper {
        area_width - 1
    } else {
        r as u32
    }
}

/// The grid cell closest to a world position, each axis rounded to the
/// nearest lattice line and clamped into `[0, width - 1]`.
pub fn closest_grid_coord_from_pos(px: i64, py: i64, area_width: u32) -> (xy: (u32, u32))
    requires
        1 <= area_width <= 0x10000,
        -0x4000_0000_0000 <= px <= 0x4000_0000_0000,
        -0x4000_0000_0000 <= py <= 0x4000_0000_0000,
    ensures
        xy.0 as int == spec_closest_axis(px as int, area_width as int),
        xy.1 as int == spec_closest_axis(py as int, area_width as int),
        xy.0 < area_width,
        xy.1 < area_width,
{
    (closest_axis(px, area_width), closest_axis(py, area_width))
}

/// Clamping: the nearest-cell mapping lands inside the grid for every world
/// position, however far outside the lattice.
pub proof fn lemma_closest_in_range(p: int, area_width: int)
    requires
        area_width >= 1,
    ensures
        0 <= spec_closest_axis(p, area_width) < area_width,
{
}

/// Rounding at a fixed denominator is monotone.
pub proof fn lemma_q_round_mono(a: Q, b: Q)
    requires
        a.d == b.d,
        a.d > 0,
        a.n <= b.n,
    ensures
        q_round(a) <= q_round(b),
{
    lemma_q_round_range(a);
    lemma_q_round_range(b);
    if a.n >= 0 {
        lemma_div_is_ordered(2 * a.n + a.d, 2 * b.n + b.d, 2 * a.d);
    } else if b.n < 0 {
        lemma_div_is_ordered(2 * -b.n + b.d, 2 * -a.n + a.d, 2 * a.d);
    }
}

/// Rounding an exact multiple of the denominator returns the multiplier.
pub proof fn lemma_q_round_exact(k: int, d: int)
    requires
        d > 0,
    ensures
        q_round(Q { n: k * d, d: d }) == k,
{
    assert(k >= 0 ==> k * d >= 0 && 2 * (k * d) + d == k * (2 * d) + d) by (nonlinear_arith)
        requires
            d > 0,
    ;
    assert(k < 0 ==> k * d < 0 && 2 * (-(k * d)) + d == (-k) * (2 * d) + d) by (nonlinear_arith)
        requires
            d > 0,
    ;
    if k >= 0 {
        lemma_fundamental_div_mod_converse(2 * (k * d) + d, 2 * d, k, d);
    } else {
        lemma_fundamental_div_mod_converse(2 * (-(k * d)) + d, 2 * d, -k, d);
    }
}

/// If a world coordinate lies at or left of a cell's lattice line, the
/// nearest clamped cell is at or left of that cell.
pub proof fn lemma_closest_le_cell(p: int, x: int, area_width: int)
    requires
        0 <= x < area_width,
        p <= spec_cell_pos(x, area_width),
    ensures
        spec_closest_axis(p, area_width) <= x,
{
    lemma_q_round_mono(
        Q { n: p + 8 * area_width, d: 16 },
        Q { n: x * 16, d: 16 },
    );
    lemma_q_round_exact(x, 16);
}

/// If a world coordinate lies at or right of a cell's lattice line, the
/// nearest clamped cell is at or right of that cell.
pub proof fn lemma_closest_ge_cell(p: int, x: int, area_width: int)
    requires
        0 <= x < area_width,
        spec_cell_pos(x, area_width) <= p,
    ensures
        x <= spec_closest_axis(p, area_width),
{
    lemma_q_round_mono(
        Q { n: x * 16, d: 16 },
        Q { n: p + 8 * area_width, d: 16 },
    );
    lemma_q_round_exact(x, 16);
}

/// The nearest-cell mapping is monotone in the world coordinate.
pub proof fn lemma_closest_mono(p1: int, p2: int, area_width: int)
    requires
        p1 <= p2,
        area_width >= 1,
    ensures
        spec_closest_axis(p1, area_width) <= spec_closest_axis(p2, area_width),
{
    lemma_q_round_mono(
        Q { n: p1 + 8 * area_width, d: 16 },
        Q { n: p2 + 8 * area_width, d: 16 },
    );
}

// ---------------------------------------------------------------------------
// Entities and the grid itself.
// ---------------------------------------------------------------------------

/// One full turn of entity rotation, measured in micro-turns.
pub const TURN_UNITS: u32 = 1_000_000;

/// One rectangle entity of the grid.
///
/// `rotation` is in micro-turns; `intensity` is the current proximity
/// falloff value in `[0, 1]` (0 when the pointer is far away), from which a
/// vertex emphasis of `2·intensity + 1/2` is emitted.
#[derive(Clone, Copy, Debug)]
pub struct QuadEntity {
    pub pos_x: i64,
    pub pos_y: i64,
    pub size_x: u32,
    pub size_y: u32,
    pub rotation: u32,
    pub border_radius: u32,
    pub border_width: u32,
    pub fill_color: u32,
    pub stroke_color: u32,
    pub intensity: Rat,
}

pub open spec fn entity_wf(e: QuadEntity) -> bool {
    &&& e.rotation < TURN_UNITS
    &&& e.intensity.wf()
}

/// An RGBA color packed into a `u32`, least significant byte first.
pub open spec fn pack_rgba(b0: int, b1: int, b2: int, b3: int) -> int {
    b0 + 0x100 * b1 + 0x10000 * b2 + 0x1000000 * b3
}

/// The color's three channel bytes lie in `[lo, hi]` and its alpha byte in
/// `[alo, ahi]`.
pub open spec fn color_in(c: int, lo: int, hi: int, alo: int, ahi: int) -> bool {
    exists|b0: int, b1: int, b2: int, b3: int|
        #![trigger pack_rgba(b0, b1, b2, b3)]
        lo <= b0 <= hi && lo <= b1 <= hi && lo <= b2 <= hi && alo <= b3 <= ahi && c == pack_rgba(
            b0,
            b1,
            b2,
            b3,
        )
}

/// The value ranges every freshly seeded entity satisfies.
pub open spec fn entity_seeded(e: QuadEntity) -> bool {
    &&& 10 <= e.size_x <= 20
    &&& 10 <= e.size_y <= 20
    &&& 1 <= e.border_radius <= 5
    &&& 1 <= e.border_width <= 5
    &&& color_in(e.fill_color as int, 128, 255, 128, 255)
    &&& color_in(e.stroke_color as int, 24, 128, 128, 255)
    &&& e.intensity.q() == q_int(0)
}

/// Seed one entity: its position is determined by its index on the lattice,
/// everything else is drawn from the generator within fixed ranges.
pub fn random_entity(rng: &mut rand::rngs::StdRng, i: u32, area_width: u32) -> (e: QuadEntity)
    requires
        0 < area_width <= 0x10000,
        i as int / (area_width as int) <= 0x20000,
    ensures
        entity_wf(e),
        entity_seeded(e),
        e.pos_x == spec_cell_pos((i as int) % (area_width as int), area_width as int),
        e.pos_y == spec_cell_pos((i as int) / (area_width as int), area_width as int),
{
    let (px, py) = pos_from_index(i, area_width);
    let size_x = rand_range_u32(rng, 10, 20);
    let size_y = rand_range_u32(rng, 10, 20);
    let rotation = rand_range_u32(rng, 0, TURN_UNITS - 1);
    let border_radius = rand_range_u32(rng, 1, 5);
    let border_width = rand_range_u32(rng, 1, 5);
    let f0 = rand_range_u32(rng, 128, 255);
    let f1 = rand_range_u32(rng, 128, 255);
    let f2 = rand_range_u32(rng, 128, 255);
    let f3 = rand_range_u32(rng, 128, 255);
    let fill_color = f0 + 0x100 * f1 + 0x10000 * f2 + 0x1000000 * f3;
    let s0 = rand_range_u32(rng, 24, 128);
    let s1 = rand_range_u32(rng, 24, 128);
    let s2 = rand_range_u32(rng, 24, 128);
    let s3 = rand_range_u32(rng, 128, 255);
    let stroke_color = s0 + 0x100 * s1 + 0x10000 * s2 + 0x1000000 * s3;
    proof {
        assert(fill_color as int == pack_rgba(f0 as int, f1 as int, f2 as int, f3 as int));
        assert(stroke_color as int == pack_rgba(s0 as int, s1 as int, s2 as int, s3 as int));
    }
    QuadEntity {
        pos_x: px,
        pos_y: py,
        size_x,
        size_y,
        rotation,
        border_radius,
        border_width,
        fill_color,
        stroke_color,
        intensity: Rat { num: 0, den: 1 },
    }
}

/// The dense grid of entities, row-major, together with its width.
pub struct QuadGrid {
    pub area_width: u32,
    pub entities: Vec<QuadEntity>,
}

impl QuadGrid {
    /// Well-formedness: the width squared fits inside the entity list, and
    /// every entity sits on its lattice position.
    pub open spec fn wf(self) -> bool {
        &&& 1 <= self.area_width <= 0x10000
        &&& (self.area_width as int) * (self.area_width as int) <= self.entities@.len()
        &&& self.entities@.len() <= 0xffff_ffff
        &&& forall|i: int|
            0 <= i < self.entities@.len() ==> entity_wf(#[trigger] self.entities@[i])
        &&& forall|i: int|
            0 <= i < self.entities@.len() ==> (#[trigger] self.entities@[i]).pos_x
                == spec_cell_pos(i % (self.area_width as int), self.area_width as int)
                && self.entities@[i].pos_y == spec_cell_pos(
                i / (self.area_width as int),
                self.area_width as int,
            )
    }

    /// Seed a grid of `n_quads` entities on a square lattice of width
    /// `⌊√n_quads⌋`.
    pub fn generate(n_quads: u32, rng: &mut rand::rngs::StdRng) -> (g: QuadGrid)
        requires
            1 <= n_quads,
        ensures
            g.wf(),
            is_isqrt(g.area_width as int, n_quads as int),
            g.entities@.len() == n_quads,
            forall|i: int| 0 <= i < n_quads ==> entity_seeded(#[trigger] g.entities@[i]),
    {
        let area_width = area_width_for(n_quads);
        proof {
            assert(area_width >= 1) by (nonlinear_arith)
                requires
                    (area_width as int) * (area_width as int) <= n_quads as int,
                    (n_quads as int) < ((area_width as int) + 1) * ((area_width as int) + 1),
                    n_quads >= 1,
                    area_width >= 0,
            ;
            assert((area_width as int) * (area_width as int) + 2 * (area_width as int)
                == ((area_width as int) + 2) * (area_width as int)) by (nonlinear_arith);
        }
        let mut entities: Vec<QuadEntity> = Vec::new();
        let mut i: u32 = 0;
        while i < n_quads
            invariant
                1 <= area_width <= 0x10000,
                is_isqrt(area_width as int, n_quads as int),
                i <= n_quads,
                entities@.len() == i,
                forall|j: int|
                    0 <= j < i ==> entity_wf(#[trigger] entities@[j]) && entity_seeded(
                        entities@[j],
                    ),
                forall|j: int|
                    0 <= j < i ==> (#[trigger] entities@[j]).pos_x == spec_cell_pos(
                        j % (area_width as int),
                        area_width as int,
                    ) && entities@[j].pos_y == spec_cell_pos(
                        j / (area_width as int),
                        area_width as int,
                    ),
            decreases n_quads - i,
        {
            proof {
                let aw = area_width as int;
                assert(aw * aw + 2 * aw == (aw + 2) * aw) by (nonlinear_arith);
                assert((n_quads as int) - 1 < (aw + 1) * (aw + 1));
                assert((aw + 1) * (aw + 1) == aw * aw + 2 * aw + 1) by (nonlinear_arith);
                lemma_div_is_ordered(i as int, aw * aw + 2 * aw, aw);
                lemma_fundamental_div_mod_converse(aw * aw + 2 * aw, aw, aw + 2, 0);
            }
            let e = random_entity(rng, i, area_width);
            entities.push(e);
            i = i + 1;
        }
        QuadGrid { area_width, entities }
    }
}

// ---------------------------------------------------------------------------
// The pointer-reactive partial update.
// ---------------------------------------------------------------------------

/// An inclusive rectangle of grid cells.
#[derive(Clone, Copy, Debug, PartialEq, Eq, Structural)]
pub struct GridRect {
    pub x_beg: u32,
    pub x_end: u32,
    pub y_beg: u32,
    pub y_end: u32,
}

pub open spec fn rect_wf(r: GridRect, area_width: int) -> bool {
    &&& r.x_beg <= r.x_end < area_width
    &&& r.y_beg <= r.y_end < area_width
}

/// The row-major index `i` addresses a cell inside the rectangle.
pub open spec fn index_in_rect(i: int, r: GridRect, area_width: int) -> bool {
    &&& r.x_beg <= i % area_width <= r.x_end
    &&& r.y_beg <= i / area_width <= r.y_end
}

/// The rectangle derived from a pointer position and an interaction radius:
/// the nearest cells to the two opposite corners of the surrounding square.
pub open spec fn spec_derived_rect(r: GridRect, px: int, py: int, radius: int, area_width: int) -> bool {
    &&& r.x_beg == spec_closest_axis(px - radius, area_width)
    &&& r.x_end == spec_closest_axis(px + radius, area_width)
    &&& r.y_beg == spec_closest_axis(py - radius, area_width)
    &&& r.y_end == spec_closest_axis(py + radius, area_width)
}

pub fn derive_rect(px: i64, py: i64, radius: i64, area_width: u32) -> (r: GridRect)
    requires
        1 <= area_width <= 0x10000,
        1 <= radius <= 0x100000,
        -0x4000_0000 <= px <= 0x4000_0000,
        -0x4000_0000 <= py <= 0x4000_0000,
    ensures
        spec_derived_rect(r, px as int, py as int, radius as int, area_width as int),
        rect_wf(r, area_width as int),
{
    let (x_beg, y_beg) = closest_grid_coord_from_pos(px - radius, py - radius, area_width);
    let (x_end, y_end) = closest_grid_coord_from_pos(px + radius, py + radius, area_width);
    proof {
        lemma_closest_mono(px - radius, px + radius, area_width as int);
        lemma_closest_mono(py - radius, py + radius, area_width as int);
    }
    GridRect { x_beg, x_end, y_beg, y_end }
}

/// Squared Euclidean distance from an entity's position to a point.
pub open spec fn spec_dist2(e: QuadEntity, px: int, py: int) -> int {
    (e.pos_x - px) * (e.pos_x - px) + (e.pos_y - py) * (e.pos_y - py)
}

/// The integer square root as a spec-level function.
pub open spec fn spec_isqrt(v: int) -> int {
    choose|r: int| is_isqrt(r, v)
}

pub proof fn lemma_isqrt_exists(v: int)
    requires
        v >= 0,
    ensures
        is_isqrt(spec_isqrt(v), v),
    decreases v,
{
    if v == 0 {
        assert(is_isqrt(0, 0));
    } else {
        lemma_isqrt_exists(v - 1);
        let r = spec_isqrt(v - 1);
        if v < (r + 1) * (r + 1) {
            assert(is_isqrt(r, v));
        } else {
            assert(v == (r + 1) * (r + 1));
            assert((r + 1 + 1) * (r + 1 + 1) > v) by (nonlinear_arith)
                requires
                    v == (r + 1) * (r + 1),
                    r >= 0,
            ;
            assert(is_isqrt(r + 1, v));
        }
    }
}

/// The integer square root is unique, so any witness pins `spec_isqrt` down.
pub proof fn lemma_isqrt_is(r: int, v: int)
    requires
        is_isqrt(r, v),
    ensures
        spec_isqrt(v) == r,
{
    let r2 = spec_isqrt(v);
    assert(is_isqrt(r2, v));
    assert(!(r2 < r) && !(r < r2)) by (nonlinear_arith)
        requires
            0 <= r,
            r * r <= v,
            v < (r + 1) * (r + 1),
            0 <= r2,
            r2 * r2 <= v,
            v < (r2 + 1) * (r2 + 1),
    ;
}

/// The proximity falloff: `max(0, radius - distance) / radius`, 1 at the
/// pointer, 0 at and beyond the interaction radius.
pub open spec fn spec_intensity(d: int, radius: int) -> Q {
    Q { n: if d < radius { radius - d } else { 0 }, d: radius }
}

/// The exact effect of one reactive touch on one entity: the intensity
/// becomes the falloff of its distance to the pointer, and the rotation
/// advances by `dt·intensity` micro-turns (rounded), wrapping at a full
/// turn.  Every other field is unchanged.
pub open spec fn spec_touched_entity(o: QuadEntity, px: int, py: int, radius: int, dt: int) -> QuadEntity {
    let d = spec_isqrt(spec_dist2(o, px, py));
    let inten = spec_intensity(d, radius);
    QuadEntity {
        rotation: (((o.rotation as int) + q_round(Q { n: dt * inten.n, d: radius })) % (
        TURN_UNITS as int)) as u32,
        intensity: Rat { num: inten.n as i128, den: radius as i128 },
        ..o
    }
}

proof fn lemma_square_bound(a: int, b: int) by (nonlinear_arith)
    requires
        -b <= a <= b,
    ensures
        0 <= a * a <= b * b,
{
}

/// Touch one entity for a pointer at `(px, py)`.
fn touch_entity(e: &QuadEntity, px: i64, py: i64, radius: i64, dt_units: u32) -> (n: QuadEntity)
    requires
        entity_wf(*e),
        -0x400000 <= e.pos_x <= 0x400000,
        -0x400000 <= e.pos_y <= 0x400000,
        -0x4000_0000 <= px <= 0x4000_0000,
        -0x4000_0000 <= py <= 0x4000_0000,
        1 <= radius <= 0x100000,
    ensures
        entity_wf(n),
        n == spec_touched_entity(*e, px as int, py as int, radius as int, dt_units as int),
{
    let dx: i64 = e.pos_x - px;
    let dy: i64 = e.pos_y - py;
    proof {
        lemma_square_bound(dx as int, 0x4040_0000);
        lemma_square_bound(dy as int, 0x4040_0000);
    }
    let d2: u64 = ((dx as i128) * (dx as i128) + (dy as i128) * (dy as i128)) as u64;
    let d = isqrt_u64(d2);
    proof {
        lemma_isqrt_is(d as int, d2 as int);
        if d > 0x1_0000_0000 {
            assert((d as int) * (d as int) > 0x1_0000_0000 * 0x1_0000_0000) by (nonlinear_arith)
                requires
                    d as int > 0x1_0000_0000,
            ;
        }
    }
    let inten_num: i64 = if (d as i64) < radius {
        radius - (d as i64)
    } else {
        0
    };
    let intensity = Rat { num: inten_num as i128, den: radius as i128 };
    proof {
        assert((dt_units as int) * (inten_num as int) <= 0x100000000 * 0x100000) by (nonlinear_arith)
            requires
                0 <= dt_units as int <= 0x100000000,
                0 <= inten_num as int <= 0x100000,
        ;
        assert((dt_units as int) * (inten_num as int) >= 0) by (nonlinear_arith)
            requires
                0 <= dt_units as int,
                0 <= inten_num as int,
        ;
    }
    let prod: u64 = (dt_units as u64) * (inten_num as u64);
    let delta: u64 = (2 * prod + (radius as u64)) / (2 * (radius as u64));
    proof {
        lemma_q_round_range(Q { n: prod as int, d: radius as int });
    }
    let rot: u64 = ((e.rotation as u64) + delta) % (TURN_UNITS as u64);
    QuadEntity {
        pos_x: e.pos_x,
        pos_y: e.pos_y,
        size_x: e.size_x,
        size_y: e.size_y,
        rotation: rot as u32,
        border_radius: e.border_radius,
        border_width: e.border_width,
        fill_color: e.fill_color,
        stroke_color: e.stroke_color,
        intensity,
    }
}

/// `g1` is `g0` after one reactive update over `rect`: entities inside the
/// rectangle are touched exactly as [`spec_touched_entity`] says, entities
/// outside it are untouched.
pub open spec fn spec_updated_grid(
    g0: QuadGrid,
    g1: QuadGrid,
    rect: GridRect,
    px: int,
    py: int,
    radius: int,
    dt: int,
) -> bool {
    &&& g1.area_width == g0.area_width
    &&& g1.entities@.len() == g0.entities@.len()
    &&& forall|i: int|
        #![trigger g1.entities@[i]]
        0 <= i < g0.entities@.len() ==> g1.entities@[i] == if index_in_rect(
            i,
            rect,
            g0.area_width as int,
        ) {
            spec_touched_entity(g0.entities@[i], px, py, radius, dt)
        } else {
            g0.entities@[i]
        }
}

/// `g1` is `g0` with the intensity of every entity inside `rect` reset to
/// the idle falloff 0, and nothing else changed.
pub open spec fn spec_reset_grid(g0: QuadGrid, g1: QuadGrid, rect: GridRect) -> bool {
    &&& g1.area_width == g0.area_width
    &&& g1.entities@.len() == g0.entities@.len()
    &&& forall|i: int|
        #![trigger g1.entities@[i]]
        0 <= i < g0.entities@.len() ==> g1.entities@[i] == if index_in_rect(
            i,
            rect,
            g0.area_width as int,
        ) {
            QuadEntity { intensity: Rat { num: 0, den: 1 }, ..g0.entities@[i] }
        } else {
            g0.entities@[i]
        }
}

impl QuadGrid {
    /// One reactive update: derive the surrounding rectangle of the pointer
    /// and touch exactly the entities inside it.
    pub fn reactive_update(&mut self, px: i64, py: i64, radius: i64, dt_units: u32) -> (rect:
        GridRect)
        requires
            old(self).wf(),
            1 <= radius <= 0x100000,
            -0x4000_0000 <= px <= 0x4000_0000,
            -0x4000_0000 <= py <= 0x4000_0000,
        ensures
            final(self).wf(),
            spec_derived_rect(rect, px as int, py as int, radius as int, old(self).area_width as int),
            rect_wf(rect, old(self).area_width as int),
            spec_updated_grid(
                *old(self),
                *final(self),
                rect,
                px as int,
                py as int,
                radius as int,
                dt_units as int,
            ),
    {
        let aw = self.area_width;
        let ghost g0 = *self;
        let rect = derive_rect(px, py, radius, aw);
        let mut y: u32 = rect.y_beg;
        while y <= rect.y_end
            invariant
                g0.wf(),
                self.area_width == g0.area_width,
                aw == g0.area_width,
                self.entities@.len() == g0.entities@.len(),
                rect_wf(rect, aw as int),
                rect.y_beg <= y <= rect.y_end + 1,
                1 <= radius <= 0x100000,
                -0x4000_0000 <= px <= 0x4000_0000,
                -0x4000_0000 <= py <= 0x4000_0000,
                forall|i: int|
                    #![trigger self.entities@[i]]
                    0 <= i < g0.entities@.len() ==> self.entities@[i] == if index_in_rect(
                        i,
                        rect,
                        aw as int,
                    ) && i / (aw as int) < y {
                        spec_touched_entity(
                            g0.entities@[i],
                            px as int,
                            py as int,
                            radius as int,
                            dt_units as int,
                        )
                    } else {
                        g0.entities@[i]
                    },
            decreases rect.y_end + 1 - y,
        {
            let mut x: u32 = rect.x_beg;
            while x <= rect.x_end
                invariant
                    g0.wf(),
                    self.area_width == g0.area_width,
                    aw == g0.area_width,
                    self.entities@.len() == g0.entities@.len(),
                    rect_wf(rect, aw as int),
                    rect.y_beg <= y <= rect.y_end,
                    rect.x_beg <= x <= rect.x_end + 1,
                    1 <= radius <= 0x100000,
                    -0x4000_0000 <= px <= 0x4000_0000,
                    -0x4000_0000 <= py <= 0x4000_0000,
                    forall|i: int|
                        #![trigger self.entities@[i]]
                        0 <= i < g0.entities@.len() ==> self.entities@[i] == if index_in_rect(
                            i,
                            rect,
                            aw as int,
                        ) && (i / (aw as int) < y || (i / (aw as int) == y && i % (aw as int)
                            < x)) {
                            spec_touched_entity(
                                g0.entities@[i],
                                px as int,
                                py as int,
                                radius as int,
                                dt_units as int,
                            )
                        } else {
                            g0.entities@[i]
                        },
                decreases rect.x_end + 1 - x,
            {
                let i = index_from_grid_coord(x, y, aw);
                proof {
                    lemma_grid_index_bijection(x as int, y as int, aw as int);
                    assert((y as int) * (aw as int) + (x as int) < (aw as int) * (aw as int))
                        by (nonlinear_arith)
                        requires
                            0 <= (x as int),
                            (x as int) < (aw as int),
                            0 <= (y as int),
                            (y as int) < (aw as int),
                    ;
                }
                let e = self.entities[i as usize];
                let ne = touch_entity(&e, px, py, radius, dt_units);
                self.entities[i as usize] = ne;
                proof {
                    assert forall|jq: int| 0 <= jq < g0.entities@.len() implies self.entities@[jq]
                        == (if index_in_rect(jq, rect, aw as int) && (jq / (aw as int) < y || (jq
                        / (aw as int) == y && jq % (aw as int) < x + 1)) {
                        spec_touched_entity(
                            g0.entities@[jq],
                            px as int,
                            py as int,
                            radius as int,
                            dt_units as int,
                        )
                    } else {
                        g0.entities@[jq]
                    }) by {
                        assert((aw as int) * (y as int) == (y as int) * (aw as int))
                            by (nonlinear_arith);
                        if jq == i as int {
                            assert(self.entities@[jq] == ne);
                        } else {
                            lemma_fundamental_div_mod(jq, aw as int);
                        }
                    }
                }
                x = x + 1;
            }
            y = y + 1;
        }
        rect
    }

    /// The post-frame reset pass: revisit the same rectangle and put every
    /// entity in it back at the idle intensity.
    pub fn reset_range(&mut self, rect: GridRect)
        requires
            old(self).wf(),
            rect_wf(rect, old(self).area_width as int),
        ensures
            final(self).wf(),
            spec_reset_grid(*old(self), *final(self), rect),
    {
        let aw = self.area_width;
        let ghost g0 = *self;
        let mut y: u32 = rect.y_beg;
        while y <= rect.y_end
            invariant
                g0.wf(),
                self.area_width == g0.area_width,
                aw == g0.area_width,
                self.entities@.len() == g0.entities@.len(),
                rect_wf(rect, aw as int),
                rect.y_beg <= y <= rect.y_end + 1,
                forall|i: int|
                    #![trigger self.entities@[i]]
                    0 <= i < g0.entities@.len() ==> self.entities@[i] == if index_in_rect(
                        i,
                        rect,
                        aw as int,
                    ) && i / (aw as int) < y {
                        QuadEntity { intensity: Rat { num: 0, den: 1 }, ..g0.entities@[i] }
                    } else {
                        g0.entities@[i]
                    },
            decreases rect.y_end + 1 - y,
        {
            let mut x: u32 = rect.x_beg;
            while x <= rect.x_end
                invariant
                    g0.wf(),
                    self.area_width == g0.area_width,
                    aw == g0.area_width,
                    self.entities@.len() == g0.entities@.len(),
                    rect_wf(rect, aw as int),
                    rect.y_beg <= y <= rect.y_end,
                    rect.x_beg <= x <= rect.x_end + 1,
                    forall|i: int|
                        #![trigger self.entities@[i]]
                        0 <= i < g0.entities@.len() ==> self.entities@[i] == if index_in_rect(
                            i,
                            rect,
                            aw as int,
                        ) && (i / (aw as int) < y || (i / (aw as int) == y && i % (aw as int)
                            < x)) {
                            QuadEntity { intensity: Rat { num: 0, den: 1 }, ..g0.entities@[i] }
                        } else {
                            g0.entities@[i]
                        },
                decreases rect.x_end + 1 - x,
            {
                let i = index_from_grid_coord(x, y, aw);
                proof {
                    lemma_grid_index_bijection(x as int, y as int, aw as int);
                    assert((y as int) * (aw as int) + (x as int) < (aw as int) * (aw as int))
                        by (nonlinear_arith)
                        requires
                            0 <= (x as int),
                            (x as int) < (aw as int),
                            0 <= (y as int),
                            (y as int) < (aw as int),
                    ;
                }
                let e = self.entities[i as usize];
                let ne = QuadEntity {
                    pos_x: e.pos_x,
                    pos_y: e.pos_y,
                    size_x: e.size_x,
                    size_y: e.size_y,
                    rotation: e.rotation,
                    border_radius: e.border_radius,
                    border_width: e.border_width,
                    fill_color: e.fill_color,
                    stroke_color: e.stroke_color,
                    intensity: Rat { num: 0, den: 1 },
                };
                self.entities[i as usize] = ne;
                proof {
                    assert forall|jq: int| 0 <= jq < g0.entities@.len() implies self.entities@[jq]
                        == (if index_in_rect(jq, rect, aw as int) && (jq / (aw as int) < y || (jq
                        / (aw as int) == y && jq % (aw as int) < x + 1)) {
                        QuadEntity { intensity: Rat { num: 0, den: 1 }, ..g0.entities@[jq] }
                    } else {
                        g0.entities@[jq]
                    }) by {
                        assert((aw as int) * (y as int) == (y as int) * (aw as int))
                            by (nonlinear_arith);
                        if jq == i as int {
                            assert(self.entities@[jq] == ne);
                        } else {
                            lemma_fundamental_div_mod(jq, aw as int);
                        }
                    }
                }
                x = x + 1;
            }
            y = y + 1;
        }
    }
}

proof fn lemma_square_lt(a: int, b: int) by (nonlinear_arith)
    requires
        a * a < b * b,
        b > 0,
    ensures
        -b < a < b,
{
}

/// Partial-update correctness: after a reactive update for a pointer at
/// `(px, py)` with the given radius, every entity whose position lies
/// strictly within that Euclidean distance of the pointer is inside the
/// derived rectangle and carries a strictly positive intensity — while
/// everything outside the rectangle is untouched (that is part of
/// [`spec_updated_grid`] itself).
pub proof fn lemma_proximity_update(
    g0: QuadGrid,
    g1: QuadGrid,
    rect: GridRect,
    px: int,
    py: int,
    radius: int,
    dt: int,
    x: int,
    y: int,
)
    requires
        g0.wf(),
        1 <= radius <= 0x100000,
        spec_derived_rect(rect, px, py, radius, g0.area_width as int),
        spec_updated_grid(g0, g1, rect, px, py, radius, dt),
        0 <= x < g0.area_width,
        0 <= y < g0.area_width,
        spec_dist2(g0.entities@[y * (g0.area_width as int) + x], px, py) < radius * radius,
    ensures
        index_in_rect(y * (g0.area_width as int) + x, rect, g0.area_width as int),
        g1.entities@[y * (g0.area_width as int) + x].intensity.q().n > 0,
        g1.entities@[y * (g0.area_width as int) + x].intensity.q().d == radius,
{
    let aw = g0.area_width as int;
    let i = y * aw + x;
    assert(0 <= y * aw + x && y * aw + x < aw * aw) by (nonlinear_arith)
        requires
            0 <= x,
            x < aw,
            0 <= y,
            y < aw,
    ;
    lemma_grid_index_bijection(x, y, aw);
    let e = g0.entities@[i];
    let dx = e.pos_x - px;
    let dy = e.pos_y - py;
    lemma_square_bound(dy, if dy >= 0 { dy } else { -dy });
    lemma_square_bound(dx, if dx >= 0 { dx } else { -dx });
    lemma_square_lt(dx, radius);
    lemma_square_lt(dy, radius);
    lemma_closest_le_cell(px - radius, x, aw);
    lemma_closest_ge_cell(px + radius, x, aw);
    lemma_closest_le_cell(py - radius, y, aw);
    lemma_closest_ge_cell(py + radius, y, aw);
    let d2 = spec_dist2(e, px, py);
    lemma_isqrt_exists(d2);
    let d = spec_isqrt(d2);
    assert(d < radius) by (nonlinear_arith)
        requires
            0 <= d,
            d * d <= d2,
            d2 < radius * radius,
            radius >= 1,
    ;
}

/// Post-frame reset: after a reactive update followed by a reset of the
/// same rectangle, every entity of the rectangle is back at the idle
/// intensity 0 (so its emitted emphasis is exactly the baseline 1/2), its
/// advanced rotation is kept, and every entity outside the rectangle is
/// exactly as it was before the frame.
pub proof fn lemma_post_frame_reset(
    g0: QuadGrid,
    g1: QuadGrid,
    g2: QuadGrid,
    rect: GridRect,
    px: int,
    py: int,
    radius: int,
    dt: int,
)
    requires
        g0.wf(),
        spec_updated_grid(g0, g1, rect, px, py, radius, dt),
        spec_reset_grid(g1, g2, rect),
    ensures
        g2.entities@.len() == g0.entities@.len(),
        forall|i: int|
            #![trigger g2.entities@[i]]
            0 <= i < g0.entities@.len() && index_in_rect(i, rect, g0.area_width as int)
                ==> g2.entities@[i].intensity == (Rat { num: 0, den: 1 })
                && g2.entities@[i].rotation == g1.entities@[i].rotation,
        forall|i: int|
            #![trigger g2.entities@[i]]
            0 <= i < g0.entities@.len() && !index_in_rect(i, rect, g0.area_width as int)
                ==> g2.entities@[i] == g0.entities@[i],
{
}

} // verus!
