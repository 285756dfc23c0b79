//! The partial upload engine: byte ranges for pushing only a rectangular
//! grid sub-range of per-quad vertex data to the GPU-resident buffer.
//!
//! Entity indices are row-major, so the entities of one row that lie in a
//! rectangle are contiguous in the backing array while separate rows are
//! not: the engine therefore emits exactly one byte range per affected row,
//! and never re-uploads the whole buffer.

use vstd::prelude::*;

use crate::grid::{GridRect, rect_wf};

verus! {

/// One contiguous byte range of the vertex buffer.
#[derive(Clone, Copy, Debug, PartialEq, Eq, Structural)]
pub struct UploadRange {
    pub offset: u64,
    pub len: u64,
}

/// The byte ranges to upload for a rectangular grid sub-range: one per row,
/// each starting at the row's first selected quad and covering exactly the
/// selected quads of that row.
pub fn row_upload_ranges(rect: GridRect, area_width: u32, bytes_per_quad: u64) -> (r: Vec<
    UploadRange>)
    requires
        rect_wf(rect, area_width as int),
        area_width <= 0x10000,
        1 <= bytes_per_quad <= 0x10000,
    ensures
        r@.len() == rect.y_end - rect.y_beg + 1,
        forall|k: int|
            #![trigger r@[k]]
            0 <= k < r@.len() ==> r@[k].offset == ((rect.y_beg + k) * (area_width as int)
                + rect.x_beg) * bytes_per_quad && r@[k].len == (rect.x_end - rect.x_beg + 1)
                * bytes_per_quad,
{
    proof {
        assert((rect.x_end - rect.x_beg + 1) * (bytes_per_quad as int) <= 0x10000 * 0x10000)
            by (nonlinear_arith)
            requires
                0 < rect.x_end - rect.x_beg + 1 <= 0x10000,
                1 <= bytes_per_quad <= 0x10000,
        ;
        assert((rect.x_end - rect.x_beg + 1) * (bytes_per_quad as int) >= 0) by (nonlinear_arith)
            requires
                0 < rect.x_end - rect.x_beg + 1,
                1 <= bytes_per_quad,
        ;
    }
    let mut r: Vec<UploadRange> = Vec::new();
    let count: u64 = (rect.x_end - rect.x_beg + 1) as u64;
    let len: u64 = count * bytes_per_quad;
    let mut y: u32 = rect.y_beg;
    while y <= rect.y_end
        invariant
            rect_wf(rect, area_width as int),
            area_width <= 0x10000,
            1 <= bytes_per_quad <= 0x10000,
            len == (rect.x_end - rect.x_beg + 1) * bytes_per_quad,
            rect.y_beg <= y <= rect.y_end + 1,
            r@.len() == y - rect.y_beg,
            forall|k: int|
                #![trigger r@[k]]
                0 <= k < r@.len() ==> r@[k].offset == ((rect.y_beg + k) * (area_width as int)
                    + rect.x_beg) * bytes_per_quad && r@[k].len == (rect.x_end - rect.x_beg + 1)
                    * bytes_per_quad,
        decreases rect.y_end + 1 - y,
    {
        proof {
            assert((y as int) * (area_width as int) <= 0x10000 * 0x10000) by (nonlinear_arith)
                requires
                    0 <= y as int,
                    y as int <= 0x10000,
                    0 <= area_width as int <= 0x10000,
            ;
            assert((y as int) * (area_width as int) >= 0) by (nonlinear_arith)
                requires
                    0 <= y as int,
                    0 <= area_width as int,
            ;
            assert(((y as int) * (area_width as int) + rect.x_beg) * (bytes_per_quad as int)
                <= 0x100010000 * 0x10000 && ((y as int) * (area_width as int) + rect.x_beg) * (
            bytes_per_quad as int) >= 0) by (nonlinear_arith)
                requires
                    0 <= (y as int) * (area_width as int) + rect.x_beg <= 0x100010000,
                    1 <= bytes_per_quad as int <= 0x10000,
            ;
        }
        let i_beg: u64 = (y as u64) * (area_width as u64) + (rect.x_beg as u64);
        let offset: u64 = i_beg * bytes_per_quad;
        r.push(UploadRange { offset, len });
        y = y + 1;
    }
    r
}

/// The per-row byte ranges never overlap: each row's range ends at or
/// before the next affected row's range begins.
pub proof fn lemma_upload_rows_disjoint(
    xb: int,
    xe: int,
    yb: int,
    k1: int,
    k2: int,
    aw: int,
    bpq: int,
) by (nonlinear_arith)
    requires
        0 <= xb <= xe < aw,
        0 <= yb,
        0 <= k1 < k2,
        bpq >= 1,
    ensures
        ((yb + k1) * aw + xb) * bpq + (xe - xb + 1) * bpq <= ((yb + k2) * aw + xb) * bpq,
{
}

} // verus!
