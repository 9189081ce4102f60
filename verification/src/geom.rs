//! Coordinate bounds and the arithmetic kernel shared by the shape geometry.
//!
//! Canvas coordinates are exact integers. Everything the engine stores is
//! kept inside `[-CANVAS_LIMIT, CANVAS_LIMIT]`, and pointer events are
//! admitted up to `COORD_MAX`, which leaves slack for the degenerate cases of
//! the proportional resize. Hit tests are decided exactly by comparing
//! cross-multiplied squares, so no square root or division is ever needed.

use vstd::prelude::*;

verus! {

/// Largest magnitude a stored canvas coordinate can have.
pub const CANVAS_LIMIT: i64 = 268435456;

/// Largest magnitude accepted for a pointer event in canvas space.
pub const COORD_MAX: i64 = 268435440;

/// Largest magnitude accepted for a pointer event in device space.
pub const DEVICE_MAX: i64 = 16777216;

pub open spec fn in_canvas(v: int) -> bool {
    -(CANVAS_LIMIT as int) <= v <= CANVAS_LIMIT as int
}

pub open spec fn event_coord(v: int) -> bool {
    -(COORD_MAX as int) <= v <= COORD_MAX as int
}

pub open spec fn spec_clamp_coord(v: int) -> int {
    if v < -(CANVAS_LIMIT as int) {
        -(CANVAS_LIMIT as int)
    } else if v > CANVAS_LIMIT as int {
        CANVAS_LIMIT as int
    } else {
        v
    }
}

/// Saturate a wide intermediate result back into the stored coordinate range.
pub fn clamp_coord(v: i128) -> (r: i64)
    ensures
        r == spec_clamp_coord(v as int),
{
    if v < -CANVAS_LIMIT as i128 {
        -CANVAS_LIMIT
    } else if v > CANVAS_LIMIT as i128 {
        CANVAS_LIMIT
    } else {
        v as i64
    }
}

pub open spec fn spec_min(a: int, b: int) -> int {
    if a <= b {
        a
    } else {
        b
    }
}

pub open spec fn spec_max(a: int, b: int) -> int {
    if a >= b {
        a
    } else {
        b
    }
}

pub fn min_i64(a: i64, b: i64) -> (r: i64)
    ensures
        r == spec_min(a as int, b as int),
{
    if a <= b {
        a
    } else {
        b
    }
}

pub fn max_i64(a: i64, b: i64) -> (r: i64)
    ensures
        r == spec_max(a as int, b as int),
{
    if a >= b {
        a
    } else {
        b
    }
}

pub open spec fn sq(v: int) -> int {
    v * v
}

/// Squared distance between two points.
pub open spec fn dist_sq(px: int, py: int, qx: int, qy: int) -> int {
    sq(px - qx) + sq(py - qy)
}

/// Whether the point `(px, py)` lies within `tol` of the segment from
/// `(ax, ay)` to `(bx, by)`: the perpendicular-projection test with the
/// parameter clamped to the segment, stated exactly over integers by
/// cross-multiplying the squared comparisons. A degenerate segment falls
/// back to the distance to its anchor point.
pub open spec fn spec_segment_hit(
    px: int,
    py: int,
    ax: int,
    ay: int,
    bx: int,
    by: int,
    tol: int,
) -> bool {
    let dx = bx - ax;
    let dy = by - ay;
    let len_sq = sq(dx) + sq(dy);
    if len_sq == 0 {
        dist_sq(px, py, ax, ay) <= sq(tol)
    } else {
        let dot = (px - ax) * dx + (py - ay) * dy;
        if dot <= 0 {
            dist_sq(px, py, ax, ay) <= sq(tol)
        } else if dot >= len_sq {
            dist_sq(px, py, bx, by) <= sq(tol)
        } else {
            let cross = (px - ax) * dy - (py - ay) * dx;
            sq(cross) <= sq(tol) * len_sq
        }
    }
}

/// Bounded factors give a bounded product.
pub proof fn lemma_mul_bound(a: int, b: int, m: int, n: int)
    by (nonlinear_arith)
    requires
        -m <= a <= m,
        -n <= b <= n,
        0 <= m,
        0 <= n,
    ensures
        -(m * n) <= a * b <= m * n,
{
}

/// A nonnegative factor keeps the order of its other factor.
pub proof fn lemma_mul_mono(a: int, b: int, c: int)
    by (nonlinear_arith)
    requires
        0 <= a,
        b <= c,
    ensures
        a * b <= a * c,
{
}

/// Decide `spec_segment_hit` exactly. The intermediate products stay below
/// two to the 121st power for canvas-sized inputs, so `i128` arithmetic never
/// overflows.
pub fn segment_hit(px: i64, py: i64, ax: i64, ay: i64, bx: i64, by: i64, tol: i64) -> (r: bool)
    requires
        in_canvas(px as int),
        in_canvas(py as int),
        in_canvas(ax as int),
        in_canvas(ay as int),
        in_canvas(bx as int),
        in_canvas(by as int),
        0 <= tol <= CANVAS_LIMIT as int,
    ensures
        r == spec_segment_hit(px as int, py as int, ax as int, ay as int, bx as int, by as int, tol as int),
{
    let ux: i128 = px as i128 - ax as i128;
    let uy: i128 = py as i128 - ay as i128;
    let dx: i128 = bx as i128 - ax as i128;
    let dy: i128 = by as i128 - ay as i128;
    proof {
        lemma_mul_bound(dx as int, dx as int, 0x2000_0000, 0x2000_0000);
        lemma_mul_bound(dy as int, dy as int, 0x2000_0000, 0x2000_0000);
        lemma_mul_bound(ux as int, ux as int, 0x2000_0000, 0x2000_0000);
        lemma_mul_bound(uy as int, uy as int, 0x2000_0000, 0x2000_0000);
        lemma_mul_bound(ux as int, dx as int, 0x2000_0000, 0x2000_0000);
        lemma_mul_bound(uy as int, dy as int, 0x2000_0000, 0x2000_0000);
        lemma_mul_bound(ux as int, dy as int, 0x2000_0000, 0x2000_0000);
        lemma_mul_bound(uy as int, dx as int, 0x2000_0000, 0x2000_0000);
        lemma_mul_bound(tol as int, tol as int, 0x2000_0000, 0x2000_0000);
    }
    let tol_sq: i128 = tol as i128 * tol as i128;
    let len_sq: i128 = dx * dx + dy * dy;
    if len_sq == 0 {
        ux * ux + uy * uy <= tol_sq
    } else {
        let dot: i128 = ux * dx + uy * dy;
        if dot <= 0 {
            ux * ux + uy * uy <= tol_sq
        } else if dot >= len_sq {
            let vx: i128 = px as i128 - bx as i128;
            let vy: i128 = py as i128 - by as i128;
            proof {
                lemma_mul_bound(vx as int, vx as int, 0x2000_0000, 0x2000_0000);
                lemma_mul_bound(vy as int, vy as int, 0x2000_0000, 0x2000_0000);
            }
            vx * vx + vy * vy <= tol_sq
        } else {
            let cross: i128 = ux * dy - uy * dx;
            proof {
                lemma_mul_bound(cross as int, cross as int, 0x8000_0000_0000_0000, 0x8000_0000_0000_0000);
                lemma_mul_bound(tol_sq as int, len_sq as int, 0x4000_0000_0000_0000, 0x8000_0000_0000_0000);
            }
            cross * cross <= tol_sq * len_sq
        }
    }
}

} // verus!
