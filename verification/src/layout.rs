//! Where the fixed panels and the members of each on-screen collection
//! sit, as pure functions of the view context, an index, and a
//! precomputed widget size.
//!
//! Siblings are separated by a uniform 1.1 gap multiplier; grid-like
//! collections lay out left to right and wrap after a fixed column count
//! (14 columns for stored units, 10 for stored equipment and for move
//! options).

use vstd::prelude::*;
use crate::geom::{V2, bounded, lemma_mul_abs_le, lemma_mul_le, COORD_BOUND};
use crate::view::ViewCtx;
use crate::COORD_ONE;

verus! {

/// Square size of a character cell of ordinary interface text.
pub const TEXT_SIZE: i64 = 960;

/// Sizes handed to layout arithmetic stay under this bound, which keeps
/// every product with a list index inside `i64`.
pub const SIZE_BOUND: i64 = 0x8000;

/// Longest collection the layout arithmetic is asked to place.
pub const IDX_BOUND: i64 = 1024;

/// A size grown by the uniform 1.1 sibling gap multiplier.
pub fn gap(x: i64) -> (r: i64)
    requires
        0 <= x <= SIZE_BOUND,
    ensures
        r == x * 11 / 10,
        0 <= r <= 2 * SIZE_BOUND,
{
    x * 11 / 10
}

/// Where team member `i` of `len` stands: the row is centered under the
/// origin, one body width apart plus the sibling gap.
pub fn team_unit_pos(len: usize, i: usize, size: V2) -> (r: V2)
    requires
        i < len,
        len <= IDX_BOUND,
        0 <= size.x <= 7200,
        0 <= size.y <= 7200,
    ensures
        r.x == -((len as int * size.x) / 2) - size.x / 10 + (i as int) * size.x * 11 / 10,
        r.y == -4800 - size.y,
        bounded(r, 0x100_0000),
{
    proof {
        lemma_mul_le(len as int, IDX_BOUND as int, size.x as int, 7200);
        lemma_mul_le(i as int, IDX_BOUND as int, size.x as int, 7200);
    }
    let half: i64 = (len as i64 * size.x) / 2;
    V2 { x: -half - size.x / 10 + (i as i64) * size.x * 11 / 10, y:-4800 - size.y }
}

/// Where opponent unit `i` of `len` stands: the same centered row, above
/// the origin.
pub fn opponent_unit_pos(len: usize, i: usize, size: V2) -> (r: V2)
    requires
        i < len,
        len <= IDX_BOUND,
        0 <= size.x <= 7200,
        0 <= size.y <= 7200,
    ensures
        r.x == -((len as int * size.x) / 2) - size.x / 10 + (i as int) * size.x * 11 / 10,
        r.y == 4800,
        bounded(r, 0x100_0000),
{
    proof {
        lemma_mul_le(len as int, IDX_BOUND as int, size.x as int, 7200);
        lemma_mul_le(i as int, IDX_BOUND as int, size.x as int, 7200);
    }
    let half: i64 = (len as i64 * size.x) / 2;
    V2 { x: -half - size.x / 10 + (i as i64) * size.x * 11 / 10, y:4800 }
}

/// Where stored unit `i` sits inside the unit-storage panel: a grid
/// wrapping after 14 columns, filled top row first.
pub fn storage_unit_pos(i: usize, size: V2) -> (r: V2)
    requires
        i < IDX_BOUND,
        0 <= size.x <= 7200,
        0 <= size.y <= 7200,
    ensures
        r.x == (i as int % 14) * (size.x * 11 / 10) + size.x / 20,
        r.y == (6 - i as int / 14) * (size.y * 11 / 10) + size.y / 20,
        bounded(r, 0x40_0000),
{
    let col: i64 = (i as i64) % 14;
    let row: i64 = (i as i64) / 14;
    let gx = gap(size.x);
    let gy = gap(size.y);
    proof {
        lemma_mul_le(col as int, 13, gx as int, 7920);
        lemma_mul_abs_le(6 - row, 74, gy as int, 7920);
    }
    V2 { x: col * gx + size.x / 20, y: (6 - row) * gy + size.y / 20 }
}

/// The per-mille scale stored units are drawn at: a fifth of full size.
pub fn storage_unit_scale() -> (r: V2)
    ensures
        r == (V2 { x: 200, y: 200 }),
{
    V2 { x: 200, y: 200 }
}

/// Extent of the unit-storage panel: a 14 by 7 grid of scaled unit cells
/// with the sibling gap.
pub fn unit_storage_box_size() -> (r: V2)
    ensures
        r.x == 960 * 14 * 11 / 10,
        r.y == 1440 * 7 * 11 / 10,
{
    V2 { x: 960 * 14 * 11 / 10, y: 1440 * 7 * 11 / 10 }
}

/// Lower-left corner of the unit-storage panel: pinned one text cell in
/// from the top-left of the visible area.
pub fn unit_storage_box_pos(ctx: ViewCtx) -> (r: V2)
    requires
        ctx.wf(),
    ensures
        r.x == -ctx.aspect + TEXT_SIZE,
        r.y == COORD_ONE - TEXT_SIZE - 1440 * 7 * 11 / 10,
        bounded(r, 0x4_0000),
{
    let size = unit_storage_box_size();
    V2 { x: ctx.left_edge() + TEXT_SIZE, y: ctx.top_edge() - TEXT_SIZE - size.y }
}

/// The per-mille scale stored equipment is drawn at.
pub fn equip_scale() -> (r: V2)
    ensures
        r == (V2 { x: 400, y: 400 }),
{
    V2 { x: 400, y: 400 }
}

/// One cell of an equipment-storage grid: an empty slot at the storage
/// scale.
pub fn equip_box_thing_size() -> (r: V2)
    ensures
        r == (V2 { x: 1280, y: 1280 }),
{
    V2 { x: 1280, y: 1280 }
}

/// Where stored equipment `i` sits inside an equipment panel: a grid
/// wrapping after 10 columns, filled top row first.
pub fn equip_pos(i: usize) -> (r: V2)
    requires
        i < IDX_BOUND,
    ensures
        r.x == (i as int % 10) * 1280 + 64,
        r.y == (9 - i as int / 10) * 1280 + 64,
        bounded(r, 0x2_0000),
{
    let col: i64 = (i as i64) % 10;
    let row: i64 = (i as i64) / 10;
    V2 { x: col * 1280 + 64, y: (9 - row) * 1280 + 64 }
}

/// Extent of an equipment panel: ten cells plus a tenth of one.
pub fn equip_box_size() -> (r: V2)
    ensures
        r == (V2 { x: 12928, y: 12928 }),
{
    let cell = equip_box_thing_size();
    V2 { x: cell.x * 101 / 10, y: cell.y * 101 / 10 }
}

/// Lower-left corner of the safe-zone equipment panel: pinned to the
/// top-right of the visible area.
pub fn safe_equip_box_pos(ctx: ViewCtx) -> (r: V2)
    requires
        ctx.wf(),
    ensures
        r.x == ctx.aspect - TEXT_SIZE - 12928,
        r.y == COORD_ONE - TEXT_SIZE - 12928,
        bounded(r, 0x4_0000),
{
    let size = equip_box_size();
    V2 { x: ctx.right_edge() - TEXT_SIZE - size.x, y: ctx.top_edge() - TEXT_SIZE - size.y }
}

/// Lower-left corner of the carried equipment panel: pinned to the
/// bottom-right of the visible area.
pub fn equip_box_pos(ctx: ViewCtx) -> (r: V2)
    requires
        ctx.wf(),
    ensures
        r.x == ctx.aspect - TEXT_SIZE - 12928,
        r.y == -COORD_ONE + TEXT_SIZE,
        bounded(r, 0x4_0000),
{
    let size = equip_box_size();
    V2 { x: ctx.right_edge() - TEXT_SIZE - size.x, y: ctx.bottom_edge() + TEXT_SIZE }
}

} // verus!
