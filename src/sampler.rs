use vstd::prelude::*;
use vstd::arithmetic::div_mod::{lemma_fundamental_div_mod, lemma_fundamental_div_mod_converse};
use crate::gradient::{bucket_gradient, corner_gradient, Gradient};
use crate::table::PermutationTable;

verus! {

/// Where a grid coordinate falls in the noise lattice.
///
/// The coordinate `(x, y)` scaled by `1 / chunk_size` lies in the cell whose
/// corners have lattice columns `x_left`, `x_right` and rows `y_top`,
/// `y_bottom` (each wrapped into `0..256`), at the fractional position
/// `(x_offset / chunk_size, y_offset / chunk_size)` inside it.
#[derive(Debug, Clone, Copy, PartialEq, Eq, Structural)]
pub struct LatticeCell {
    pub x_left: usize,
    pub x_right: usize,
    pub y_top: usize,
    pub y_bottom: usize,
    pub x_offset: u32,
    pub y_offset: u32,
    pub chunk_size: u32,
}

/// One corner of a cell: its table value, the gradient that value selects,
/// and the corner's influence on the query point.
///
/// The influence is the dot product of the gradient with the displacement
/// from the corner to the point, in units of `1 / chunk_size` and before
/// the gradient's length: the real dot product is `influence / chunk_size`,
/// times `1/sqrt(2)` when the gradient is short.
#[derive(Debug, Clone, Copy, PartialEq, Eq, Structural)]
pub struct Corner {
    pub value: usize,
    pub gradient: Gradient,
    pub influence: i64,
}

/// Everything about a coordinate that the final blend needs.
#[derive(Debug, Clone, Copy, PartialEq, Eq, Structural)]
pub struct CellSample {
    pub cell: LatticeCell,
    pub top_left: Corner,
    pub top_right: Corner,
    pub bottom_right: Corner,
    pub bottom_left: Corner,
}

/// The lattice cell of `(x, y)` at chunk size `c`.
pub open spec fn cell_of(x: int, y: int, c: int) -> LatticeCell {
    let left = (x / c) % 256;
    let top = (y / c) % 256;
    LatticeCell {
        x_left: left as usize,
        x_right: ((left + 1) % 256) as usize,
        y_top: top as usize,
        y_bottom: ((top + 1) % 256) as usize,
        x_offset: (x % c) as u32,
        y_offset: (y % c) as u32,
        chunk_size: c as u32,
    }
}

/// The two-stage permutation hash of lattice corner `(cx, cy)`.
pub open spec fn corner_hash(t: Seq<usize>, cx: int, cy: int) -> usize {
    t[t[cx] + cy]
}

/// The corner with table value `v` seen from displacement `(dx, dy)`.
pub open spec fn corner_of(v: usize, dx: int, dy: int) -> Corner {
    Corner {
        value: v,
        gradient: bucket_gradient(v as int % 8),
        influence: bucket_gradient(v as int % 8).signed_sum(dx, dy) as i64,
    }
}

/// The four corners of the cell of `(x, y)` under table `t` at chunk size `c`.
pub open spec fn cell_sample_of(t: Seq<usize>, x: int, y: int, c: int) -> CellSample {
    let cell = cell_of(x, y, c);
    let ox = cell.x_offset as int;
    let oy = cell.y_offset as int;
    CellSample {
        cell,
        top_left: corner_of(corner_hash(t, cell.x_left as int, cell.y_top as int), -ox, -oy),
        top_right: corner_of(corner_hash(t, cell.x_right as int, cell.y_top as int), c - ox, -oy),
        bottom_right: corner_of(
            corner_hash(t, cell.x_right as int, cell.y_bottom as int),
            c - ox,
            c - oy,
        ),
        bottom_left: corner_of(
            corner_hash(t, cell.x_left as int, cell.y_bottom as int),
            -ox,
            c - oy,
        ),
    }
}

/// Locates `(x, y)` in the lattice at chunk size `chunk_size`.
pub fn lattice_cell(x: u32, y: u32, chunk_size: u32) -> (r: LatticeCell)
    requires
        chunk_size > 0,
    ensures
        r == cell_of(x as int, y as int, chunk_size as int),
{
    let x_cell: u32 = x / chunk_size;
    let y_cell: u32 = y / chunk_size;
    let x_left: u32 = x_cell & 255;
    let y_top: u32 = y_cell & 255;
    assert(x_cell & 255 == x_cell % 256) by (bit_vector);
    assert(y_cell & 255 == y_cell % 256) by (bit_vector);
    let x_next: u32 = x_left + 1;
    let y_next: u32 = y_top + 1;
    let x_right: u32 = x_next & 255;
    let y_bottom: u32 = y_next & 255;
    assert(x_next & 255 == x_next % 256) by (bit_vector);
    assert(y_next & 255 == y_next % 256) by (bit_vector);
    LatticeCell {
        x_left: x_left as usize,
        x_right: x_right as usize,
        y_top: y_top as usize,
        y_bottom: y_bottom as usize,
        x_offset: x % chunk_size,
        y_offset: y % chunk_size,
        chunk_size,
    }
}

/// The gradient's signed sum over a displacement, as `signed_sum` states it.
fn signed_sum(g: Gradient, dx: i64, dy: i64) -> (r: i64)
    requires
        g.wf(),
        -0x1_0000_0000 <= dx <= 0x1_0000_0000,
        -0x1_0000_0000 <= dy <= 0x1_0000_0000,
    ensures
        r == g.signed_sum(dx as int, dy as int),
{
    let sx: i64 = if g.x_sign == 1 {
        dx
    } else {
        -dx
    };
    let sy: i64 = if g.y_sign == 1 {
        dy
    } else {
        -dy
    };
    sx + sy
}

/// The corner whose table value is `value`, seen from `(dx, dy)`.
fn corner(value: usize, dx: i64, dy: i64) -> (r: Corner)
    requires
        -0x1_0000_0000 <= dx <= 0x1_0000_0000,
        -0x1_0000_0000 <= dy <= 0x1_0000_0000,
    ensures
        r == corner_of(value, dx as int, dy as int),
{
    let gradient = corner_gradient(value);
    Corner { value, gradient, influence: signed_sum(gradient, dx, dy) }
}

/// Locates `(x, y)` in the lattice, hashes its four corners through the
/// table, and works out each corner's gradient and influence.
pub fn cell_at_coordinates(x: u32, y: u32, table: &PermutationTable, chunk_size: u32) -> (r:
    CellSample)
    requires
        table.wf(),
        chunk_size > 0,
    ensures
        r == cell_sample_of(table@, x as int, y as int, chunk_size as int),
{
    proof {
        table.lemma_wf();
    }
    let cell = lattice_cell(x, y, chunk_size);
    let top_left = table.get(table.get(cell.x_left) + cell.y_top);
    let top_right = table.get(table.get(cell.x_right) + cell.y_top);
    let bottom_right = table.get(table.get(cell.x_right) + cell.y_bottom);
    let bottom_left = table.get(table.get(cell.x_left) + cell.y_bottom);
    let c = chunk_size as i64;
    let ox = cell.x_offset as i64;
    let oy = cell.y_offset as i64;
    CellSample {
        cell,
        top_left: corner(top_left, -ox, -oy),
        top_right: corner(top_right, c - ox, -oy),
        bottom_right: corner(bottom_right, c - ox, c - oy),
        bottom_left: corner(bottom_left, -ox, c - oy),
    }
}

/// Shifting a coordinate by whole cells: `x + k * c` lies `k` cells further on,
/// at the same offset.
proof fn lemma_shift_cells(x: int, c: int, k: int)
    requires
        c > 0,
    ensures
        (x + k * c) / c == x / c + k,
        (x + k * c) % c == x % c,
{
    lemma_fundamental_div_mod(x, c);
    assert(x + k * c == (x / c + k) * c + x % c) by (nonlinear_arith)
        requires
            x == c * (x / c) + x % c,
    ;
    lemma_fundamental_div_mod_converse(x + k * c, c, x / c + k, x % c);
}

/// The first coordinate of the cell after the one that holds `x`.
proof fn lemma_next_cell_start(x: int, c: int)
    requires
        c > 0,
    ensures
        ((x / c + 1) * c) / c == x / c + 1,
        ((x / c + 1) * c) % c == 0,
{
    lemma_fundamental_div_mod_converse((x / c + 1) * c, c, x / c + 1, 0);
}

/// The lattice repeats every 256 chunks along each axis: shifting `x` or `y`
/// by `256 * c` gives the same cell, offsets, corner values, gradients and
/// influences.
pub proof fn lemma_lattice_periodic(t: Seq<usize>, x: int, y: int, c: int)
    requires
        c > 0,
    ensures
        cell_sample_of(t, x + 256 * c, y, c) == cell_sample_of(t, x, y, c),
        cell_sample_of(t, x, y + 256 * c, c) == cell_sample_of(t, x, y, c),
{
    lemma_shift_cells(x, c, 256);
    lemma_shift_cells(y, c, 256);
}

/// Across a vertical cell edge the lattice agrees with itself: the first
/// column of the next cell is this cell's right column, its left corners are
/// this cell's right corners, and their influence there equals what this
/// cell's right corners give at horizontal fraction 1.
pub proof fn lemma_shared_vertical_edge(t: Seq<usize>, x: int, y: int, c: int)
    requires
        0 <= x,
        0 <= y,
        0 < c <= u32::MAX,
    ensures
        ({
            let here = cell_sample_of(t, x, y, c);
            let next = cell_sample_of(t, (x / c + 1) * c, y, c);
            let oy = here.cell.y_offset as int;
            &&& next.cell.x_left == here.cell.x_right
            &&& next.cell.x_offset == 0
            &&& next.top_left.value == here.top_right.value
            &&& next.bottom_left.value == here.bottom_right.value
            &&& next.top_left.influence == here.top_right.gradient.signed_sum(0, -oy)
            &&& next.bottom_left.influence == here.bottom_right.gradient.signed_sum(0, c - oy)
        }),
{
    lemma_next_cell_start(x, c);
    lemma_fundamental_div_mod(y, c);
}

/// Across a horizontal cell edge the lattice agrees with itself: the first
/// row of the next cell is this cell's bottom row, its top corners are this
/// cell's bottom corners, and their influence there equals what this cell's
/// bottom corners give at vertical fraction 1.
pub proof fn lemma_shared_horizontal_edge(t: Seq<usize>, x: int, y: int, c: int)
    requires
        0 <= x,
        0 <= y,
        0 < c <= u32::MAX,
    ensures
        ({
            let here = cell_sample_of(t, x, y, c);
            let next = cell_sample_of(t, x, (y / c + 1) * c, c);
            let ox = here.cell.x_offset as int;
            &&& next.cell.y_top == here.cell.y_bottom
            &&& next.cell.y_offset == 0
            &&& next.top_left.value == here.bottom_left.value
            &&& next.top_right.value == here.bottom_right.value
            &&& next.top_left.influence == here.bottom_left.gradient.signed_sum(-ox, 0)
            &&& next.top_right.influence == here.bottom_right.gradient.signed_sum(c - ox, 0)
        }),
{
    lemma_next_cell_start(y, c);
    lemma_fundamental_div_mod(x, c);
}

} // verus!
