//! The grid-generation driver: where each cell samples the continuous domain,
//! and how a field of sampled heights becomes a symbol grid.
//!
//! Evaluating the noise function itself is the caller's part; the driver fixes
//! the sample coordinate of every cell, and turns the heights the caller hands
//! back into symbols, cell by cell.

use vstd::prelude::*;
use crate::config::GridConfig;
use crate::config::SampleTransform;
use crate::grid::HeightGrid;
use crate::grid::SymbolGrid;
use crate::grid::cell_index;
use crate::grid::lemma_cell_index_in_range;
use crate::mapper::QuantizationPolicy;

verus! {

/// The continuous coordinate a cell samples along one axis:
/// `cell * distance + offset`, in millionths.
pub open spec fn sample_coord_spec(cell: int, distance: int, offset: int) -> int {
    cell * distance + offset
}

/// A sample coordinate of a 32-bit cell index with 64-bit fixed-point
/// parameters stays far inside the 128-bit range.
proof fn lemma_sample_coord_fits(cell: int, distance: int, offset: int)
    by (nonlinear_arith)
    requires
        0 <= cell < 0x100000000,
        -0x8000000000000000 <= distance <= 0x7FFFFFFFFFFFFFFF,
        -0x8000000000000000 <= offset <= 0x7FFFFFFFFFFFFFFF,
    ensures
        i128::MIN <= cell * distance <= i128::MAX,
        i128::MIN <= sample_coord_spec(cell, distance, offset) <= i128::MAX,
{
}

/// The continuous point the cell `(x, y)` samples under a transform.
pub fn sample_point(t: &SampleTransform, x: u32, y: u32) -> (r: (i128, i128))
    ensures
        r.0 as int == sample_coord_spec(x as int, t.distance as int, t.offset_x as int),
        r.1 as int == sample_coord_spec(y as int, t.distance as int, t.offset_y as int),
{
    proof {
        lemma_sample_coord_fits(x as int, t.distance as int, t.offset_x as int);
        lemma_sample_coord_fits(y as int, t.distance as int, t.offset_y as int);
    }
    let sx: i128 = (x as i128) * (t.distance as i128) + (t.offset_x as i128);
    let sy: i128 = (y as i128) * (t.distance as i128) + (t.offset_y as i128);
    (sx, sy)
}

/// The sample coordinates of every cell of a grid, row-major: the points at
/// which the caller evaluates the noise function, in the order the heights are
/// handed back.
pub fn sample_points(grid: &GridConfig, t: &SampleTransform) -> (r: Vec<(i128, i128)>)
    ensures
        r@.len() == grid.area(),
        forall|x: int, y: int|
            0 <= x < grid.width && 0 <= y < grid.height ==> {
                &&& (#[trigger] r@[cell_index(x, y, grid.width as int)]).0 as int
                    == sample_coord_spec(x, t.distance as int, t.offset_x as int)
                &&& r@[cell_index(x, y, grid.width as int)].1 as int == sample_coord_spec(
                    y,
                    t.distance as int,
                    t.offset_y as int,
                )
            },
{
    let w = grid.width;
    let h = grid.height;
    let mut out: Vec<(i128, i128)> = Vec::new();
    let mut y: u32 = 0;
    while y < h
        invariant
            w == grid.width,
            h == grid.height,
            y <= h,
            out@.len() == y * w,
            forall|xx: int, yy: int|
                0 <= xx < w && 0 <= yy < y ==> {
                    &&& (#[trigger] out@[cell_index(xx, yy, w as int)]).0 as int
                        == sample_coord_spec(xx, t.distance as int, t.offset_x as int)
                    &&& out@[cell_index(xx, yy, w as int)].1 as int == sample_coord_spec(
                        yy,
                        t.distance as int,
                        t.offset_y as int,
                    )
                },
        decreases h - y,
    {
        let mut x: u32 = 0;
        while x < w
            invariant
                w == grid.width,
                h == grid.height,
                y < h,
                x <= w,
                out@.len() == y * w + x,
                forall|xx: int, yy: int|
                    0 <= xx < w && 0 <= yy < y ==> {
                        &&& (#[trigger] out@[cell_index(xx, yy, w as int)]).0 as int
                            == sample_coord_spec(xx, t.distance as int, t.offset_x as int)
                        &&& out@[cell_index(xx, yy, w as int)].1 as int == sample_coord_spec(
                            yy,
                            t.distance as int,
                            t.offset_y as int,
                        )
                    },
                forall|xx: int|
                    0 <= xx < x ==> {
                        &&& (#[trigger] out@[cell_index(xx, y as int, w as int)]).0 as int
                            == sample_coord_spec(xx, t.distance as int, t.offset_x as int)
                        &&& out@[cell_index(xx, y as int, w as int)].1 as int == sample_coord_spec(
                            y as int,
                            t.distance as int,
                            t.offset_y as int,
                        )
                    },
            decreases w - x,
        {
            let p = sample_point(t, x, y);
            out.push(p);
            proof {
                assert forall|xx: int, yy: int| 0 <= xx < w && 0 <= yy < y implies {
                    &&& (#[trigger] out@[cell_index(xx, yy, w as int)]).0 as int
                        == sample_coord_spec(xx, t.distance as int, t.offset_x as int)
                    &&& out@[cell_index(xx, yy, w as int)].1 as int == sample_coord_spec(
                        yy,
                        t.distance as int,
                        t.offset_y as int,
                    )
                } by {
                    lemma_cell_index_in_range(xx, yy, w as int, y as int);
                    assert(cell_index(xx, yy, w as int) < y * w);
                }
                assert forall|xx: int| 0 <= xx < x + 1 implies {
                    &&& (#[trigger] out@[cell_index(xx, y as int, w as int)]).0 as int
                        == sample_coord_spec(xx, t.distance as int, t.offset_x as int)
                    &&& out@[cell_index(xx, y as int, w as int)].1 as int == sample_coord_spec(
                        y as int,
                        t.distance as int,
                        t.offset_y as int,
                    )
                } by {
                    assert(cell_index(xx, y as int, w as int) == y * w + xx);
                }
            }
            x += 1;
        }
        proof {
            assert(y * w + w == (y + 1) * w) by (nonlinear_arith);
        }
        y += 1;
    }
    proof {
        assert(out@.len() == h * w);
        assert((h as int) * (w as int) == (w as int) * (h as int)) by (nonlinear_arith);
    }
    out
}

/// Recomputes the whole symbol grid from a height field: every cell's height
/// is quantized under the policy and stored at the same coordinate. The output
/// shape equals the height field's shape, and the result is a function of the
/// inputs alone.
pub fn regenerate(heights: &HeightGrid, policy: &QuantizationPolicy) -> (r: SymbolGrid)
    requires
        heights.wf(),
    ensures
        r.wf(),
        r.width == heights.width,
        r.height == heights.height,
        r.cells@.len() == heights.cells@.len(),
        forall|i: int|
            0 <= i < r.cells@.len() ==> r.cells@[i] == policy.quantize_spec(heights.cells@[i]),
        forall|x: int, y: int|
            0 <= x < r.width && 0 <= y < r.height ==> #[trigger] r.cell(x, y)
                == policy.quantize_spec(heights.cell(x, y)),
{
    let n = heights.cells.len();
    let mut cells: Vec<u8> = Vec::new();
    let mut i: usize = 0;
    while i < n
        invariant
            n == heights.cells@.len(),
            i <= n,
            cells@.len() == i,
            forall|j: int|
                0 <= j < i ==> cells@[j] == policy.quantize_spec(heights.cells@[j]),
        decreases n - i,
    {
        let s = policy.quantize(heights.cells[i]);
        cells.push(s);
        i += 1;
    }
    let r = SymbolGrid { width: heights.width, height: heights.height, cells };
    proof {
        assert forall|x: int, y: int| 0 <= x < r.width && 0 <= y < r.height implies #[trigger] r
            .cell(x, y) == policy.quantize_spec(heights.cell(x, y)) by {
            lemma_cell_index_in_range(x, y, r.width as int, r.height as int);
        }
    }
    r
}

/// The symbol shown for a coordinate of a height field: zero outside the grid,
/// the quantized height inside it.
pub fn grayscale_at(heights: &HeightGrid, policy: &QuantizationPolicy, x: i32, y: i32) -> (r: u8)
    requires
        heights.wf(),
    ensures
        0 <= x < heights.width && 0 <= y < heights.height ==> r == policy.quantize_spec(
            heights.cell(x as int, y as int),
        ),
        !(0 <= x < heights.width && 0 <= y < heights.height) ==> r == 0,
{
    match heights.get_height_at(x, y) {
        Some(h) => policy.quantize(h),
        None => 0,
    }
}

/// Idempotence of regeneration: two symbol grids recomputed from the same
/// height field under the same policy are the same grid, cell for cell.
pub proof fn lemma_regenerate_idempotent(
    heights: HeightGrid,
    policy: QuantizationPolicy,
    a: SymbolGrid,
    b: SymbolGrid,
)
    requires
        a.width == heights.width,
        a.height == heights.height,
        a.cells@.len() == heights.cells@.len(),
        forall|i: int|
            0 <= i < a.cells@.len() ==> a.cells@[i] == policy.quantize_spec(heights.cells@[i]),
        b.width == heights.width,
        b.height == heights.height,
        b.cells@.len() == heights.cells@.len(),
        forall|i: int|
            0 <= i < b.cells@.len() ==> b.cells@[i] == policy.quantize_spec(heights.cells@[i]),
    ensures
        a.width == b.width,
        a.height == b.height,
        a.cells@ == b.cells@,
{
    assert(a.cells@ =~= b.cells@);
}

} // verus!
