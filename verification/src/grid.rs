//! Dense row-major grids: the height field handed in by the sampler and the
//! symbol grid the engine produces, with the textual flattening of the latter.

use vstd::prelude::*;
use vstd::arithmetic::div_mod::lemma_fundamental_div_mod_converse;

verus! {

/// Row-major position of the cell `(x, y)` in a grid of the given width.
pub open spec fn cell_index(x: int, y: int, width: int) -> int {
    y * width + x
}

/// A row-major position lies inside the cell array, whichever way the area is
/// written.
pub proof fn lemma_cell_index_in_range(x: int, y: int, w: int, h: int)
    by (nonlinear_arith)
    requires
        0 <= x < w,
        0 <= y < h,
    ensures
        0 <= cell_index(x, y, w),
        cell_index(x, y, w) < w * h,
        cell_index(x, y, w) < h * w,
{
}

/// A dense grid of fixed-point heights, one per cell, row-major.
#[derive(Clone, Debug, PartialEq, Eq)]
pub struct HeightGrid {
    pub width: u32,
    pub height: u32,
    pub cells: Vec<i64>,
}

impl HeightGrid {
    /// The cell array holds exactly one height per cell of the declared shape.
    pub open spec fn wf(&self) -> bool {
        self.cells@.len() == self.width * self.height
    }

    /// The height stored at `(x, y)`.
    pub open spec fn cell(&self, x: int, y: int) -> i64 {
        self.cells@[cell_index(x, y, self.width as int)]
    }

    /// Builds a height grid from a row-major cell array, accepting exactly the
    /// arrays whose length matches the declared shape.
    pub fn new(width: u32, height: u32, cells: Vec<i64>) -> (r: Option<HeightGrid>)
        ensures
            r is Some <==> cells@.len() == width * height,
            r matches Some(g) ==> g.width == width && g.height == height && g.cells@ == cells@
                && g.wf(),
    {
        proof {
            assert((width as int) * (height as int) <= 0xFFFFFFFFint * 0xFFFFFFFFint)
                by (nonlinear_arith)
                requires
                    width <= 0xFFFFFFFFu32,
                    height <= 0xFFFFFFFFu32,
            ;
        }
        let n = cells.len();
        if (n as u64) == (width as u64) * (height as u64) {
            Some(HeightGrid { width, height, cells })
        } else {
            None
        }
    }

    /// The height at a coordinate, or nothing when the coordinate lies outside
    /// the grid (negative coordinates included).
    pub fn get_height_at(&self, x: i32, y: i32) -> (r: Option<i64>)
        requires
            self.wf(),
        ensures
            0 <= x < self.width && 0 <= y < self.height ==> r == Some(
                self.cell(x as int, y as int),
            ),
            !(0 <= x < self.width && 0 <= y < self.height) ==> r is None,
    {
        if x >= 0 && y >= 0 && (x as u32) < self.width && (y as u32) < self.height {
            let _n = self.cells.len();
            proof {
                lemma_cell_index_in_range(
                    x as int,
                    y as int,
                    self.width as int,
                    self.height as int,
                );
            }
            let idx: usize = (y as usize) * (self.width as usize) + (x as usize);
            Some(self.cells[idx])
        } else {
            None
        }
    }
}

/// A dense grid of palette symbols, one byte per cell, row-major: the engine's
/// output.
#[derive(Clone, Debug, PartialEq, Eq)]
pub struct SymbolGrid {
    pub width: u32,
    pub height: u32,
    pub cells: Vec<u8>,
}

impl SymbolGrid {
    /// The cell array holds exactly one symbol per cell of the declared shape.
    pub open spec fn wf(&self) -> bool {
        self.cells@.len() == self.width * self.height
    }

    /// The symbol stored at `(x, y)`.
    pub open spec fn cell(&self, x: int, y: int) -> u8 {
        self.cells@[cell_index(x, y, self.width as int)]
    }

    /// Reads the symbol at an in-bounds coordinate.
    pub fn get(&self, x: u32, y: u32) -> (r: u8)
        requires
            self.wf(),
            x < self.width,
            y < self.height,
        ensures
            r == self.cell(x as int, y as int),
    {
        let _n = self.cells.len();
        proof {
            lemma_cell_index_in_range(x as int, y as int, self.width as int, self.height as int);
        }
        let idx: usize = (y as usize) * (self.width as usize) + (x as usize);
        self.cells[idx]
    }

    /// The grid flattened to text: the rows in order, each row's symbols left
    /// to right, each row closed by one line-break byte and nothing between
    /// symbols.
    pub open spec fn render_spec(&self) -> Seq<u8> {
        let stride = self.width + 1;
        Seq::new(
            (self.height * stride) as nat,
            |k: int|
                if k % (stride as int) < self.width {
                    self.cell(k % (stride as int), k / (stride as int))
                } else {
                    10u8
                },
        )
    }

    /// Flattens the grid to text bytes, row-major with one line break after
    /// each row.
    pub fn render_bytes(&self) -> (r: Vec<u8>)
        requires
            self.wf(),
        ensures
            r@ == self.render_spec(),
            r@.len() == self.height * (self.width + 1),
    {
        let w = self.width;
        let h = self.height;
        let ghost stride: int = w as int + 1;
        let mut out: Vec<u8> = Vec::new();
        let mut y: u32 = 0;
        while y < h
            invariant
                self.wf(),
                w == self.width,
                h == self.height,
                y <= h,
                out@ == self.render_spec().take(y * stride),
                stride == w as int + 1,
            decreases h - y,
        {
            let mut x: u32 = 0;
            while x < w
                invariant
                    self.wf(),
                    w == self.width,
                    h == self.height,
                    y < h,
                    x <= w,
                    out@ == self.render_spec().take(y * stride + x),
                    stride == w as int + 1,
                decreases w - x,
            {
                let s = self.get(x, y);
                proof {
                    let k = y * stride + x;
                    lemma_cell_index_in_range(x as int, y as int, stride, h as int);
                    assert(cell_index(x as int, y as int, stride) == k);
                    assert(k < (h as int) * stride && k < stride * (h as int));
                    lemma_fundamental_div_mod_converse(k, stride, y as int, x as int);
                    assert(self.render_spec()[k] == s);
                    assert(self.render_spec().take(k + 1) =~= self.render_spec().take(k).push(
                        self.render_spec()[k],
                    ));
                }
                out.push(s);
                x += 1;
            }
            proof {
                let k = y * stride + w;
                lemma_cell_index_in_range(w as int, y as int, stride, h as int);
                assert(cell_index(w as int, y as int, stride) == k);
                lemma_fundamental_div_mod_converse(k, stride, y as int, w as int);
                assert(self.render_spec()[k] == 10u8);
                assert(self.render_spec().take(k + 1) =~= self.render_spec().take(k).push(
                    self.render_spec()[k],
                ));
                assert((y + 1) * stride == y * stride + w + 1) by (nonlinear_arith)
                    requires
                        stride == w as int + 1,
                ;
            }
            out.push(10u8);
            y += 1;
        }
        proof {
            assert(out@ =~= self.render_spec());
        }
        out
    }
}

} // verus!
