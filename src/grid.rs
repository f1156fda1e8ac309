use vstd::prelude::*;

verus! {

/// Raised when a cell coordinate falls outside the grid.
#[derive(Debug, Clone, Copy, PartialEq, Eq, Structural)]
pub enum GridError {
    IndexOutOfBounds,
}

/// Position in the flat, row-major storage of a grid `width` cells wide.
pub open spec fn flat_index(width: int, col: int, row: int) -> int {
    row * width + col
}

/// Flat indices that one stepper update at an interior cell reads and writes:
/// the cell itself and its four axis neighbours.
#[derive(Debug, Clone, Copy, PartialEq, Eq, Structural)]
pub struct Stencil {
    pub col: usize,
    pub row: usize,
    pub here: usize,
    pub x_prev: usize,
    pub x_next: usize,
    pub y_prev: usize,
    pub y_next: usize,
}

/// Fixed `width` x `height` shape shared by every field of the simulation.
/// Cell `(col, row)` is stored at `row * width + col`.
#[derive(Debug, Clone, Copy)]
pub struct Grid {
    pub width: usize,
    pub height: usize,
}

impl Grid {
    /// Every flat index of the grid fits in `usize`.
    pub open spec fn wf(&self) -> bool {
        self.width * self.height <= usize::MAX
    }

    pub open spec fn num_cells(&self) -> int {
        self.width * self.height
    }

    pub open spec fn contains(&self, col: int, row: int) -> bool {
        0 <= col < self.width && 0 <= row < self.height
    }

    /// Cells that the stepper updates; the outer one-cell border is a rigid wall.
    pub open spec fn is_interior(&self, col: int, row: int) -> bool {
        1 <= col && col + 1 < self.width && 1 <= row && row + 1 < self.height
    }

    pub open spec fn index_of(&self, col: int, row: int) -> int {
        flat_index(self.width as int, col, row)
    }

    /// The stencil of `(col, row)`, each entry the flat index of its cell.
    pub open spec fn stencil_at(&self, col: int, row: int) -> Stencil {
        Stencil {
            col: col as usize,
            row: row as usize,
            here: self.index_of(col, row) as usize,
            x_prev: self.index_of(col - 1, row) as usize,
            x_next: self.index_of(col + 1, row) as usize,
            y_prev: self.index_of(col, row - 1) as usize,
            y_next: self.index_of(col, row + 1) as usize,
        }
    }

    /// Number of interior rows, the length of one column of the sweep.
    pub open spec fn interior_rows(&self) -> int {
        if self.height >= 2 { self.height - 2 } else { 0 }
    }

    pub open spec fn interior_cols(&self) -> int {
        if self.width >= 2 { self.width - 2 } else { 0 }
    }

    /// The `k`-th stencil of the sweep: columns in order, and within a column the rows in order.
    pub open spec fn sweep_at(&self, k: int) -> Stencil {
        self.stencil_at(1 + k / self.interior_rows(), 1 + k % self.interior_rows())
    }

    /// A grid of the given shape, or `None` when its cell count overflows `usize`.
    pub fn new(width: usize, height: usize) -> (r: Option<Grid>)
        ensures
            r is Some <==> width * height <= usize::MAX,
            r matches Some(g) ==> g.wf() && g.width == width && g.height == height,
    {
        match width.checked_mul(height) {
            Some(_) => Some(Grid { width, height }),
            None => None,
        }
    }

    /// Number of cells in the grid.
    pub fn len(&self) -> (r: usize)
        requires
            self.wf(),
        ensures
            r == self.num_cells(),
    {
        self.width * self.height
    }

    /// Bounds-checked flat index of `(col, row)`.
    pub fn index(&self, col: usize, row: usize) -> (r: Result<usize, GridError>)
        requires
            self.wf(),
        ensures
            r is Ok <==> self.contains(col as int, row as int),
            r matches Ok(i) ==> i == self.index_of(col as int, row as int) && i < self.num_cells(),
            r matches Err(e) ==> e == GridError::IndexOutOfBounds,
    {
        if col < self.width && row < self.height {
            proof {
                lemma_index_in_grid(self.width as int, self.height as int, col as int, row as int);
            }
            Ok(row * self.width + col)
        } else {
            Err(GridError::IndexOutOfBounds)
        }
    }

    /// Column and row of the cell stored at flat index `i`.
    pub fn coords(&self, i: usize) -> (r: Result<(usize, usize), GridError>)
        requires
            self.wf(),
        ensures
            r is Ok <==> i < self.num_cells(),
            r matches Ok(c) ==> self.contains(c.0 as int, c.1 as int) && self.index_of(c.0 as int, c.1 as int) == i,
            r matches Err(e) ==> e == GridError::IndexOutOfBounds,
    {
        if i >= self.width * self.height {
            return Err(GridError::IndexOutOfBounds);
        }
        proof {
            let (w, h) = (self.width as int, self.height as int);
            assert(w > 0) by (nonlinear_arith)
                requires
                    (i as int) < w * h,
                    w >= 0,
                    i >= 0,
            ;
        }
        let (col, row) = (i % self.width, i / self.width);
        proof {
            let (w, h) = (self.width as int, self.height as int);
            vstd::arithmetic::div_mod::lemma_fundamental_div_mod(i as int, w);
            assert(w * (i as int / w) == (i as int / w) * w) by (nonlinear_arith);
            assert(row < h) by (nonlinear_arith)
                requires
                    row == i as int / w,
                    i < w * h,
                    w > 0,
                    i >= 0,
            ;
        }
        Ok((col, row))
    }

    /// Stencil of an interior cell; border and outside cells are refused.
    pub fn stencil(&self, col: usize, row: usize) -> (r: Result<Stencil, GridError>)
        requires
            self.wf(),
        ensures
            r is Ok <==> self.is_interior(col as int, row as int),
            r matches Ok(s) ==> s == self.stencil_at(col as int, row as int),
            r matches Err(e) ==> e == GridError::IndexOutOfBounds,
    {
        if 1 <= col && col < self.width && self.width - col > 1 && 1 <= row && row < self.height
            && self.height - row > 1 {
            proof {
                lemma_index_in_grid(self.width as int, self.height as int, col as int, row as int + 1);
                lemma_index_in_grid(self.width as int, self.height as int, col as int, row as int - 1);
                lemma_index_in_grid(self.width as int, self.height as int, col as int, row as int);
                let (wi, ri) = (self.width as int, row as int);
                assert((ri + 1) * wi == ri * wi + wi && (ri - 1) * wi == ri * wi - wi)
                    by (nonlinear_arith);
            }
            let w = self.width;
            Ok(Stencil {
                col,
                row,
                here: row * w + col,
                x_prev: row * w + col - 1,
                x_next: row * w + col + 1,
                y_prev: (row - 1) * w + col,
                y_next: (row + 1) * w + col,
            })
        } else {
            Err(GridError::IndexOutOfBounds)
        }
    }

    /// The stencils of all interior cells in the order in which the stepper visits them:
    /// an outer pass over the columns and an inner pass over the rows.
    pub fn sweep(&self) -> (r: Vec<Stencil>)
        requires
            self.wf(),
        ensures
            r@.len() == self.interior_cols() * self.interior_rows(),
            forall|k: int| 0 <= k < r@.len() ==> #[trigger] r@[k] == self.sweep_at(k),
    {
        let mut r: Vec<Stencil> = Vec::new();
        if self.width < 2 || self.height < 2 {
            proof {
                assert(self.interior_cols() * self.interior_rows() == 0) by (nonlinear_arith)
                    requires
                        self.interior_cols() == 0 || self.interior_rows() == 0,
                ;
            }
            return r;
        }
        let rows: usize = self.height - 2;
        let mut col: usize = 1;
        while col < self.width - 1
            invariant
                self.wf(),
                self.width >= 2,
                self.height >= 2,
                rows == self.interior_rows(),
                rows == self.height - 2,
                1 <= col < self.width,
                r@.len() == (col - 1) * rows,
                forall|k: int| 0 <= k < r@.len() ==> #[trigger] r@[k] == self.sweep_at(k),
            decreases self.width - col,
        {
            let mut row: usize = 1;
            while row < self.height - 1
                invariant
                    self.wf(),
                    rows == self.interior_rows(),
                    rows == self.height - 2,
                    self.height >= 2,
                    1 <= col && col + 1 < self.width,
                    1 <= row < self.height,
                    r@.len() == (col - 1) * rows + (row - 1),
                    forall|k: int| 0 <= k < r@.len() ==> #[trigger] r@[k] == self.sweep_at(k),
                decreases self.height - row,
            {
                let s = match self.stencil(col, row) {
                    Ok(s) => s,
                    Err(_) => {
                        assert(false);
                        return r;
                    },
                };
                proof {
                    vstd::arithmetic::div_mod::lemma_fundamental_div_mod_converse(
                        r@.len() as int,
                        rows as int,
                        col - 1,
                        row - 1,
                    );
                }
                r.push(s);
                row = row + 1;
            }
            proof {
                assert((col - 1) * rows + rows == col * rows) by (nonlinear_arith);
            }
            col = col + 1;
        }
        r
    }
}

/// The flat index of a cell inside a `width` x `height` grid is below its cell count.
pub proof fn lemma_index_in_grid(width: int, height: int, col: int, row: int)
    requires
        0 <= col < width,
        0 <= row < height,
    ensures
        0 <= flat_index(width, col, row) < width * height,
{
    assert(0 <= row * width <= (height - 1) * width) by (nonlinear_arith)
        requires
            0 <= row < height,
            0 < width,
    ;
    assert((height - 1) * width == width * height - width) by (nonlinear_arith);
}

/// The sweep reaches every interior cell: `(col, row)` stands at position
/// `(col - 1) * interior_rows + (row - 1)`.
pub proof fn lemma_sweep_covers(g: Grid, col: int, row: int)
    requires
        g.is_interior(col, row),
    ensures
        0 <= (col - 1) * g.interior_rows() + (row - 1) < g.interior_cols() * g.interior_rows(),
        g.sweep_at((col - 1) * g.interior_rows() + (row - 1)) == g.stencil_at(col, row),
{
    let (rows, cols) = (g.interior_rows(), g.interior_cols());
    let k = (col - 1) * rows + (row - 1);
    vstd::arithmetic::div_mod::lemma_fundamental_div_mod_converse(k, rows, col - 1, row - 1);
    assert(0 <= k < cols * rows) by (nonlinear_arith)
        requires
            k == (col - 1) * rows + (row - 1),
            0 <= col - 1 < cols,
            0 <= row - 1 < rows,
    ;
}

/// In the sweep, the neighbours that a stencil reads behind it were visited first:
/// the cell one column back stands one column's worth of positions earlier, unless it
/// is on the border, and the cell one row back stands just before, unless it is on the
/// border.
pub proof fn lemma_sweep_neighbours_first(g: Grid, k: int)
    requires
        0 <= k < g.interior_cols() * g.interior_rows(),
    ensures
        ({
            let s = g.sweep_at(k);
            &&& s.col == 1 || (k >= g.interior_rows() && g.sweep_at(k - g.interior_rows()).here
                == s.x_prev)
            &&& s.row == 1 || (k >= 1 && g.sweep_at(k - 1).here == s.y_prev)
        }),
{
    let rows = g.interior_rows();
    assert(rows > 0) by (nonlinear_arith)
        requires
            0 <= k < g.interior_cols() * rows,
            g.interior_cols() >= 0,
            rows >= 0,
    ;
    let (q, r) = (k / rows, k % rows);
    vstd::arithmetic::div_mod::lemma_fundamental_div_mod(k, rows);
    if q >= 1 {
        assert(k - rows == (q - 1) * rows + r) by (nonlinear_arith)
            requires
                k == rows * q + r,
        ;
        vstd::arithmetic::div_mod::lemma_fundamental_div_mod_converse(k - rows, rows, q - 1, r);
    }
    if r >= 1 {
        assert(k - 1 == q * rows + (r - 1)) by (nonlinear_arith)
            requires
                k == rows * q + r,
        ;
        vstd::arithmetic::div_mod::lemma_fundamental_div_mod_converse(k - 1, rows, q, r - 1);
    }
}

} // verus!
