use vstd::prelude::*;
use crate::grid::{Grid, flat_index};

verus! {

/// `(col, row)` lies in the rectangle with corner `(x0, y0)` spanning `cols` x `rows` cells.
pub open spec fn in_rect(x0: int, y0: int, cols: int, rows: int, col: int, row: int) -> bool {
    x0 <= col < x0 + cols && y0 <= row < y0 + rows
}

/// A list of flat indices that are strictly increasing, hence free of repeats.
pub open spec fn strictly_increasing(s: Seq<usize>) -> bool {
    forall|i: int, j: int| 0 <= i < j < s.len() ==> s[i] < s[j]
}

/// `s` lists exactly the cells of `g` inside the rectangle, each once, in storage order.
pub open spec fn lists_rect(g: Grid, s: Seq<usize>, x0: int, y0: int, cols: int, rows: int) -> bool {
    &&& strictly_increasing(s)
    &&& forall|k: int|
        0 <= k < s.len() ==> {
            &&& #[trigger] s[k] < g.num_cells()
            &&& in_rect(x0, y0, cols, rows, (s[k] as int) % (g.width as int), (s[k] as int) / (g.width as int))
        }
    &&& forall|col: int, row: int|
        g.contains(col, row) && #[trigger] in_rect(x0, y0, cols, rows, col, row) ==> s.contains(
            g.index_of(col, row) as usize,
        )
}

/// `v` moved into `[0, limit]`.
pub open spec fn clamp_to(v: int, limit: int) -> int {
    if v <= 0 {
        0
    } else if v >= limit {
        limit
    } else {
        v
    }
}

/// Where the cells of the rectangle `[start, start + extent)` meet `[0, limit)` along one axis.
fn clip(start: i64, extent: u64, limit: usize) -> (r: (usize, usize))
    ensures
        r.0 <= r.1 <= limit,
        r.0 == clamp_to(start as int, limit as int),
        r.1 == if clamp_to(start + extent, limit as int) < r.0 {
            r.0 as int
        } else {
            clamp_to(start + extent, limit as int)
        },
{
    let end: i128 = start as i128 + extent as i128;
    let lo: usize = if start <= 0 {
        0
    } else if start as u64 >= limit as u64 {
        limit
    } else {
        start as usize
    };
    let hi: usize = if end <= 0 {
        0
    } else if end >= limit as i128 {
        limit
    } else {
        end as usize
    };
    if hi < lo {
        (lo, lo)
    } else {
        (lo, hi)
    }
}

/// The in-bounds cells of the rectangle with corner `(x0, y0)` spanning `cols` x `rows`
/// cells; the parts that fall outside the grid are skipped.
pub fn rect_cells(g: &Grid, x0: i64, y0: i64, cols: u64, rows: u64) -> (r: Vec<usize>)
    requires
        g.wf(),
    ensures
        lists_rect(*g, r@, x0 as int, y0 as int, cols as int, rows as int),
{
    let (xlo, xhi) = clip(x0, cols, g.width);
    let (ylo, yhi) = clip(y0, rows, g.height);
    let w = g.width;
    let mut r: Vec<usize> = Vec::new();
    if xlo == xhi {
        return r;
    }
    let mut row = ylo;
    while row < yhi
        invariant
            g.wf(),
            w == g.width,
            xlo < xhi <= w,
            ylo <= row <= yhi <= g.height,
            xlo == clamp_to(x0 as int, w as int),
            xhi == if clamp_to(x0 + cols, w as int) < xlo { xlo as int } else { clamp_to(x0 + cols, w as int) },
            ylo == clamp_to(y0 as int, g.height as int),
            yhi == if clamp_to(y0 + rows, g.height as int) < ylo { ylo as int } else { clamp_to(y0 + rows, g.height as int) },
            strictly_increasing(r@),
            forall|k: int| 0 <= k < r@.len() ==> #[trigger] r@[k] < flat_index(w as int, xlo as int, row as int),
            forall|k: int|
                0 <= k < r@.len() ==> {
                    &&& #[trigger] r@[k] < g.num_cells()
                    &&& in_rect(x0 as int, y0 as int, cols as int, rows as int, (r@[k] as int) % (w as int), (r@[k] as int) / (w as int))
                },
            forall|col: int, rw: int|
                g.contains(col, rw) && rw < row && #[trigger] in_rect(x0 as int, y0 as int, cols as int, rows as int, col, rw)
                    ==> r@.contains(g.index_of(col, rw) as usize),
        decreases yhi - row,
    {
        let mut col = xlo;
        while col < xhi
            invariant
                g.wf(),
                w == g.width,
                xlo <= col <= xhi <= w,
                ylo <= row < yhi <= g.height,
                xlo == clamp_to(x0 as int, w as int),
                xhi == if clamp_to(x0 + cols, w as int) < xlo { xlo as int } else { clamp_to(x0 + cols, w as int) },
                ylo == clamp_to(y0 as int, g.height as int),
                yhi == if clamp_to(y0 + rows, g.height as int) < ylo { ylo as int } else { clamp_to(y0 + rows, g.height as int) },
                strictly_increasing(r@),
                forall|k: int| 0 <= k < r@.len() ==> #[trigger] r@[k] < flat_index(w as int, col as int, row as int),
                forall|k: int|
                    0 <= k < r@.len() ==> {
                        &&& #[trigger] r@[k] < g.num_cells()
                        &&& in_rect(x0 as int, y0 as int, cols as int, rows as int, (r@[k] as int) % (w as int), (r@[k] as int) / (w as int))
                    },
                forall|c: int, rw: int|
                    g.contains(c, rw) && (rw < row || (rw == row && c < col)) && #[trigger] in_rect(x0 as int, y0 as int, cols as int, rows as int, c, rw)
                        ==> r@.contains(g.index_of(c, rw) as usize),
            decreases xhi - col,
        {
            let i = match g.index(col, row) {
                Ok(i) => i,
                Err(_) => {
                    assert(false);
                    return r;
                },
            };
            proof {
                vstd::arithmetic::div_mod::lemma_fundamental_div_mod_converse(
                    i as int,
                    w as int,
                    row as int,
                    col as int,
                );
            }
            let ghost before = r@;
            r.push(i);
            proof {
                assert(r@[r@.len() - 1] == i);
                assert forall|c: int, rw: int|
                    g.contains(c, rw) && (rw < row || (rw == row && c < col + 1)) && #[trigger] in_rect(x0 as int, y0 as int, cols as int, rows as int, c, rw)
                        implies r@.contains(g.index_of(c, rw) as usize) by {
                    if rw == row && c == col {
                        assert(r@[r@.len() - 1] == g.index_of(c, rw) as usize);
                    } else {
                        assert(before.contains(g.index_of(c, rw) as usize));
                        let k = choose|k: int| 0 <= k < before.len() && before[k] == g.index_of(c, rw) as usize;
                        assert(r@[k] == before[k]);
                    }
                }
            }
            col = col + 1;
        }
        proof {
            let (wi, ri) = (w as int, row as int);
            assert(flat_index(wi, xhi as int, ri) <= flat_index(wi, xlo as int, ri + 1)) by (nonlinear_arith)
                requires
                    xhi <= wi,
                    0 <= xlo,
            ;
        }
        row = row + 1;
    }
    r
}


/// The in-bounds cells of the square neighbourhood of half-width `radius` centred at
/// `(cx, cy)`: the cells an obstacle brush covers.
pub fn square_cells(g: &Grid, cx: i32, cy: i32, radius: u32) -> (r: Vec<usize>)
    requires
        g.wf(),
    ensures
        lists_rect(*g, r@, cx - radius, cy - radius, 2 * radius + 1, 2 * radius + 1),
{
    let side: u64 = 2 * radius as u64 + 1;
    rect_cells(g, cx as i64 - radius as i64, cy as i64 - radius as i64, side, side)
}

/// The in-bounds cells of the horizontal run of `count` cells starting at `(x0, y)`:
/// a row of emitters, or a wall.
pub fn segment_cells(g: &Grid, x0: i64, y: i64, count: u64) -> (r: Vec<usize>)
    requires
        g.wf(),
    ensures
        lists_rect(*g, r@, x0 as int, y as int, count as int, 1),
{
    rect_cells(g, x0, y, count, 1)
}

} // verus!
