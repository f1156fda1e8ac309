use vstd::prelude::*;
use crate::grid::GridError;

verus! {

/// `data` with every cell that `cells` lists set to `v`, and every other cell kept.
pub open spec fn filled<T>(data: Seq<T>, cells: Seq<usize>, v: T) -> Seq<T> {
    Seq::new(data.len(), |j: int| if cells.contains(j as usize) { v } else { data[j] })
}

/// Every cell that `cells` lists is an index of a field `len` cells long.
pub open spec fn all_in_range(cells: Seq<usize>, len: nat) -> bool {
    forall|k: int| 0 <= k < cells.len() ==> #[trigger] cells[k] < len
}

/// Sets each listed cell of a field to `v`: an obstacle painted into the density or
/// sound-speed grid, or a source excitation written into the pressure grid. When a
/// listed cell lies outside the field, fails with `IndexOutOfBounds` and writes nothing.
pub fn fill_cells<T: Copy>(data: &mut [T], cells: &Vec<usize>, v: T) -> (r: Result<(), GridError>)
    ensures
        r is Ok <==> all_in_range(cells@, old(data)@.len()),
        r is Ok ==> final(data)@ == filled(old(data)@, cells@, v),
        r is Err ==> final(data)@ == old(data)@,
        r matches Err(e) ==> e == GridError::IndexOutOfBounds,
{
    let n = data.len();
    let mut k: usize = 0;
    while k < cells.len()
        invariant
            n == data@.len(),
            k <= cells@.len(),
            all_in_range(cells@.take(k as int), n as nat),
        decreases cells@.len() - k,
    {
        if cells[k] >= n {
            proof {
                assert(cells@[k as int] >= n);
            }
            return Err(GridError::IndexOutOfBounds);
        }
        assert(cells@.take(k + 1) =~= cells@.take(k as int).push(cells@[k as int]));
        k = k + 1;
    }
    assert(cells@.take(k as int) =~= cells@);
    let ghost before = data@;
    let mut k: usize = 0;
    while k < cells.len()
        invariant
            n == data@.len(),
            before.len() == n,
            k <= cells@.len(),
            all_in_range(cells@, n as nat),
            data@ == filled(before, cells@.take(k as int), v),
        decreases cells@.len() - k,
    {
        let i = cells[k];
        data[i] = v;
        proof {
            let next = cells@.take(k + 1);
            assert(next =~= cells@.take(k as int).push(i));
            assert forall|j: int| 0 <= j < n implies #[trigger] next.contains(j as usize)
                == (cells@.take(k as int).contains(j as usize) || j == i) by {
                if j == i {
                    assert(next[k as int] == i);
                }
                if next.contains(j as usize) && j != i {
                    let t = choose|t: int| 0 <= t < next.len() && next[t] == j as usize;
                    assert(cells@.take(k as int)[t] == j as usize);
                }
                if cells@.take(k as int).contains(j as usize) {
                    let t = choose|t: int| 0 <= t < k && cells@.take(k as int)[t] == j as usize;
                    assert(next[t] == j as usize);
                }
            }
            assert(data@ =~= filled(before, next, v));
        }
        k = k + 1;
    }
    assert(cells@.take(k as int) =~= cells@);
    Ok(())
}

/// Filling the same cells with the same value a second time changes nothing more.
pub proof fn lemma_fill_idempotent<T>(data: Seq<T>, cells: Seq<usize>, v: T)
    ensures
        filled(filled(data, cells, v), cells, v) == filled(data, cells, v),
{
    assert(filled(filled(data, cells, v), cells, v) =~= filled(data, cells, v));
}

} // verus!
