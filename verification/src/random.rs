use vstd::prelude::*;
use rand::Rng;

verus! {

/// A number drawn by `rand::Rng::gen_range` on `rand::thread_rng()` from the
/// half-open range `lo..hi`. The crate documents that the result lies in the
/// range and that an empty range panics; which number comes out is left to
/// chance and is not stated.
#[verifier::external_body]
pub(crate) fn random_in_range(lo: i64, hi: i64) -> (r: i64)
    requires
        lo < hi,
    ensures
        lo <= r < hi,
{
    rand::thread_rng().gen_range(lo..hi)
}

/// A uniformly drawn index below `len`.
pub fn random_index(len: usize) -> (r: usize)
    requires
        0 < len <= i64::MAX,
    ensures
        r < len,
{
    let x = random_in_range(0, len as i64);
    x as usize
}

/// A cell of the partition grid: column and row.
pub type Cell = (i32, i32);

/// Draws a grid cell with its column in `x_lo..x_hi` and its row in `y_lo..y_hi`.
/// Both ranges must hold a cell.
pub fn pick_cell(x_lo: i32, x_hi: i32, y_lo: i32, y_hi: i32) -> (r: Cell)
    requires
        x_lo < x_hi,
        y_lo < y_hi,
    ensures
        x_lo <= r.0 < x_hi,
        y_lo <= r.1 < y_hi,
{
    let x = random_in_range(x_lo as i64, x_hi as i64);
    let y = random_in_range(y_lo as i64, y_hi as i64);
    (x as i32, y as i32)
}

/// Whether `cell` is one of `taken`.
pub fn cell_taken(cell: Cell, taken: &Vec<Cell>) -> (r: bool)
    ensures
        r == taken@.contains(cell),
{
    let mut i: usize = 0;
    while i < taken.len()
        invariant
            0 <= i <= taken.len(),
            forall|j: int| 0 <= j < i ==> taken@[j] != cell,
        decreases taken.len() - i,
    {
        if taken[i].0 == cell.0 && taken[i].1 == cell.1 {
            assert(taken@[i as int] == cell);
            return true;
        }
        i = i + 1;
    }
    false
}

/// No cell occurs twice in `cells`.
pub open spec fn cells_distinct(cells: Seq<Cell>) -> bool {
    forall|i: int, j: int| 0 <= i < j < cells.len() ==> cells[i] != cells[j]
}

/// Records `cell` as taken. The cell must be free, so a list of distinct cells
/// stays distinct and grows by exactly that cell.
pub fn add_free_cell(taken: &mut Vec<Cell>, cell: Cell)
    requires
        !old(taken)@.contains(cell),
    ensures
        final(taken)@ == old(taken)@.push(cell),
        cells_distinct(old(taken)@) ==> cells_distinct(final(taken)@),
{
    taken.push(cell);
    proof {
        let s = old(taken)@;
        let t = s.push(cell);
        if cells_distinct(s) {
            assert forall|i: int, j: int| 0 <= i < j < t.len() implies t[i] != t[j] by {
                if j == s.len() {
                    assert(t[i] == s[i]);
                    assert(s.contains(s[i]));
                } else {
                    assert(t[i] == s[i] && t[j] == s[j]);
                }
            }
        }
    }
}

} // verus!
