//! Entry-wise comparison of two results.

use vstd::prelude::*;
use crate::scalar::Scalar;
use crate::matrix::{Matrix, entries, same_shape, all_close};

verus! {

/// Whether every entry of `x` is close to the entry of `y` at the same place.
/// The walk stops at the first pair that is not; it reads and changes
/// nothing else.
pub fn matrices_agree<T: Scalar>(x: &Matrix<T>, y: &Matrix<T>) -> (ok: bool)
    requires
        same_shape(entries(x), entries(y)),
    ensures
        ok == all_close(entries(x), entries(y)),
{
    let ghost ex = entries(x);
    let ghost ey = entries(y);
    let mut i: usize = 0;
    while i < x.len()
        invariant
            ex == entries(x),
            ey == entries(y),
            same_shape(ex, ey),
            i <= x@.len(),
            forall|r: int, q: int|
                0 <= r < i && 0 <= q < ex[r].len() ==> (#[trigger] ex[r][q]).spec_close(ey[r][q]),
        decreases x@.len() - i,
    {
        assert(ex[i as int].len() == ey[i as int].len());
        let row_x = &x[i];
        let row_y = &y[i];
        let mut j: usize = 0;
        while j < row_x.len()
            invariant
                ex == entries(x),
                ey == entries(y),
                i < x@.len(),
                i < y@.len(),
                row_x@ == ex[i as int],
                row_y@ == ey[i as int],
                row_x@.len() == row_y@.len(),
                j <= row_x@.len(),
                forall|q: int| 0 <= q < j ==> (#[trigger] ex[i as int][q]).spec_close(ey[i as int][q]),
            decreases row_x@.len() - j,
        {
            if !row_x[j].close(&row_y[j]) {
                assert(!ex[i as int][j as int].spec_close(ey[i as int][j as int]));
                return false;
            }
            j += 1;
        }
        i += 1;
    }
    true
}

} // verus!
