//! Filling a square matrix from a source of values.

use vstd::prelude::*;
use crate::matrix::{Matrix, entries, is_square};

verus! {

/// An `n` by `n` matrix whose every entry is one outcome of `draw`, which is
/// called `n * n` times, row by row. Which value lands where is up to the
/// source: with a random one, two calls need not give the same matrix.
pub fn initialize_matrix<T, F: Fn() -> T>(n: usize, draw: F) -> (m: Matrix<T>)
    requires
        call_requires(draw, ()),
    ensures
        is_square(entries(&m), n as nat),
        forall|i: int, j: int|
            0 <= i < n && 0 <= j < n ==> call_ensures(draw, (), #[trigger] entries(&m)[i][j]),
{
    let mut m: Matrix<T> = Vec::new();
    let mut i: usize = 0;
    while i < n
        invariant
            call_requires(draw, ()),
            i <= n,
            m@.len() == i,
            forall|r: int| 0 <= r < i ==> (#[trigger] m@[r])@.len() == n,
            forall|r: int, q: int|
                0 <= r < i && 0 <= q < n ==> call_ensures(draw, (), #[trigger] m@[r]@[q]),
        decreases n - i,
    {
        let mut row: Vec<T> = Vec::new();
        let mut j: usize = 0;
        while j < n
            invariant
                call_requires(draw, ()),
                j <= n,
                row@.len() == j,
                forall|q: int| 0 <= q < j ==> call_ensures(draw, (), #[trigger] row@[q]),
            decreases n - j,
        {
            let value = draw();
            row.push(value);
            j += 1;
        }
        m.push(row);
        i += 1;
    }
    m
}

} // verus!
