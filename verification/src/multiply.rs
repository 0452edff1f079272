//! The two multipliers: one thread walking every entry, and one task per
//! output row handed to a thread pool.

use vstd::prelude::*;
use rayon::iter::IntoParallelIterator;
use rayon::iter::ParallelIterator;
use crate::scalar::Scalar;
use crate::matrix::{Matrix, entries, is_square, dot_prefix, product_entry, product_row, product};

verus! {

/// Row `i` of the product of `a` and `b`: the unit of work of the parallel
/// multiplier. It reads `a` and `b` and owns what it writes.
pub fn multiply_row<T: Scalar>(a: &Matrix<T>, b: &Matrix<T>, i: usize) -> (row: Vec<T>)
    requires
        is_square(entries(a), a@.len()),
        is_square(entries(b), a@.len()),
        i < a@.len(),
    ensures
        row@ == product_row(entries(a), entries(b), i as int),
{
    let n = a.len();
    let ghost ea = entries(a);
    let ghost eb = entries(b);
    let mut row: Vec<T> = Vec::new();
    let mut j: usize = 0;
    while j < n
        invariant
            n == a@.len(),
            ea == entries(a),
            eb == entries(b),
            is_square(ea, n as nat),
            is_square(eb, n as nat),
            i < n,
            j <= n,
            row@.len() == j,
            forall|q: int| 0 <= q < j ==> #[trigger] row@[q] == product_entry(ea, eb, i as int, q),
        decreases n - j,
    {
        let mut sum = T::zero();
        let mut k: usize = 0;
        while k < n
            invariant
                n == a@.len(),
                ea == entries(a),
                eb == entries(b),
                is_square(ea, n as nat),
                is_square(eb, n as nat),
                i < n,
                j < n,
                k <= n,
                sum == dot_prefix(ea, eb, i as int, j as int, k as nat),
            decreases n - k,
        {
            assert(ea[i as int].len() == n);
            assert(eb[k as int].len() == n);
            let term = a[i][k].times(&b[k][j]);
            sum = sum.plus(&term);
            k += 1;
        }
        row.push(sum);
        j += 1;
    }
    assert(row@ =~= product_row(ea, eb, i as int));
    row
}

/// The product of two square matrices of one size, computed on the calling
/// thread by three nested loops: rows, then columns, then the terms of one
/// entry in rising order.
pub fn multiply_sequential<T: Scalar>(a: &Matrix<T>, b: &Matrix<T>) -> (c: Matrix<T>)
    requires
        is_square(entries(a), a@.len()),
        is_square(entries(b), a@.len()),
    ensures
        entries(&c) == product(entries(a), entries(b)),
        is_square(entries(&c), a@.len()),
{
    let n = a.len();
    let ghost ea = entries(a);
    let ghost eb = entries(b);
    let mut c: Matrix<T> = Vec::new();
    let mut i: usize = 0;
    while i < n
        invariant
            n == a@.len(),
            ea == entries(a),
            eb == entries(b),
            is_square(ea, n as nat),
            is_square(eb, n as nat),
            i <= n,
            c@.len() == i,
            forall|r: int| 0 <= r < i ==> (#[trigger] c@[r])@ == product_row(ea, eb, r),
        decreases n - i,
    {
        let mut row: Vec<T> = Vec::new();
        let mut j: usize = 0;
        while j < n
            invariant
                n == a@.len(),
                ea == entries(a),
                eb == entries(b),
                is_square(ea, n as nat),
                is_square(eb, n as nat),
                i < n,
                j <= n,
                row@.len() == j,
                forall|q: int|
                    0 <= q < j ==> #[trigger] row@[q] == product_entry(ea, eb, i as int, q),
            decreases n - j,
        {
            let mut sum = T::zero();
            let mut k: usize = 0;
            while k < n
                invariant
                    n == a@.len(),
                    ea == entries(a),
                    eb == entries(b),
                    is_square(ea, n as nat),
                    is_square(eb, n as nat),
                    i < n,
                    j < n,
                    k <= n,
                    sum == dot_prefix(ea, eb, i as int, j as int, k as nat),
                decreases n - k,
            {
                assert(ea[i as int].len() == n);
                assert(eb[k as int].len() == n);
                let term = a[i][k].times(&b[k][j]);
                sum = sum.plus(&term);
                k += 1;
            }
            row.push(sum);
            j += 1;
        }
        assert(row@ =~= product_row(ea, eb, i as int));
        c.push(row);
        i += 1;
    }
    assert(entries(&c) =~= product(ea, eb));
    c
}

/// `rayon`'s `into_par_iter` on a range of indices, followed by `map` and a
/// `collect` into a `Vec`. The contract claims what `rayon` documents of an
/// indexed parallel iterator: `task` is called on each index below `n`, and
/// what it returned for index `i` stands at index `i` of the result,
/// whichever worker finished first.
#[verifier::external_body]
fn map_indices_in_parallel<R: Send, F: Fn(usize) -> R + Send + Sync>(n: usize, task: F) -> (out: Vec<R>)
    requires
        forall|i: usize| i < n ==> call_requires(task, (i,)),
    ensures
        out@.len() == n,
        forall|i: usize| i < n ==> call_ensures(task, (i,), #[trigger] out@[i as int]),
{
    (0..n).into_par_iter().map(task).collect()
}

/// The product of two square matrices of one size, one task per output row,
/// the tasks spread over the global thread pool. Row `i` of the result is row
/// `i` of `a` against every column of `b`, however the tasks were scheduled.
pub fn multiply_parallel<T: Scalar + Send + Sync>(a: &Matrix<T>, b: &Matrix<T>) -> (c: Matrix<T>)
    requires
        is_square(entries(a), a@.len()),
        is_square(entries(b), a@.len()),
    ensures
        entries(&c) == product(entries(a), entries(b)),
        is_square(entries(&c), a@.len()),
        forall|i: int|
            0 <= i < a@.len() ==> (#[trigger] c@[i])@ == product_row(entries(a), entries(b), i),
{
    let n = a.len();
    let task = |i: usize| -> (row: Vec<T>)
        requires
            i < n,
        ensures
            row@ == product_row(entries(a), entries(b), i as int),
        { multiply_row(a, b, i) };
    let c = map_indices_in_parallel(n, task);
    assert(entries(&c) =~= product(entries(a), entries(b)));
    c
}

} // verus!
