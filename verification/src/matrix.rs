//! The mathematical model: a matrix is the sequence of its rows, a product
//! entry is a sum accumulated from the left.

use vstd::prelude::*;
use crate::scalar::Scalar;

verus! {

/// A dense matrix, stored row by row.
pub type Matrix<T> = Vec<Vec<T>>;

/// The rows of `m`, each as the sequence of its entries.
pub open spec fn entries<T>(m: &Matrix<T>) -> Seq<Seq<T>> {
    Seq::new(m@.len(), |i: int| m@[i]@)
}

/// `m` has `n` rows of `n` entries each.
pub open spec fn is_square<T>(m: Seq<Seq<T>>, n: nat) -> bool {
    &&& m.len() == n
    &&& forall|i: int| 0 <= i < n ==> (#[trigger] m[i]).len() == n
}

/// `x` and `y` have the same number of rows, and row by row the same number
/// of entries.
pub open spec fn same_shape<T>(x: Seq<Seq<T>>, y: Seq<Seq<T>>) -> bool {
    &&& x.len() == y.len()
    &&& forall|i: int| 0 <= i < x.len() ==> (#[trigger] x[i]).len() == y[i].len()
}

/// Whether `m` has `n` rows of `n` entries each: what both multipliers ask of
/// each operand.
pub fn has_square_shape<T>(m: &Matrix<T>, n: usize) -> (ok: bool)
    ensures
        ok == is_square(entries(m), n as nat),
{
    if m.len() != n {
        return false;
    }
    let ghost em = entries(m);
    let mut i: usize = 0;
    while i < n
        invariant
            em == entries(m),
            m@.len() == n,
            i <= n,
            forall|r: int| 0 <= r < i ==> (#[trigger] em[r]).len() == n,
        decreases n - i,
    {
        if m[i].len() != n {
            assert(em[i as int].len() != n);
            return false;
        }
        i += 1;
    }
    true
}

/// Whether `x` and `y` have the same shape: what the comparison asks of its
/// operands.
pub fn have_same_shape<T>(x: &Matrix<T>, y: &Matrix<T>) -> (ok: bool)
    ensures
        ok == same_shape(entries(x), entries(y)),
{
    if x.len() != y.len() {
        return false;
    }
    let ghost ex = entries(x);
    let ghost ey = entries(y);
    let mut i: usize = 0;
    while i < x.len()
        invariant
            ex == entries(x),
            ey == entries(y),
            x@.len() == y@.len(),
            i <= x@.len(),
            forall|r: int| 0 <= r < i ==> (#[trigger] ex[r]).len() == ey[r].len(),
        decreases x@.len() - i,
    {
        if x[i].len() != y[i].len() {
            assert(ex[i as int].len() != ey[i as int].len());
            return false;
        }
        i += 1;
    }
    true
}

/// The sum of the first `k` terms `a[i][t] * b[t][j]`, accumulated from zero
/// in the order t = 0, 1, .., k - 1.
pub open spec fn dot_prefix<T: Scalar>(
    a: Seq<Seq<T>>,
    b: Seq<Seq<T>>,
    i: int,
    j: int,
    k: nat,
) -> T
    decreases k,
{
    if k == 0 {
        T::spec_zero()
    } else {
        dot_prefix(a, b, i, j, (k - 1) as nat).spec_plus(a[i][k - 1].spec_times(b[k - 1][j]))
    }
}

/// Entry (i, j) of the product: row `i` of `a` against column `j` of `b`.
pub open spec fn product_entry<T: Scalar>(a: Seq<Seq<T>>, b: Seq<Seq<T>>, i: int, j: int) -> T {
    dot_prefix(a, b, i, j, a.len())
}

/// Row `i` of the product.
pub open spec fn product_row<T: Scalar>(a: Seq<Seq<T>>, b: Seq<Seq<T>>, i: int) -> Seq<T> {
    Seq::new(a.len(), |j: int| product_entry(a, b, i, j))
}

/// The product of `a` and `b`, row `i` of the result standing at index `i`.
pub open spec fn product<T: Scalar>(a: Seq<Seq<T>>, b: Seq<Seq<T>>) -> Seq<Seq<T>> {
    Seq::new(a.len(), |i: int| product_row(a, b, i))
}

/// Every entry of `x` is close to the entry of `y` at the same place.
pub open spec fn all_close<T: Scalar>(x: Seq<Seq<T>>, y: Seq<Seq<T>>) -> bool {
    forall|i: int, j: int|
        0 <= i < x.len() && 0 <= j < x[i].len() ==> (#[trigger] x[i][j]).spec_close(y[i][j])
}

} // verus!
