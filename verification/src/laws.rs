//! What holds of the product whatever the operands are, given the
//! arithmetic facts each law names of the entries it touches.

use vstd::prelude::*;
use crate::scalar::Scalar;
use crate::matrix::{is_square, dot_prefix, product_entry, product, all_close};

verus! {

/// The `n` by `n` matrix with `one` on the diagonal and zero elsewhere.
pub open spec fn identity<T: Scalar>(n: nat, one: T) -> Seq<Seq<T>> {
    Seq::new(n, |i: int| Seq::new(n, |j: int| if i == j { one } else { T::spec_zero() }))
}

/// The `n` by `n` matrix of zeros.
pub open spec fn zero_matrix<T: Scalar>(n: nat) -> Seq<Seq<T>> {
    Seq::new(n, |i: int| Seq::new(n, |j: int| T::spec_zero()))
}

/// Adding zero to `x`, on either side, gives `x`.
pub open spec fn zero_is_neutral_for<T: Scalar>(x: T) -> bool {
    &&& x.spec_plus(T::spec_zero()) == x
    &&& T::spec_zero().spec_plus(x) == x
}

/// The product of `x` and zero, on either side, is zero.
pub open spec fn zero_absorbs<T: Scalar>(x: T) -> bool {
    &&& x.spec_times(T::spec_zero()) == T::spec_zero()
    &&& T::spec_zero().spec_times(x) == T::spec_zero()
}

/// The product of `x` and `one`, on either side, is `x`.
pub open spec fn is_unit_for<T: Scalar>(one: T, x: T) -> bool {
    &&& x.spec_times(one) == x
    &&& one.spec_times(x) == x
}

/// Zero absorbs every entry of `m`.
pub open spec fn absorbed_by_zero<T: Scalar>(m: Seq<Seq<T>>) -> bool {
    forall|i: int, j: int|
        0 <= i < m.len() && 0 <= j < m[i].len() ==> zero_absorbs(#[trigger] m[i][j])
}

/// Every entry of `m` behaves towards zero and `one` as a number does: zero
/// absorbs it and is neutral for it, and `one` is a unit for it.
pub open spec fn regular<T: Scalar>(m: Seq<Seq<T>>, one: T) -> bool {
    forall|i: int, j: int|
        0 <= i < m.len() && 0 <= j < m[i].len() ==> {
            &&& zero_absorbs(#[trigger] m[i][j])
            &&& zero_is_neutral_for(m[i][j])
            &&& is_unit_for(one, m[i][j])
        }
}

/// Every entry of `m` is close to itself.
pub open spec fn self_close<T: Scalar>(m: Seq<Seq<T>>) -> bool {
    forall|i: int, j: int|
        0 <= i < m.len() && 0 <= j < m[i].len() ==> (#[trigger] m[i][j]).spec_close(m[i][j])
}

/// Reducing modulo 2^64 into the signed range leaves a value already in that
/// range as it is.
proof fn lemma_crop_in_range(v: int)
    requires
        i64::MIN <= v <= i64::MAX,
    ensures
        vstd::wrapping::i64_specs::signed_crop(v) == v,
{
    let r: int = 0x1_0000_0000_0000_0000;
    if v >= 0 {
        vstd::arithmetic::div_mod::lemma_small_mod(v as nat, r as nat);
    } else {
        vstd::arithmetic::div_mod::lemma_small_mod((v + r) as nat, r as nat);
        vstd::arithmetic::div_mod::lemma_mod_add_multiples_vanish(v, r);
    }
}

/// Every wrapping 64-bit integer is absorbed by zero, has zero as neutral
/// element and 1 as unit, and is close to itself.
pub proof fn lemma_i64_arithmetic(x: i64)
    ensures
        zero_is_neutral_for(x),
        zero_absorbs(x),
        is_unit_for(1i64, x),
        x.spec_close(x),
{
    assert(x * 1 == x && 1 * x == x && x * 0 == 0 && 0 * x == 0) by (nonlinear_arith);
    lemma_crop_in_range(x as int);
    lemma_crop_in_range(0);
}

/// Every matrix of wrapping 64-bit integers is regular with 1 as the unit,
/// and close to itself.
pub proof fn lemma_i64_matrices_are_regular(m: Seq<Seq<i64>>)
    ensures
        regular(m, 1i64),
        absorbed_by_zero(m),
        self_close(m),
        zero_is_neutral_for(0i64),
{
    assert forall|i: int, j: int| 0 <= i < m.len() && 0 <= j < m[i].len() implies {
        &&& zero_absorbs(#[trigger] m[i][j])
        &&& zero_is_neutral_for(m[i][j])
        &&& is_unit_for(1i64, m[i][j])
        &&& m[i][j].spec_close(m[i][j])
    } by {
        lemma_i64_arithmetic(m[i][j]);
    }
    lemma_i64_arithmetic(0i64);
}

/// With the identity on the right, the running sum of entry (i, j) is zero
/// until term `j` has been added and `a[i][j]` from then on.
proof fn lemma_dot_prefix_identity_right<T: Scalar>(a: Seq<Seq<T>>, one: T, i: int, j: int, k: nat)
    requires
        is_square(a, a.len()),
        0 <= i < a.len(),
        0 <= j < a.len(),
        k <= a.len(),
        regular(a, one),
        zero_is_neutral_for(T::spec_zero()),
    ensures
        dot_prefix(a, identity(a.len(), one), i, j, k) == if k <= j {
            T::spec_zero()
        } else {
            a[i][j]
        },
    decreases k,
{
    if k > 0 {
        lemma_dot_prefix_identity_right(a, one, i, j, (k - 1) as nat);
        let unit = identity(a.len(), one);
        assert(unit[k - 1][j] == if k - 1 == j { one } else { T::spec_zero() });
        assert(zero_absorbs(a[i][k - 1]));
        assert(zero_absorbs(a[i][j]));
    }
}

/// With the identity on the left, the running sum of entry (i, j) is zero
/// until term `i` has been added and `a[i][j]` from then on.
proof fn lemma_dot_prefix_identity_left<T: Scalar>(a: Seq<Seq<T>>, one: T, i: int, j: int, k: nat)
    requires
        is_square(a, a.len()),
        0 <= i < a.len(),
        0 <= j < a.len(),
        k <= a.len(),
        regular(a, one),
        zero_is_neutral_for(T::spec_zero()),
    ensures
        dot_prefix(identity(a.len(), one), a, i, j, k) == if k <= i {
            T::spec_zero()
        } else {
            a[i][j]
        },
    decreases k,
{
    if k > 0 {
        lemma_dot_prefix_identity_left(a, one, i, j, (k - 1) as nat);
        let unit = identity(a.len(), one);
        assert(unit[i][k - 1] == if i == k - 1 { one } else { T::spec_zero() });
        assert(zero_absorbs(a[k - 1][j]));
        assert(zero_absorbs(a[i][j]));
    }
}

/// Against the zero matrix on the right, every running sum is zero.
proof fn lemma_dot_prefix_zero_right<T: Scalar>(a: Seq<Seq<T>>, i: int, j: int, k: nat)
    requires
        is_square(a, a.len()),
        0 <= i < a.len(),
        0 <= j < a.len(),
        k <= a.len(),
        absorbed_by_zero(a),
        zero_is_neutral_for(T::spec_zero()),
    ensures
        dot_prefix(a, zero_matrix(a.len()), i, j, k) == T::spec_zero(),
    decreases k,
{
    if k > 0 {
        lemma_dot_prefix_zero_right(a, i, j, (k - 1) as nat);
        let z = zero_matrix::<T>(a.len());
        assert(z[k - 1][j] == T::spec_zero());
        assert(zero_absorbs(a[i][k - 1]));
    }
}

/// Against the zero matrix on the left, every running sum is zero.
proof fn lemma_dot_prefix_zero_left<T: Scalar>(b: Seq<Seq<T>>, i: int, j: int, k: nat)
    requires
        is_square(b, b.len()),
        0 <= i < b.len(),
        0 <= j < b.len(),
        k <= b.len(),
        absorbed_by_zero(b),
        zero_is_neutral_for(T::spec_zero()),
    ensures
        dot_prefix(zero_matrix(b.len()), b, i, j, k) == T::spec_zero(),
    decreases k,
{
    if k > 0 {
        lemma_dot_prefix_zero_left(b, i, j, (k - 1) as nat);
        let z = zero_matrix::<T>(b.len());
        assert(z[i][k - 1] == T::spec_zero());
        assert(zero_absorbs(b[k - 1][j]));
    }
}

/// The product has as many rows as `a`, each of that length.
pub proof fn law_product_is_square<T: Scalar>(a: Seq<Seq<T>>, b: Seq<Seq<T>>)
    ensures
        is_square(product(a, b), a.len()),
{
}

/// Both multipliers return `product(a, b)`, so comparing the result of one
/// with the result of the other compares the product with itself: they agree
/// exactly when every entry of the product is close to itself.
pub proof fn law_multipliers_agree<T: Scalar>(a: Seq<Seq<T>>, b: Seq<Seq<T>>)
    ensures
        all_close(product(a, b), product(a, b)) <==> self_close(product(a, b)),
{
}

/// Multiplying a square matrix by the identity of its size, on either side,
/// gives the matrix back, entry for entry, where the entries are regular and
/// zero plus zero is zero. Compared with the matrix, the result passes
/// exactly when the matrix is close to itself.
pub proof fn law_identity<T: Scalar>(a: Seq<Seq<T>>, one: T)
    requires
        is_square(a, a.len()),
        regular(a, one),
        zero_is_neutral_for(T::spec_zero()),
    ensures
        product(a, identity(a.len(), one)) == a,
        product(identity(a.len(), one), a) == a,
        self_close(a) ==> all_close(product(a, identity(a.len(), one)), a),
        self_close(a) ==> all_close(product(identity(a.len(), one), a), a),
{
    let n = a.len();
    let unit = identity(n, one);
    let p = product(a, unit);
    assert forall|i: int| 0 <= i < n implies #[trigger] p[i] == a[i] by {
        assert forall|j: int| 0 <= j < n implies #[trigger] p[i][j] == a[i][j] by {
            lemma_dot_prefix_identity_right(a, one, i, j, n);
        }
        assert(p[i] =~= a[i]);
    }
    assert(p =~= a);
    let q = product(unit, a);
    assert forall|i: int| 0 <= i < n implies #[trigger] q[i] == a[i] by {
        assert forall|j: int| 0 <= j < n implies #[trigger] q[i][j] == a[i][j] by {
            lemma_dot_prefix_identity_left(a, one, i, j, n);
        }
        assert(q[i] =~= a[i]);
    }
    assert(q =~= a);
}

/// Multiplying a square matrix by the zero matrix of its size, on either
/// side, gives the zero matrix, where zero absorbs the entries and zero plus
/// zero is zero.
pub proof fn law_zero<T: Scalar>(a: Seq<Seq<T>>)
    requires
        is_square(a, a.len()),
        absorbed_by_zero(a),
        zero_is_neutral_for(T::spec_zero()),
    ensures
        product(a, zero_matrix(a.len())) == zero_matrix::<T>(a.len()),
        product(zero_matrix(a.len()), a) == zero_matrix::<T>(a.len()),
{
    let n = a.len();
    let z = zero_matrix::<T>(n);
    let right = product(a, z);
    let left = product(z, a);
    assert forall|i: int| 0 <= i < n implies #[trigger] right[i] == z[i] by {
        assert forall|j: int| 0 <= j < n implies #[trigger] right[i][j] == z[i][j] by {
            lemma_dot_prefix_zero_right(a, i, j, n);
        }
        assert(right[i] =~= z[i]);
    }
    assert forall|i: int| 0 <= i < n implies #[trigger] left[i] == z[i] by {
        assert forall|j: int| 0 <= j < n implies #[trigger] left[i][j] == z[i][j] by {
            lemma_dot_prefix_zero_left(a, i, j, n);
        }
        assert(left[i] =~= z[i]);
    }
    assert(right =~= z);
    assert(left =~= z);
}

/// For matrices of wrapping 64-bit integers the laws hold of every operand:
/// the two multipliers agree, the identity gives a square matrix back, and the
/// zero matrix gives zero.
pub proof fn law_wrapping_integers(a: Seq<Seq<i64>>, b: Seq<Seq<i64>>)
    requires
        is_square(a, a.len()),
    ensures
        all_close(product(a, b), product(a, b)),
        product(a, identity(a.len(), 1i64)) == a,
        product(identity(a.len(), 1i64), a) == a,
        product(a, zero_matrix(a.len())) == zero_matrix::<i64>(a.len()),
        product(zero_matrix(a.len()), a) == zero_matrix::<i64>(a.len()),
{
    lemma_i64_matrices_are_regular(a);
    lemma_i64_matrices_are_regular(product(a, b));
    law_multipliers_agree(a, b);
    law_identity(a, 1i64);
    law_zero(a);
}

} // verus!
