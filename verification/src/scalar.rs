//! The arithmetic a matrix entry has to offer.

use vstd::prelude::*;

verus! {

/// An entry of a matrix: a value with a zero, an addition, a multiplication
/// and a notion of being close to another value.
///
/// Each operation is a total function of its operands, named by a spec
/// function. Nothing more is asked: addition need not be associative, so the
/// order in which a sum is accumulated is part of every contract built on
/// this trait.
///
/// The contracts of the four methods are proved for each implementation that
/// is verified with this crate. Code built without the verifier sees the four
/// model functions as ordinary functions to implement: there an
/// implementation writes each operation once, in the model function, and has
/// the method of the same name return what that function returns.
pub trait Scalar: Sized {
    /// The value a sum starts from.
    spec fn spec_zero() -> Self;

    /// What `plus` returns.
    spec fn spec_plus(self, rhs: Self) -> Self;

    /// What `times` returns.
    spec fn spec_times(self, rhs: Self) -> Self;

    /// What `close` returns.
    spec fn spec_close(self, rhs: Self) -> bool;

    fn zero() -> (r: Self)
        ensures
            r == Self::spec_zero(),
    ;

    fn plus(&self, rhs: &Self) -> (r: Self)
        ensures
            r == self.spec_plus(*rhs),
    ;

    fn times(&self, rhs: &Self) -> (r: Self)
        ensures
            r == self.spec_times(*rhs),
    ;

    /// Whether `self` and `rhs` are near enough to count as the same result.
    fn close(&self, rhs: &Self) -> (r: bool)
        ensures
            r == self.spec_close(*rhs),
    ;
}

/// Integers modulo 2^64 in two's complement: sums and products wrap, and two
/// values are close exactly when they are equal.
impl Scalar for i64 {
    open spec fn spec_zero() -> i64 {
        0i64
    }

    open spec fn spec_plus(self, rhs: i64) -> i64 {
        vstd::wrapping::i64_specs::wrapping_add(self, rhs)
    }

    open spec fn spec_times(self, rhs: i64) -> i64 {
        vstd::wrapping::i64_specs::wrapping_mul(self, rhs)
    }

    open spec fn spec_close(self, rhs: i64) -> bool {
        self == rhs
    }

    fn zero() -> (r: i64) {
        0i64
    }

    fn plus(&self, rhs: &i64) -> (r: i64) {
        self.wrapping_add(*rhs)
    }

    fn times(&self, rhs: &i64) -> (r: i64) {
        self.wrapping_mul(*rhs)
    }

    fn close(&self, rhs: &i64) -> (r: bool) {
        *self == *rhs
    }
}

} // verus!
