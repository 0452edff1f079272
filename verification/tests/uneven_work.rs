use matrix_multiply::multiply::{multiply_parallel, multiply_row, multiply_sequential};
use matrix_multiply::scalar::Scalar;
use std::hint::black_box;

/// An integer whose product takes the longer the larger its left operand is,
/// so that the rows of a product finish out of order.
#[derive(Clone, Copy, Debug, PartialEq)]
struct Uneven(i64);

impl Scalar for Uneven {
    fn spec_zero() -> Uneven {
        Uneven(0)
    }

    fn spec_plus(self, rhs: Uneven) -> Uneven {
        Uneven(self.0.wrapping_add(rhs.0))
    }

    fn spec_times(self, rhs: Uneven) -> Uneven {
        let mut spin: u64 = 0;
        for step in 0..(self.0.unsigned_abs() * 200) {
            spin = black_box(spin.wrapping_add(step));
        }
        black_box(spin);
        Uneven(self.0.wrapping_mul(rhs.0))
    }

    fn spec_close(self, rhs: Uneven) -> bool {
        self.0 == rhs.0
    }

    fn zero() -> Uneven {
        Uneven::spec_zero()
    }

    fn plus(&self, rhs: &Uneven) -> Uneven {
        self.spec_plus(*rhs)
    }

    fn times(&self, rhs: &Uneven) -> Uneven {
        self.spec_times(*rhs)
    }

    fn close(&self, rhs: &Uneven) -> bool {
        self.spec_close(*rhs)
    }
}

#[test]
fn rows_keep_their_place_when_early_rows_finish_last() {
    let n: usize = 24;
    let a: Vec<Vec<Uneven>> = (0..n)
        .map(|i| (0..n).map(|_| Uneven((n - i) as i64)).collect())
        .collect();
    let b: Vec<Vec<Uneven>> = (0..n)
        .map(|k| (0..n).map(|j| Uneven((k + j) as i64)).collect())
        .collect();
    let parallel = multiply_parallel(&a, &b);
    assert_eq!(parallel.len(), n);
    for i in 0..n {
        for j in 0..n {
            let column: i64 = (0..n).map(|k| (k + j) as i64).sum();
            assert_eq!(parallel[i][j], Uneven((n - i) as i64 * column));
        }
    }
    assert_eq!(parallel, multiply_sequential(&a, &b));
    assert_eq!(parallel[n - 1], multiply_row(&a, &b, n - 1));
}
