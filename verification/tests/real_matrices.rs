use matrix_multiply::compare::matrices_agree;
use matrix_multiply::generate::initialize_matrix;
use matrix_multiply::multiply::{multiply_parallel, multiply_sequential};
use matrix_multiply::scalar::Scalar;
use rand::Rng;

#[derive(Clone, Copy, Debug, PartialEq)]
struct Real(f64);

impl Scalar for Real {
    fn spec_zero() -> Real {
        Real(0.0)
    }

    fn spec_plus(self, rhs: Real) -> Real {
        Real(self.0 + rhs.0)
    }

    fn spec_times(self, rhs: Real) -> Real {
        Real(self.0 * rhs.0)
    }

    fn spec_close(self, rhs: Real) -> bool {
        (self.0 - rhs.0).abs() < 1e-9
    }

    fn zero() -> Real {
        Real::spec_zero()
    }

    fn plus(&self, rhs: &Real) -> Real {
        self.spec_plus(*rhs)
    }

    fn times(&self, rhs: &Real) -> Real {
        self.spec_times(*rhs)
    }

    fn close(&self, rhs: &Real) -> bool {
        self.spec_close(*rhs)
    }
}

fn reals(rows: &[&[f64]]) -> Vec<Vec<Real>> {
    rows.iter().map(|r| r.iter().map(|v| Real(*v)).collect()).collect()
}

fn random_matrix(n: usize) -> Vec<Vec<Real>> {
    initialize_matrix(n, || Real(rand::thread_rng().gen_range(0.0..10.0)))
}

fn real_identity(n: usize) -> Vec<Vec<Real>> {
    (0..n)
        .map(|i| (0..n).map(|j| Real(if i == j { 1.0 } else { 0.0 })).collect())
        .collect()
}

#[test]
fn real_two_by_two_both_paths() {
    let a = reals(&[&[1.0, 2.0], &[3.0, 4.0]]);
    let b = reals(&[&[5.0, 6.0], &[7.0, 8.0]]);
    let expected = reals(&[&[19.0, 22.0], &[43.0, 50.0]]);
    assert_eq!(multiply_sequential(&a, &b), expected);
    assert_eq!(multiply_parallel(&a, &b), expected);
}

#[test]
fn real_one_by_one_both_paths() {
    let a = reals(&[&[3.0]]);
    let b = reals(&[&[4.0]]);
    assert_eq!(multiply_sequential(&a, &b), reals(&[&[12.0]]));
    assert_eq!(multiply_parallel(&a, &b), reals(&[&[12.0]]));
}

#[test]
fn real_sum_is_accumulated_from_the_left() {
    let a = reals(&[&[1e16, 1.0, 1.0], &[0.0, 0.0, 0.0], &[0.0, 0.0, 0.0]]);
    let b = reals(&[&[1.0, 0.0, 0.0], &[1.0, 0.0, 0.0], &[1.0, 0.0, 0.0]]);
    let expected = (1e16_f64 + 1.0) + 1.0;
    assert_eq!(multiply_sequential(&a, &b)[0][0], Real(expected));
    assert_eq!(multiply_parallel(&a, &b)[0][0], Real(expected));
}

#[test]
fn real_random_matrices_agree_on_both_paths() {
    let a = random_matrix(40);
    let b = random_matrix(40);
    let sequential = multiply_sequential(&a, &b);
    let parallel = multiply_parallel(&a, &b);
    assert!(matrices_agree(&sequential, &parallel));
    for i in 0..40 {
        for j in 0..40 {
            assert_eq!(sequential[i][j].0.to_bits(), parallel[i][j].0.to_bits());
        }
    }
}

#[test]
fn real_random_entries_lie_in_range() {
    let m = random_matrix(25);
    assert_eq!(m.len(), 25);
    for row in &m {
        assert_eq!(row.len(), 25);
        for v in row {
            assert!(0.0 <= v.0 && v.0 < 10.0);
        }
    }
}

#[test]
fn real_identity_gives_the_matrix_back() {
    let a = random_matrix(16);
    let id = real_identity(16);
    assert!(matrices_agree(&multiply_sequential(&a, &id), &a));
    assert!(matrices_agree(&multiply_parallel(&a, &id), &a));
}

#[test]
fn real_zero_matrix_gives_zero() {
    let a = random_matrix(16);
    let zero = vec![vec![Real(0.0); 16]; 16];
    assert!(matrices_agree(&multiply_sequential(&a, &zero), &zero));
    assert!(matrices_agree(&multiply_parallel(&a, &zero), &zero));
}

#[test]
fn real_sequential_path_is_bit_identical_on_repeat() {
    let a = random_matrix(20);
    let b = random_matrix(20);
    let first = multiply_sequential(&a, &b);
    let second = multiply_sequential(&a, &b);
    for i in 0..20 {
        for j in 0..20 {
            assert_eq!(first[i][j].0.to_bits(), second[i][j].0.to_bits());
        }
    }
}

#[test]
fn real_comparison_uses_the_tolerance() {
    let a = reals(&[&[1.0, 2.0], &[3.0, 4.0]]);
    let near = reals(&[&[1.0, 2.0], &[3.0, 4.0 + 1e-10]]);
    let far = reals(&[&[1.0, 2.0], &[3.0, 4.0 + 1e-8]]);
    assert!(matrices_agree(&a, &near));
    assert!(!matrices_agree(&a, &far));
}

#[test]
fn real_comparison_rejects_not_a_number() {
    let a = reals(&[&[f64::NAN]]);
    assert!(!matrices_agree(&a, &a));
}
