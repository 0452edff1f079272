//! Dense square matrix multiplication over an abstract scalar, with a
//! single-threaded multiplier, a row-parallel multiplier, an entry-wise
//! comparison and a generator, each proved against one mathematical model.

pub mod scalar;
pub mod matrix;
pub mod multiply;
pub mod compare;
pub mod generate;
pub mod laws;
