//! The bundle of streams that describes one constraint system.

use vstd::prelude::*;

verus! {

/// A rank-1 constraint system as streams: its three matrices, each in
/// column-major and in row-major order, the vectors that go with them, and
/// two lengths for planning.
pub struct R1csStream<SM, SZ, SW> {
    /// Matrix A, column-major.
    pub a_colmaj: SM,
    /// Matrix B, column-major.
    pub b_colmaj: SM,
    /// Matrix C, column-major.
    pub c_colmaj: SM,
    /// Matrix A, row-major.
    pub a_rowmaj: SM,
    /// Matrix B, row-major.
    pub b_rowmaj: SM,
    /// Matrix C, row-major.
    pub c_rowmaj: SM,
    /// The full assignment.
    pub z: SZ,
    /// The witness part of the assignment.
    pub witness: SW,
    /// The product of A and the assignment.
    pub z_a: SZ,
    /// The product of B and the assignment.
    pub z_b: SZ,
    /// The product of C and the assignment.
    pub z_c: SZ,
    /// The number of nonzero entries of the matrices.
    pub nonzero: usize,
    /// The length of the matrices' joint stream.
    pub joint_len: usize,
}

} // verus!
