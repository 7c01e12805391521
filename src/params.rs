use vstd::prelude::*;

verus! {

/// Rank of the module lattice: the vector length and the matrix dimension.
pub const KYBER_K: usize = 3;

/// Length in bytes of each seed.
pub const KYBER_SYMBYTES: usize = 32;

/// Number of coefficients of a polynomial.
pub const KYBER_N: usize = 256;

/// Bound on the magnitude of a secret noise coefficient.
pub const KYBER_ETA1: i16 = 2;

} // verus!
