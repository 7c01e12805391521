use vstd::prelude::*;

use crate::params::{KYBER_K, KYBER_N};

verus! {

/// One polynomial: its coefficients, in whichever domain the producer states.
#[derive(Clone, Copy, Debug, PartialEq, Eq)]
pub struct Poly {
    pub coeffs: [i16; KYBER_N],
}

/// A vector of `KYBER_K` polynomials.
#[derive(Clone, Copy, Debug, PartialEq, Eq)]
pub struct Polyvec {
    pub vec: [Poly; KYBER_K],
}

/// A `KYBER_K` by `KYBER_K` matrix of polynomials, stored row by row.
#[derive(Clone, Copy, Debug, PartialEq, Eq)]
pub struct Polymat {
    pub vec: [Polyvec; KYBER_K],
}

impl Poly {
    /// Every coefficient is zero.
    pub open spec fn is_zero(self) -> bool {
        forall|c: int| 0 <= c < KYBER_N ==> self.coeffs[c] == 0
    }

    /// The zero polynomial.
    pub fn new() -> (r: Poly)
        ensures
            r.is_zero(),
    {
        Poly { coeffs: [0i16; KYBER_N] }
    }
}

impl Polyvec {
    /// The vector whose entries are all the zero polynomial.
    pub fn new() -> (r: Polyvec)
        ensures
            forall|i: int| 0 <= i < KYBER_K ==> r.vec[i].is_zero(),
    {
        let z = Poly::new();
        Polyvec { vec: [z; KYBER_K] }
    }
}

} // verus!
