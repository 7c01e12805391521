//! Seed derivation and domain separation for key generation in a
//! module-lattice key-encapsulation mechanism.
//!
//! One entropy sample is expanded into a public seed and a noise seed. The
//! noise seed, together with a counter that never repeats, yields the secret
//! noise vector; the public seed yields the public matrix in either
//! orientation. The cryptographic primitives are passed in by the caller.
pub mod laws;
pub mod params;
pub mod poly;
pub mod state;
