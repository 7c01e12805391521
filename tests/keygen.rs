use core::num::NonZeroU32;

use kyber_keygen::params::{KYBER_ETA1, KYBER_K, KYBER_N, KYBER_SYMBYTES};
use kyber_keygen::poly::{Poly, Polymat, Polyvec};
use kyber_keygen::state::{split_seeds, GenState, KyberError};
use rand_core::{CryptoRng, RngCore};

const Q: i16 = 3329;

/// Deterministic stand-ins for the scheme's primitives.
fn stub_hash_g(input: &[u8; KYBER_SYMBYTES]) -> Vec<u8> {
    (0..2 * KYBER_SYMBYTES)
        .map(|k| input[k % KYBER_SYMBYTES] ^ ((k as u8).wrapping_mul(7).wrapping_add(1)))
        .collect()
}

fn short_hash_g(input: &[u8; KYBER_SYMBYTES]) -> Vec<u8> {
    let mut v = stub_hash_g(input);
    v.pop();
    v
}

fn stub_getnoise(seed: &[u8; KYBER_SYMBYTES], nonce: u8) -> Poly {
    let mut p = Poly { coeffs: [0; KYBER_N] };
    for c in 0..KYBER_N {
        let v = seed[c % KYBER_SYMBYTES] as i16 + nonce as i16 * 3 + c as i16;
        p.coeffs[c] = v % 5 - 2;
    }
    p
}

fn stub_uniform(seed: &[u8; KYBER_SYMBYTES], x: u8, y: u8) -> Poly {
    let mut p = Poly { coeffs: [0; KYBER_N] };
    for c in 0..KYBER_N {
        let v = seed[c % KYBER_SYMBYTES] as i32 * 31 + x as i32 * 7 + y as i32 * 13 + c as i32;
        p.coeffs[c] = (v % Q as i32) as i16;
    }
    p
}

fn stub_ntt(p: Poly) -> Poly {
    let mut r = Poly { coeffs: [0; KYBER_N] };
    for c in 0..KYBER_N {
        r.coeffs[c] = p.coeffs[KYBER_N - 1 - c] + 100;
    }
    r
}

/// The inverse of `stub_ntt`.
fn stub_invntt(p: &Poly) -> Poly {
    let mut r = Poly { coeffs: [0; KYBER_N] };
    for c in 0..KYBER_N {
        r.coeffs[KYBER_N - 1 - c] = p.coeffs[c] - 100;
    }
    r
}

/// A generator that yields a fixed byte, or fails.
struct FixedRng {
    byte: u8,
    fail: bool,
}

impl RngCore for FixedRng {
    fn next_u32(&mut self) -> u32 {
        u32::from_le_bytes([self.byte; 4])
    }

    fn next_u64(&mut self) -> u64 {
        u64::from_le_bytes([self.byte; 8])
    }

    fn fill_bytes(&mut self, dest: &mut [u8]) {
        for b in dest.iter_mut() {
            *b = self.byte;
        }
    }

    fn try_fill_bytes(&mut self, dest: &mut [u8]) -> Result<(), rand_core::Error> {
        if self.fail {
            return Err(rand_core::Error::from(NonZeroU32::new(rand_core::Error::CUSTOM_START).unwrap()));
        }
        self.fill_bytes(dest);
        Ok(())
    }
}

impl CryptoRng for FixedRng {}

fn expected_seeds(entropy: &[u8; KYBER_SYMBYTES]) -> ([u8; KYBER_SYMBYTES], [u8; KYBER_SYMBYTES]) {
    let g = stub_hash_g(entropy);
    let mut a = [0u8; KYBER_SYMBYTES];
    let mut b = [0u8; KYBER_SYMBYTES];
    a.copy_from_slice(&g[..KYBER_SYMBYTES]);
    b.copy_from_slice(&g[KYBER_SYMBYTES..]);
    (a, b)
}

fn fresh(byte: u8) -> GenState {
    GenState::from_entropy(&[byte; KYBER_SYMBYTES], stub_hash_g).unwrap()
}

#[test]
fn split_seeds_takes_the_two_halves() {
    let buf: Vec<u8> = (0..64u8).collect();
    let (a, b) = split_seeds(&buf).unwrap();
    let want_a: Vec<u8> = (0..32u8).collect();
    let want_b: Vec<u8> = (32..64u8).collect();
    assert_eq!(a.to_vec(), want_a);
    assert_eq!(b.to_vec(), want_b);
}

#[test]
fn split_seeds_rejects_wrong_lengths() {
    assert_eq!(split_seeds(&[0u8; 63]), Err(KyberError::RandomBytesGeneration));
    assert_eq!(split_seeds(&[0u8; 65]), Err(KyberError::RandomBytesGeneration));
    assert_eq!(split_seeds(&[]), Err(KyberError::RandomBytesGeneration));
}

#[test]
fn zero_entropy_gives_expected_seeds() {
    let s = fresh(0);
    let mut want_public = [0u8; KYBER_SYMBYTES];
    let mut want_noise = [0u8; KYBER_SYMBYTES];
    for k in 0..KYBER_SYMBYTES {
        want_public[k] = (k as u8).wrapping_mul(7).wrapping_add(1);
        want_noise[k] = ((k + KYBER_SYMBYTES) as u8).wrapping_mul(7).wrapping_add(1);
    }
    assert_eq!(s.public_seed(), want_public);
    assert_eq!(s.noise_seed(), want_noise);
    assert_eq!(s.public_seed()[0], 1);
    assert_eq!(s.noise_seed()[0], 225);
    assert_eq!(s.counter(), 0);
}

#[test]
fn short_expansion_is_rejected() {
    let r = GenState::from_entropy(&[0u8; KYBER_SYMBYTES], short_hash_g);
    assert_eq!(r.unwrap_err(), KyberError::RandomBytesGeneration);
}

#[test]
fn new_draws_from_the_generator() {
    let mut rng = FixedRng { byte: 9, fail: false };
    let s = GenState::new(&mut rng, stub_hash_g).unwrap();
    let (a, b) = expected_seeds(&[9u8; KYBER_SYMBYTES]);
    assert_eq!(s.public_seed(), a);
    assert_eq!(s.noise_seed(), b);
    assert_eq!(s.counter(), 0);
}

#[test]
fn new_reports_a_failing_generator() {
    let mut rng = FixedRng { byte: 0, fail: true };
    let r = GenState::new(&mut rng, stub_hash_g);
    assert_eq!(r.unwrap_err(), KyberError::RandomBytesGeneration);
}

#[test]
fn construction_is_deterministic() {
    let s1 = fresh(42);
    let s2 = fresh(42);
    assert_eq!(s1.public_seed(), s2.public_seed());
    assert_eq!(s1.noise_seed(), s2.noise_seed());
    assert_eq!(s1.counter(), s2.counter());
}

#[test]
fn different_entropy_gives_four_distinct_seeds() {
    let s1 = fresh(1);
    let s2 = fresh(2);
    let seeds = [s1.public_seed(), s1.noise_seed(), s2.public_seed(), s2.noise_seed()];
    for x in 0..4 {
        for y in 0..4 {
            if x != y {
                assert_ne!(seeds[x], seeds[y]);
            }
        }
    }
}

#[test]
fn counter_ends_at_rank_after_one_vector() {
    let mut s = fresh(0);
    assert_eq!(s.counter(), 0);
    let _ = s.gen_small_polyvec(stub_getnoise, stub_ntt);
    assert_eq!(s.counter() as usize, KYBER_K);
}

#[test]
fn noise_vector_uses_successive_counters() {
    let mut s = fresh(5);
    let seed = s.noise_seed();
    let v = s.gen_small_polyvec(stub_getnoise, stub_ntt);
    for i in 0..KYBER_K {
        assert_eq!(v.vec[i], stub_ntt(stub_getnoise(&seed, i as u8)));
    }
    assert_eq!(v.vec[1].coeffs[KYBER_N - 1], stub_getnoise(&seed, 1).coeffs[0] + 100);
}

#[test]
fn second_noise_vector_differs() {
    let mut s = fresh(0);
    let seed = s.noise_seed();
    let first = s.gen_small_polyvec(stub_getnoise, stub_ntt);
    let second = s.gen_small_polyvec(stub_getnoise, stub_ntt);
    assert_ne!(first, second);
    assert_eq!(s.counter() as usize, 2 * KYBER_K);
    for i in 0..KYBER_K {
        assert_eq!(second.vec[i], stub_ntt(stub_getnoise(&seed, (KYBER_K + i) as u8)));
    }
}

#[test]
fn noise_vector_is_in_transform_domain() {
    let mut s = fresh(7);
    let v = s.gen_small_polyvec(stub_getnoise, stub_ntt);
    let mut shifted = false;
    for i in 0..KYBER_K {
        let raw = stub_invntt(&v.vec[i]);
        for c in 0..KYBER_N {
            assert!(-KYBER_ETA1 <= raw.coeffs[c] && raw.coeffs[c] <= KYBER_ETA1);
            if v.vec[i].coeffs[c] > KYBER_ETA1 {
                shifted = true;
            }
        }
    }
    assert!(shifted);
}

#[test]
fn matrix_expansion_is_idempotent() {
    let a1 = fresh(3).gen_matrix_a(stub_uniform);
    let a2 = fresh(3).gen_matrix_a(stub_uniform);
    assert_eq!(a1, a2);
    let t1 = fresh(3).gen_matrix_at(stub_uniform);
    let t2 = fresh(3).gen_matrix_at(stub_uniform);
    assert_eq!(t1, t2);
}

#[test]
fn transposed_matrix_is_the_transpose() {
    let a = fresh(4).gen_matrix_a(stub_uniform);
    let at = fresh(4).gen_matrix_at(stub_uniform);
    for i in 0..KYBER_K {
        for j in 0..KYBER_K {
            assert_eq!(at.vec[i].vec[j], a.vec[j].vec[i]);
        }
    }
    assert_ne!(a.vec[0].vec[1], a.vec[1].vec[0]);
}

#[test]
fn matrix_entries_follow_index_order() {
    let s = fresh(0);
    let seed = s.public_seed();
    let a = s.gen_matrix_a(stub_uniform);
    for i in 0..KYBER_K {
        for j in 0..KYBER_K {
            assert_eq!(a.vec[i].vec[j], stub_uniform(&seed, i as u8, j as u8));
        }
    }
    // seed[0] is 1 for zero entropy: 1 * 31 + 1 * 7 + 2 * 13 + 0
    assert_eq!(a.vec[1].vec[2].coeffs[0], 64);
}

#[test]
fn end_to_end_with_zero_entropy() {
    let mut rng = FixedRng { byte: 0, fail: false };
    let mut s = GenState::new(&mut rng, stub_hash_g).unwrap();
    let (want_public, want_noise) = expected_seeds(&[0u8; KYBER_SYMBYTES]);
    assert_eq!(s.public_seed(), want_public);
    assert_eq!(s.noise_seed(), want_noise);

    let v = s.gen_small_polyvec(stub_getnoise, stub_ntt);
    let mut want_v = Polyvec::new();
    for i in 0..KYBER_K {
        want_v.vec[i] = stub_ntt(stub_getnoise(&want_noise, i as u8));
    }
    assert_eq!(v, want_v);
    // noise seed byte 0 is 225, nonce 0, coefficient 0: 225 % 5 - 2 = -2, then shifted by 100
    assert_eq!(v.vec[0].coeffs[KYBER_N - 1], 98);

    let a = fresh(0).gen_matrix_a(stub_uniform);
    let at = fresh(0).gen_matrix_at(stub_uniform);
    let mut want_a = Polymat { vec: [Polyvec::new(); KYBER_K] };
    let mut want_at = Polymat { vec: [Polyvec::new(); KYBER_K] };
    for i in 0..KYBER_K {
        for j in 0..KYBER_K {
            want_a.vec[i].vec[j] = stub_uniform(&want_public, i as u8, j as u8);
            want_at.vec[i].vec[j] = stub_uniform(&want_public, j as u8, i as u8);
        }
    }
    assert_eq!(a, want_a);
    assert_eq!(at, want_at);
}

#[test]
fn new_polys_are_zero() {
    let p = Poly::new();
    assert!(p.coeffs.iter().all(|c| *c == 0));
    let v = Polyvec::new();
    for i in 0..KYBER_K {
        assert_eq!(v.vec[i], p);
    }
}
