use vstd::prelude::*;

use rand_core::{CryptoRng, RngCore};

use crate::params::{KYBER_K, KYBER_SYMBYTES};
use crate::poly::{Poly, Polymat, Polyvec};

verus! {

/// Why key generation could not start.
#[derive(Clone, Copy, Debug, PartialEq, Eq, Structural)]
pub enum KyberError {
    /// The entropy source failed, or seed expansion did not yield two seeds.
    RandomBytesGeneration,
}

/// The error type of rand_core's generators, carried through unopened.
#[verifier::external_type_specification]
#[verifier::external_body]
pub struct ExRandError(rand_core::Error);

/// Relies on rand_core::RngCore::try_fill_bytes to fill a seed-sized buffer
/// from the caller's generator, or to report that it could not.
#[verifier::external_body]
fn randombytes<R: RngCore + CryptoRng>(rng: &mut R) -> (r: Result<[u8; KYBER_SYMBYTES], rand_core::Error>) {
    let mut buf = [0u8; KYBER_SYMBYTES];
    match rng.try_fill_bytes(&mut buf) {
        Ok(()) => Ok(buf),
        Err(e) => Err(e),
    }
}

/// Splits a buffer of two seeds into its first and second halves; the
/// buffer must be exactly two seeds long.
pub fn split_seeds(buf: &[u8]) -> (r: Result<([u8; KYBER_SYMBYTES], [u8; KYBER_SYMBYTES]), KyberError>)
    ensures
        r is Ok <==> buf@.len() == 2 * KYBER_SYMBYTES,
        r matches Ok((a, b)) ==> a@ == buf@.subrange(0, KYBER_SYMBYTES as int) && b@
            == buf@.subrange(KYBER_SYMBYTES as int, 2 * KYBER_SYMBYTES as int),
        r matches Err(e) ==> e == KyberError::RandomBytesGeneration,
{
    if buf.len() != 2 * KYBER_SYMBYTES {
        return Err(KyberError::RandomBytesGeneration);
    }
    let mut a = [0u8; KYBER_SYMBYTES];
    let mut b = [0u8; KYBER_SYMBYTES];
    let mut i: usize = 0;
    while i < KYBER_SYMBYTES
        invariant
            buf@.len() == 2 * KYBER_SYMBYTES,
            i <= KYBER_SYMBYTES,
            forall|k: int| 0 <= k < i ==> a@[k] == buf@[k],
            forall|k: int| 0 <= k < i ==> b@[k] == buf@[KYBER_SYMBYTES + k],
        decreases KYBER_SYMBYTES - i,
    {
        a[i] = buf[i];
        b[i] = buf[KYBER_SYMBYTES + i];
        i = i + 1;
    }
    assert(a@ =~= buf@.subrange(0, KYBER_SYMBYTES as int));
    assert(b@ =~= buf@.subrange(KYBER_SYMBYTES as int, 2 * KYBER_SYMBYTES as int));
    Ok((a, b))
}

/// `p` is the noise entry that `getnoise` and `ntt` give for `seed` and the
/// counter value `nonce`: a noise polynomial sampled under that value, moved
/// into the transform domain.
pub open spec fn is_noise_entry<N, T>(getnoise: N, ntt: T, seed: [u8; KYBER_SYMBYTES], nonce: int, p: Poly) -> bool where
    N: Fn(&[u8; KYBER_SYMBYTES], u8) -> Poly,
    T: Fn(Poly) -> Poly,
 {
    exists|raw: Poly| #[trigger] getnoise.ensures((&seed, nonce as u8), raw) && ntt.ensures((raw,), p)
}

/// `v` is the noise vector drawn from `seed` with the counter at `start`:
/// entry `i` is the noise entry of the counter value `start + i`.
pub open spec fn is_noise_vector_of<N, T>(getnoise: N, ntt: T, v: Polyvec, seed: [u8; KYBER_SYMBYTES], start: int) -> bool where
    N: Fn(&[u8; KYBER_SYMBYTES], u8) -> Poly,
    T: Fn(Poly) -> Poly,
 {
    forall|i: int| 0 <= i < KYBER_K ==> is_noise_entry(getnoise, ntt, seed, start + i, #[trigger] v.vec[i])
}

/// `p` is entry (`i`, `j`) of the public matrix that `uniform` expands from
/// `seed`: the uniform polynomial of the index pair (`i`, `j`), or (`j`, `i`)
/// when `transposed`.
pub open spec fn is_matrix_entry<U>(uniform: U, seed: [u8; KYBER_SYMBYTES], transposed: bool, i: int, j: int, p: Poly) -> bool where
    U: Fn(&[u8; KYBER_SYMBYTES], u8, u8) -> Poly,
 {
    if transposed {
        uniform.ensures((&seed, j as u8, i as u8), p)
    } else {
        uniform.ensures((&seed, i as u8, j as u8), p)
    }
}

/// `m` is the whole public matrix that `uniform` expands from `seed` in the
/// given orientation.
pub open spec fn is_matrix_of<U>(uniform: U, m: Polymat, seed: [u8; KYBER_SYMBYTES], transposed: bool) -> bool where
    U: Fn(&[u8; KYBER_SYMBYTES], u8, u8) -> Poly,
 {
    forall|i: int, j: int|
        0 <= i < KYBER_K && 0 <= j < KYBER_K ==> is_matrix_entry(
            uniform,
            seed,
            transposed,
            i,
            j,
            #[trigger] m.vec[i].vec[j],
        )
}

/// Expands the public matrix from `seed`. The orientation only decides in
/// which order the indices reach the sampler, so the two orientations are
/// transposes of each other by construction.
fn gen_matrix<U>(seed: &[u8; KYBER_SYMBYTES], transposed: bool, uniform: U) -> (r: Polymat) where
    U: Fn(&[u8; KYBER_SYMBYTES], u8, u8) -> Poly,

    requires
        forall|s: &[u8; KYBER_SYMBYTES], x: u8, y: u8| #[trigger] uniform.requires((s, x, y)),
    ensures
        is_matrix_of(uniform, r, *seed, transposed),
{
    let mut a = Polymat { vec: [Polyvec::new(); KYBER_K] };
    let mut i: usize = 0;
    while i < KYBER_K
        invariant
            i <= KYBER_K,
            forall|s: &[u8; KYBER_SYMBYTES], x: u8, y: u8| #[trigger] uniform.requires((s, x, y)),
            forall|ii: int, j: int|
                0 <= ii < i && 0 <= j < KYBER_K ==> is_matrix_entry(
                    uniform,
                    *seed,
                    transposed,
                    ii,
                    j,
                    #[trigger] a.vec[ii].vec[j],
                ),
        decreases KYBER_K - i,
    {
        let mut row = Polyvec::new();
        let mut j: usize = 0;
        while j < KYBER_K
            invariant
                i < KYBER_K,
                j <= KYBER_K,
                forall|s: &[u8; KYBER_SYMBYTES], x: u8, y: u8| #[trigger] uniform.requires((s, x, y)),
                forall|jj: int|
                    0 <= jj < j ==> is_matrix_entry(
                        uniform,
                        *seed,
                        transposed,
                        i as int,
                        jj,
                        #[trigger] row.vec[jj],
                    ),
            decreases KYBER_K - j,
        {
            let p = if transposed {
                uniform(seed, j as u8, i as u8)
            } else {
                uniform(seed, i as u8, j as u8)
            };
            row.vec[j] = p;
            j = j + 1;
        }
        a.vec[i] = row;
        i = i + 1;
    }
    a
}

/// The seed pair of one key-generation attempt and the counter that
/// separates its noise draws.
#[derive(Debug)]
pub struct GenState {
    publicseed: [u8; KYBER_SYMBYTES],
    noiseseed: [u8; KYBER_SYMBYTES],
    nonce: u8,
}

impl GenState {
    /// The seed from which the public matrix is expanded.
    pub closed spec fn spec_public_seed(self) -> [u8; KYBER_SYMBYTES] {
        self.publicseed
    }

    /// The seed from which the secret noise is expanded.
    pub closed spec fn spec_noise_seed(self) -> [u8; KYBER_SYMBYTES] {
        self.noiseseed
    }

    /// The next unused noise counter value.
    pub closed spec fn spec_counter(self) -> nat {
        self.nonce as nat
    }

    /// `self` holds the two halves of the seed expansion `g` as its public
    /// and noise seeds, and no noise has been drawn yet.
    pub open spec fn splits(self, g: Seq<u8>) -> bool {
        &&& g.len() == 2 * KYBER_SYMBYTES
        &&& self.spec_public_seed()@ == g.subrange(0, KYBER_SYMBYTES as int)
        &&& self.spec_noise_seed()@ == g.subrange(KYBER_SYMBYTES as int, 2 * KYBER_SYMBYTES as int)
        &&& self.spec_counter() == 0
    }

    /// `self` is a fresh state that the entropy sample `entropy` yields
    /// under the seed expansion `hash_g`.
    pub open spec fn derived_from<G>(self, hash_g: G, entropy: [u8; KYBER_SYMBYTES]) -> bool where
        G: Fn(&[u8; KYBER_SYMBYTES]) -> Vec<u8>,
     {
        exists|g: Vec<u8>| #[trigger] hash_g.ensures((&entropy,), g) && self.splits(g@)
    }

    /// Builds the state that a given entropy sample yields: it is expanded
    /// once by `hash_g`, and the output is split into the public seed and the
    /// noise seed. Fails when the expansion is not exactly two seeds long.
    pub fn from_entropy<G>(randbuf: &[u8; KYBER_SYMBYTES], hash_g: G) -> (r: Result<GenState, KyberError>) where
        G: Fn(&[u8; KYBER_SYMBYTES]) -> Vec<u8>,

        requires
            forall|x: &[u8; KYBER_SYMBYTES]| #[trigger] hash_g.requires((x,)),
        ensures
            exists|g: Vec<u8>|
                #[trigger] hash_g.ensures((randbuf,), g) && (match r {
                    Ok(s) => s.splits(g@),
                    Err(e) => g@.len() != 2 * KYBER_SYMBYTES && e
                        == KyberError::RandomBytesGeneration,
                }),
    {
        let buf = hash_g(randbuf);
        match split_seeds(buf.as_slice()) {
            Ok((publicseed, noiseseed)) => Ok(GenState { publicseed, noiseseed, nonce: 0 }),
            Err(e) => Err(e),
        }
    }

    /// Builds a fresh state from one seed-sized draw of `rng`, expanded by
    /// `hash_g`. Fails when the generator cannot supply the bytes, or when
    /// the expansion is not exactly two seeds long.
    pub fn new<R, G>(rng: &mut R, hash_g: G) -> (r: Result<GenState, KyberError>) where
        R: RngCore + CryptoRng,
        G: Fn(&[u8; KYBER_SYMBYTES]) -> Vec<u8>,

        requires
            forall|x: &[u8; KYBER_SYMBYTES]| #[trigger] hash_g.requires((x,)),
        ensures
            r matches Ok(s) ==> exists|e: [u8; KYBER_SYMBYTES]| #[trigger] s.derived_from(hash_g, e),
            r matches Err(e) ==> e == KyberError::RandomBytesGeneration,
    {
        match randombytes(rng) {
            Ok(randbuf) => {
                let r = GenState::from_entropy(&randbuf, hash_g);
                proof {
                    if r is Ok {
                        assert(r->Ok_0.derived_from(hash_g, randbuf));
                    }
                }
                r
            },
            Err(_) => Err(KyberError::RandomBytesGeneration),
        }
    }

    /// Draws the secret noise vector: entry `i` is sampled by `getnoise`
    /// under the counter value `counter + i`, each value used once and in
    /// increasing order, and the whole vector is then moved into the
    /// transform domain by `ntt`. The counter ends `KYBER_K` further on, so a
    /// second call draws from fresh counter values.
    pub fn gen_small_polyvec<N, T>(&mut self, getnoise: N, ntt: T) -> (r: Polyvec) where
        N: Fn(&[u8; KYBER_SYMBYTES], u8) -> Poly,
        T: Fn(Poly) -> Poly,

        requires
            old(self).spec_counter() + KYBER_K <= u8::MAX,
            forall|s: &[u8; KYBER_SYMBYTES], n: u8| #[trigger] getnoise.requires((s, n)),
            forall|p: Poly| #[trigger] ntt.requires((p,)),
        ensures
            final(self).spec_counter() == old(self).spec_counter() + KYBER_K,
            final(self).spec_public_seed() == old(self).spec_public_seed(),
            final(self).spec_noise_seed() == old(self).spec_noise_seed(),
            is_noise_vector_of(getnoise, ntt, r, old(self).spec_noise_seed(), old(self).spec_counter() as int),
    {
        let ghost start = self.nonce as int;
        let mut s = Polyvec::new();
        let mut i: usize = 0;
        while i < KYBER_K
            invariant
                i <= KYBER_K,
                self.nonce == start + i,
                start + KYBER_K <= u8::MAX,
                self.publicseed == old(self).publicseed,
                self.noiseseed == old(self).noiseseed,
                forall|s: &[u8; KYBER_SYMBYTES], n: u8| #[trigger] getnoise.requires((s, n)),
                forall|k: int|
                    0 <= k < i ==> #[trigger] getnoise.ensures((&self.noiseseed, (start + k) as u8), s.vec[k]),
            decreases KYBER_K - i,
        {
            let p = getnoise(&self.noiseseed, self.nonce);
            s.vec[i] = p;
            self.nonce = self.nonce + 1;
            i = i + 1;
        }
        let ghost raw = s;
        let mut i: usize = 0;
        while i < KYBER_K
            invariant
                i <= KYBER_K,
                forall|p: Poly| #[trigger] ntt.requires((p,)),
                forall|k: int| 0 <= k < i ==> #[trigger] ntt.ensures((raw.vec[k],), s.vec[k]),
                forall|k: int| i <= k < KYBER_K ==> #[trigger] s.vec[k] == raw.vec[k],
            decreases KYBER_K - i,
        {
            let p = ntt(s.vec[i]);
            s.vec[i] = p;
            i = i + 1;
        }
        assert forall|k: int| 0 <= k < KYBER_K implies is_noise_entry(getnoise, ntt, self.noiseseed, start + k, #[trigger] s.vec[k]) by {
            assert(getnoise.ensures((&self.noiseseed, (start + k) as u8), raw.vec[k]));
            assert(ntt.ensures((raw.vec[k],), s.vec[k]));
        }
        s
    }

    /// Expands the public matrix from the public seed: entry (`i`, `j`) is
    /// the polynomial that `uniform` samples for the index pair (`i`, `j`).
    pub fn gen_matrix_a<U>(self, uniform: U) -> (r: Polymat) where
        U: Fn(&[u8; KYBER_SYMBYTES], u8, u8) -> Poly,

        requires
            forall|s: &[u8; KYBER_SYMBYTES], x: u8, y: u8| #[trigger] uniform.requires((s, x, y)),
        ensures
            is_matrix_of(uniform, r, self.spec_public_seed(), false),
    {
        gen_matrix(&self.publicseed, false, uniform)
    }

    /// Expands the transpose of the public matrix from the public seed:
    /// entry (`i`, `j`) is the polynomial that `uniform` samples for the
    /// index pair (`j`, `i`).
    pub fn gen_matrix_at<U>(self, uniform: U) -> (r: Polymat) where
        U: Fn(&[u8; KYBER_SYMBYTES], u8, u8) -> Poly,

        requires
            forall|s: &[u8; KYBER_SYMBYTES], x: u8, y: u8| #[trigger] uniform.requires((s, x, y)),
        ensures
            is_matrix_of(uniform, r, self.spec_public_seed(), true),
    {
        gen_matrix(&self.publicseed, true, uniform)
    }

    /// The public seed.
    pub fn public_seed(&self) -> (r: [u8; KYBER_SYMBYTES])
        ensures
            r == self.spec_public_seed(),
    {
        self.publicseed
    }

    /// The noise seed.
    pub fn noise_seed(&self) -> (r: [u8; KYBER_SYMBYTES])
        ensures
            r == self.spec_noise_seed(),
    {
        self.noiseseed
    }

    /// The next unused noise counter value.
    pub fn counter(&self) -> (r: u8)
        ensures
            r == self.spec_counter(),
    {
        self.nonce
    }
}

} // verus!
