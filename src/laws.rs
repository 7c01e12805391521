use vstd::prelude::*;

use crate::params::{KYBER_ETA1, KYBER_K, KYBER_N, KYBER_SYMBYTES};
use crate::poly::{Poly, Polymat, Polyvec};
use crate::state::{is_matrix_of, is_noise_entry, is_noise_vector_of, GenState};

verus! {

/// The seed expansion `hash_g` is a function: one input never yields two
/// outputs.
pub open spec fn hash_is_function<G>(hash_g: G) -> bool where G: Fn(&[u8; KYBER_SYMBYTES]) -> Vec<u8> {
    forall|x: &[u8; KYBER_SYMBYTES], g1: Vec<u8>, g2: Vec<u8>|
        #![trigger hash_g.ensures((x,), g1), hash_g.ensures((x,), g2)]
        hash_g.ensures((x,), g1) && hash_g.ensures((x,), g2) ==> g1@ == g2@
}

/// The matrix-entry sampler `uniform` is a function of the seed and the
/// index pair.
pub open spec fn uniform_is_function<U>(uniform: U) -> bool where U: Fn(&[u8; KYBER_SYMBYTES], u8, u8) -> Poly {
    forall|s: &[u8; KYBER_SYMBYTES], x: u8, y: u8, p: Poly, q: Poly|
        #![trigger uniform.ensures((s, x, y), p), uniform.ensures((s, x, y), q)]
        uniform.ensures((s, x, y), p) && uniform.ensures((s, x, y), q) ==> p == q
}

/// Construction is deterministic: where the seed expansion is a function,
/// two states built from the same entropy sample hold the same public seed,
/// the same noise seed and the same counter.
pub proof fn lemma_construction_deterministic<G>(
    hash_g: G,
    entropy: [u8; KYBER_SYMBYTES],
    s1: GenState,
    s2: GenState,
) where G: Fn(&[u8; KYBER_SYMBYTES]) -> Vec<u8>
    requires
        hash_is_function(hash_g),
        s1.derived_from(hash_g, entropy),
        s2.derived_from(hash_g, entropy),
    ensures
        s1.spec_public_seed() == s2.spec_public_seed(),
        s1.spec_noise_seed() == s2.spec_noise_seed(),
        s1.spec_counter() == s2.spec_counter(),
{
    let g1 = choose|g: Vec<u8>| #[trigger] hash_g.ensures((&entropy,), g) && s1.splits(g@);
    let g2 = choose|g: Vec<u8>| #[trigger] hash_g.ensures((&entropy,), g) && s2.splits(g@);
    assert(g1@ == g2@);
    assert(s1.spec_public_seed()@ =~= s2.spec_public_seed()@);
    assert(s1.spec_noise_seed()@ =~= s2.spec_noise_seed()@);
}

/// The counter of a fresh state is 0, and after one noise vector it is
/// exactly the rank.
pub proof fn lemma_counter_after_one_vector<G>(
    hash_g: G,
    entropy: [u8; KYBER_SYMBYTES],
    fresh: GenState,
    after: GenState,
) where G: Fn(&[u8; KYBER_SYMBYTES]) -> Vec<u8>
    requires
        fresh.derived_from(hash_g, entropy),
        after.spec_counter() == fresh.spec_counter() + KYBER_K,
    ensures
        fresh.spec_counter() == 0,
        after.spec_counter() == KYBER_K,
{
}

/// Two successive noise vectors drawn from one state use disjoint counter
/// ranges: the first `start .. start + k`, the second
/// `start + k .. start + 2k`, so no counter value serves both.
pub proof fn lemma_successive_noise_vectors_disjoint<N, T>(
    getnoise: N,
    ntt: T,
    seed: [u8; KYBER_SYMBYTES],
    start: int,
    first: Polyvec,
    second: Polyvec,
) where N: Fn(&[u8; KYBER_SYMBYTES], u8) -> Poly, T: Fn(Poly) -> Poly
    requires
        0 <= start,
        start + 2 * KYBER_K <= u8::MAX + 1,
        is_noise_vector_of(getnoise, ntt, first, seed, start),
        is_noise_vector_of(getnoise, ntt, second, seed, start + KYBER_K),
    ensures
        forall|i: int, j: int|
            #![trigger first.vec[i], second.vec[j]]
            0 <= i < KYBER_K && 0 <= j < KYBER_K ==> {
                &&& is_noise_entry(getnoise, ntt, seed, start + i, first.vec[i])
                &&& is_noise_entry(getnoise, ntt, seed, start + KYBER_K + j, second.vec[j])
                &&& (start + i) as u8 != (start + KYBER_K + j) as u8
            },
{
}

/// Matrix expansion is a function of the seed and the orientation: where the
/// sampler is a function, two expansions of one seed in one orientation are
/// identical.
pub proof fn lemma_matrix_expansion_deterministic<U>(
    uniform: U,
    seed: [u8; KYBER_SYMBYTES],
    transposed: bool,
    m1: Polymat,
    m2: Polymat,
) where U: Fn(&[u8; KYBER_SYMBYTES], u8, u8) -> Poly
    requires
        uniform_is_function(uniform),
        is_matrix_of(uniform, m1, seed, transposed),
        is_matrix_of(uniform, m2, seed, transposed),
    ensures
        m1 == m2,
{
    assert forall|i: int| 0 <= i < KYBER_K implies #[trigger] m1.vec[i] == m2.vec[i] by {
        assert forall|j: int| 0 <= j < KYBER_K implies #[trigger] m1.vec[i].vec[j] == m2.vec[i].vec[j] by {
            let p = m1.vec[i].vec[j];
            let q = m2.vec[i].vec[j];
            if transposed {
                assert(uniform.ensures((&seed, j as u8, i as u8), p));
                assert(uniform.ensures((&seed, j as u8, i as u8), q));
            } else {
                assert(uniform.ensures((&seed, i as u8, j as u8), p));
                assert(uniform.ensures((&seed, i as u8, j as u8), q));
            }
        }
        assert(m1.vec[i].vec =~= m2.vec[i].vec);
    }
    assert(m1.vec =~= m2.vec);
}

/// The transposed expansion is the transpose of the normal one: where the
/// sampler is a function, entry (`i`, `j`) of the first is entry (`j`, `i`)
/// of the second.
pub proof fn lemma_transpose<U>(uniform: U, seed: [u8; KYBER_SYMBYTES], a: Polymat, at: Polymat) where
    U: Fn(&[u8; KYBER_SYMBYTES], u8, u8) -> Poly,

    requires
        uniform_is_function(uniform),
        is_matrix_of(uniform, a, seed, false),
        is_matrix_of(uniform, at, seed, true),
    ensures
        forall|i: int, j: int|
            0 <= i < KYBER_K && 0 <= j < KYBER_K ==> #[trigger] at.vec[i].vec[j] == a.vec[j].vec[i],
{
    assert forall|i: int, j: int| 0 <= i < KYBER_K && 0 <= j < KYBER_K implies #[trigger] at.vec[i].vec[j]
        == a.vec[j].vec[i] by {
        assert(uniform.ensures((&seed, j as u8, i as u8), at.vec[i].vec[j]));
        assert(uniform.ensures((&seed, j as u8, i as u8), a.vec[j].vec[i]));
    }
}

/// Every coefficient of `p` lies in `-bound ..= bound`.
pub open spec fn coeffs_bounded(p: Poly, bound: int) -> bool {
    forall|c: int| 0 <= c < KYBER_N ==> -bound <= #[trigger] p.coeffs[c] <= bound
}

/// A noise vector is in the transform domain: where `inv` undoes `ntt` and
/// the sampler keeps its coefficients within the noise bound, applying `inv`
/// to any entry recovers coefficients within that bound.
pub proof fn lemma_noise_vector_in_transform_domain<N, T>(
    getnoise: N,
    ntt: T,
    inv: spec_fn(Poly) -> Poly,
    seed: [u8; KYBER_SYMBYTES],
    start: int,
    v: Polyvec,
) where N: Fn(&[u8; KYBER_SYMBYTES], u8) -> Poly, T: Fn(Poly) -> Poly
    requires
        forall|p: Poly, q: Poly| #[trigger] ntt.ensures((p,), q) ==> inv(q) == p,
        forall|s: &[u8; KYBER_SYMBYTES], n: u8, p: Poly|
            #[trigger] getnoise.ensures((s, n), p) ==> coeffs_bounded(p, KYBER_ETA1 as int),
        is_noise_vector_of(getnoise, ntt, v, seed, start),
    ensures
        forall|i: int| 0 <= i < KYBER_K ==> coeffs_bounded(#[trigger] inv(v.vec[i]), KYBER_ETA1 as int),
{
    assert forall|i: int| 0 <= i < KYBER_K implies coeffs_bounded(#[trigger] inv(v.vec[i]), KYBER_ETA1 as int) by {
        let raw = choose|raw: Poly|
            #[trigger] getnoise.ensures((&seed, (start + i) as u8), raw) && ntt.ensures((raw,), v.vec[i]);
        assert(inv(v.vec[i]) == raw);
    }
}

} // verus!
