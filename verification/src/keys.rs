//! Key material: the public generator bundle and the signer's key pair.

use vstd::prelude::*;
use crate::field::{fmul, in_field, lemma_fmul_one, q};
use crate::group::{
    g1_eq, g1_generator, g1_scalar_mul, g1_val, g1_valid, g2_generator, g2_scalar_mul, g2_val,
    g2_valid, scalar_from_u64, scalar_is_zero, scalar_val,
};
use crate::rng::ScalarRng;
use vstd::arithmetic::div_mod::lemma_small_mod;

verus! {

/// The public key of the signing protocol: four independent generators of
/// the first group, the matching generators of the second group sharing the
/// same discrete logarithms, and `w2`, the second group's generator raised
/// to the secret key.
#[derive(Clone, Copy, Debug, PartialEq)]
pub struct PublicKey {
    pub g1: bls12_381::G1Affine,
    pub h1: bls12_381::G1Affine,
    pub u1: bls12_381::G1Affine,
    pub v1: bls12_381::G1Affine,
    pub g2: bls12_381::G2Affine,
    pub h2: bls12_381::G2Affine,
    pub u2: bls12_381::G2Affine,
    pub v2: bls12_381::G2Affine,
    pub w2: bls12_381::G2Affine,
}

/// Every element of the public key is on its curve and in its prime-order
/// subgroup.
pub open spec fn pk_valid(pk: PublicKey) -> bool {
    &&& g1_valid(pk.g1)
    &&& g1_valid(pk.h1)
    &&& g1_valid(pk.u1)
    &&& g1_valid(pk.v1)
    &&& g2_valid(pk.g2)
    &&& g2_valid(pk.h2)
    &&& g2_valid(pk.u2)
    &&& g2_valid(pk.v2)
    &&& g2_valid(pk.w2)
}

/// Each second-group generator shares its discrete logarithm with its
/// first-group counterpart.  This is what turns the final pairing check
/// into an algebraic identity.
pub open spec fn pk_matched(pk: PublicKey) -> bool {
    &&& g2_val(pk.g2) == g1_val(pk.g1)
    &&& g2_val(pk.h2) == g1_val(pk.h1)
    &&& g2_val(pk.u2) == g1_val(pk.u1)
    &&& g2_val(pk.v2) == g1_val(pk.v1)
}

/// The four first-group generators are pairwise distinct, none is the
/// group identity, and none is the canonical generator; degenerate
/// relations among them would weaken the protocol's soundness.
pub open spec fn pk_distinct(pk: PublicKey) -> bool {
    &&& g1_val(pk.g1) != 0 && g1_val(pk.g1) != 1
    &&& g1_val(pk.h1) != 0 && g1_val(pk.h1) != 1
    &&& g1_val(pk.u1) != 0 && g1_val(pk.u1) != 1
    &&& g1_val(pk.v1) != 0 && g1_val(pk.v1) != 1
    &&& g1_val(pk.h1) != g1_val(pk.g1)
    &&& g1_val(pk.u1) != g1_val(pk.g1) && g1_val(pk.u1) != g1_val(pk.h1)
    &&& g1_val(pk.v1) != g1_val(pk.g1) && g1_val(pk.v1) != g1_val(pk.h1) && g1_val(pk.v1)
        != g1_val(pk.u1)
}

/// A well-formed public key.
pub open spec fn pk_wf(pk: PublicKey) -> bool {
    pk_valid(pk) && pk_matched(pk) && pk_distinct(pk)
}

/// A pair of secret and public keys for the signing protocol.
pub struct KeyPair {
    pub public_key: PublicKey,
    secret_key: bls12_381::Scalar,
}

impl KeyPair {
    /// The secret exponent, as a model value.
    pub closed spec fn secret_val(self) -> nat {
        scalar_val(self.secret_key)
    }

    /// The public half, as seen by specifications.
    pub closed spec fn pk_spec(self) -> PublicKey {
        self.public_key
    }

    /// A well-formed key pair: the public part is well formed, the secret
    /// exponent is a nonzero field element, and `w2` is the second-group
    /// generator `g2` raised to the secret exponent.
    pub open spec fn wf(self) -> bool {
        &&& pk_wf(self.pk_spec())
        &&& in_field(self.secret_val())
        &&& self.secret_val() != 0
        &&& g2_val(self.pk_spec().w2) == fmul(g2_val(self.pk_spec().g2), self.secret_val())
    }

    /// The secret exponent, for the signer's own use.
    pub(crate) fn secret_scalar(&self) -> (r: bls12_381::Scalar)
        ensures
            scalar_val(r) == self.secret_val(),
    {
        self.secret_key
    }

    /// The public half, for handing to the protocol parties.
    pub fn public_key(&self) -> (r: PublicKey)
        ensures
            r == self.pk_spec(),
    {
        self.public_key
    }

    /// Generate a fresh key pair from the given randomness source.
    ///
    /// The secret exponent and the four retained generator exponents are
    /// drawn from `Zp*`; each generator candidate is rejected and resampled
    /// while it equals the canonical generator or an earlier-accepted one.
    pub fn generate(rng: &mut ScalarRng) -> (kp: KeyPair)
        ensures
            kp.wf(),
    {
        let secret_key = rng.next_nonzero_scalar();

        let mut accepted: Vec<bls12_381::G1Affine> = Vec::new();
        let (g1, g1_r) = sample_distinct_generator(rng, &accepted);
        accepted.push(g1);
        proof {
            assert(accepted@[0] == g1);
        }
        let (h1, h1_r) = sample_distinct_generator(rng, &accepted);
        proof {
            assert(g1_val(h1) != g1_val(accepted@[0]));
        }
        accepted.push(h1);
        proof {
            assert(accepted@[0] == g1 && accepted@[1] == h1);
        }
        let (u1, u1_r) = sample_distinct_generator(rng, &accepted);
        proof {
            assert(g1_val(u1) != g1_val(accepted@[0]) && g1_val(u1) != g1_val(accepted@[1]));
        }
        accepted.push(u1);
        proof {
            assert(accepted@[0] == g1 && accepted@[1] == h1 && accepted@[2] == u1);
        }
        let (v1, v1_r) = sample_distinct_generator(rng, &accepted);
        proof {
            assert(g1_val(v1) != g1_val(accepted@[0]) && g1_val(v1) != g1_val(accepted@[1])
                && g1_val(v1) != g1_val(accepted@[2]));
        }

        let g2_gen = g2_generator();
        let g2 = g2_scalar_mul(&g2_gen, &g1_r);
        let h2 = g2_scalar_mul(&g2_gen, &h1_r);
        let u2 = g2_scalar_mul(&g2_gen, &u1_r);
        let v2 = g2_scalar_mul(&g2_gen, &v1_r);
        let w2 = g2_scalar_mul(&g2, &secret_key);

        proof {
            lemma_fmul_one(scalar_val(g1_r));
            lemma_fmul_one(scalar_val(h1_r));
            lemma_fmul_one(scalar_val(u1_r));
            lemma_fmul_one(scalar_val(v1_r));
        }

        let public_key = PublicKey { g1, h1, u1, v1, g2, h2, u2, v2, w2 };
        KeyPair { public_key, secret_key }
    }
}

/// Whether some already accepted generator has the given model value.
pub open spec fn value_taken(accepted: Seq<bls12_381::G1Affine>, j: nat) -> bool {
    exists|i: int| 0 <= i < accepted.len() && g1_val(#[trigger] accepted[i]) == j
}

/// Whether a candidate collides with one of the already accepted
/// generators.
fn collides(cand: &bls12_381::G1Affine, accepted: &Vec<bls12_381::G1Affine>) -> (r: bool)
    requires
        g1_valid(*cand),
        forall|i: int| 0 <= i < accepted@.len() ==> g1_valid(#[trigger] accepted@[i]),
    ensures
        r == exists|i: int|
            0 <= i < accepted@.len() && g1_val(#[trigger] accepted@[i]) == g1_val(*cand),
{
    let mut i: usize = 0;
    while i < accepted.len()
        invariant
            0 <= i <= accepted@.len(),
            g1_valid(*cand),
            forall|k: int| 0 <= k < accepted@.len() ==> g1_valid(#[trigger] accepted@[k]),
            forall|k: int| 0 <= k < i ==> g1_val(#[trigger] accepted@[k]) != g1_val(*cand),
        decreases accepted@.len() - i,
    {
        if g1_eq(&accepted[i], cand) {
            return true;
        }
        i = i + 1;
    }
    false
}

/// Sample a generator exponent, rejecting a candidate while its exponent is
/// zero, while the candidate point equals the canonical generator, and
/// while it equals an earlier-accepted generator.
///
/// Random draws are retried a bounded number of times so that the routine
/// provably returns; if every draw collided — a run of events each having
/// probability at most a few parts in `2^250` — the exponent is taken from
/// the first small integers instead, among which a collision-free one must
/// exist because at most three generators are already fixed.
fn sample_distinct_generator(rng: &mut ScalarRng, accepted: &Vec<bls12_381::G1Affine>) -> (res: (
    bls12_381::G1Affine,
    bls12_381::Scalar,
))
    requires
        accepted@.len() <= 3,
        forall|i: int| 0 <= i < accepted@.len() ==> g1_valid(#[trigger] accepted@[i]),
    ensures
        g1_valid(res.0),
        in_field(scalar_val(res.1)),
        scalar_val(res.1) != 0,
        g1_val(res.0) == scalar_val(res.1),
        g1_val(res.0) != 1,
        forall|i: int| 0 <= i < accepted@.len() ==> g1_val(#[trigger] accepted@[i]) != g1_val(
            res.0,
        ),
{
    let generator = g1_generator();
    let mut tries: u64 = 0;
    while tries < 32
        invariant
            accepted@.len() <= 3,
            forall|i: int| 0 <= i < accepted@.len() ==> g1_valid(#[trigger] accepted@[i]),
            g1_valid(generator),
            g1_val(generator) == 1,
        decreases 32 - tries,
    {
        let r = rng.next_scalar();
        if !scalar_is_zero(&r) {
            let cand = g1_scalar_mul(&generator, &r);
            proof {
                lemma_fmul_one(scalar_val(r));
            }
            if !g1_eq(&cand, &generator) && !collides(&cand, accepted) {
                return (cand, r);
            }
        }
        tries = tries + 1;
    }

    // Deterministic fallback: try the exponents 2 through 6.  Their five
    // candidate points are pairwise distinct and none equals the canonical
    // generator or the identity, so at most three of them can collide with
    // the already accepted generators.
    let mut c: u64 = 2;
    while c <= 6
        invariant
            2 <= c <= 7,
            accepted@.len() <= 3,
            forall|i: int| 0 <= i < accepted@.len() ==> g1_valid(#[trigger] accepted@[i]),
            g1_valid(generator),
            g1_val(generator) == 1,
            forall|j: nat| 2 <= j < c ==> #[trigger] value_taken(accepted@, j),
        decreases 7 - c,
    {
        let r = scalar_from_u64(c);
        proof {
            lemma_small_mod(c as nat, q());
            lemma_fmul_one(scalar_val(r));
        }
        let cand = g1_scalar_mul(&generator, &r);
        if !collides(&cand, accepted) {
            return (cand, r);
        }
        c = c + 1;
    }

    proof {
        // Five distinct exponents each collide with one of at most three
        // accepted values: impossible.
        assert(value_taken(accepted@, 2));
        assert(value_taken(accepted@, 3));
        assert(value_taken(accepted@, 4));
        assert(value_taken(accepted@, 5));
        let i2 = choose|i: int| 0 <= i < accepted@.len() && g1_val(#[trigger] accepted@[i]) == 2;
        let i3 = choose|i: int| 0 <= i < accepted@.len() && g1_val(#[trigger] accepted@[i]) == 3;
        let i4 = choose|i: int| 0 <= i < accepted@.len() && g1_val(#[trigger] accepted@[i]) == 4;
        let i5 = choose|i: int| 0 <= i < accepted@.len() && g1_val(#[trigger] accepted@[i]) == 5;
        assert(i2 != i3 && i2 != i4 && i2 != i5 && i3 != i4 && i3 != i5 && i4 != i5);
        assert(false);
    }
    unreached()
}

} // verus!
