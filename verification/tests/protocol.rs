use bls12_381::{G1Affine, Scalar};
use ziglet_okamoto::{verify_signature, KeyPair, ScalarRng, Signer, User};

fn run_exchange(
    key_pair: &KeyPair,
    signer_rng: ScalarRng,
    user_rng: ScalarRng,
    m0: Scalar,
    m1: Scalar,
) -> (G1Affine, bls12_381::G2Affine, Scalar) {
    let mut user = User::new(&key_pair.public_key, user_rng);
    let mut signer = Signer::new(key_pair, signer_rng);

    user.set_message(m0, m1).expect("user set_message");
    signer.set_message(m0).expect("signer set_message");

    let (w, x) = user.commit().expect("user commit");
    let eta = signer.commit(w, x).expect("signer commit");

    let (b1, b2, b3) = user.compute_witness(&eta).expect("compute_witness");
    signer.verify_witness(b1, b2, b3).expect("verify_witness");

    let (y, r, l) = signer.sign().expect("signer sign");
    user.sign(&y, &r, &l).expect("user sign")
}

#[test]
fn okamoto_happy_path() {
    let mut rng = ScalarRng::from_entropy();
    let key_pair = KeyPair::generate(&mut rng);

    let m0 = rng.next_nonzero_scalar();
    let m1 = rng.next_nonzero_scalar();

    let (sigma, alpha, beta) = run_exchange(
        &key_pair,
        ScalarRng::from_entropy(),
        ScalarRng::from_entropy(),
        m0,
        m1,
    );

    verify_signature(&key_pair.public_key, &m0, &m1, &sigma, &alpha, &beta)
        .expect("signature verifies under the issuing key");
    verify_signature(&key_pair.public_key, &m0, &m1, &sigma, &alpha, &beta)
        .expect("verification is repeatable");
}

#[test]
fn fixed_seed_exchange_verifies_and_other_key_rejects() {
    let mut rng = ScalarRng::from_seed(7);
    let key_pair = KeyPair::generate(&mut rng);

    let m0 = Scalar::from(11u64);
    let m1 = Scalar::from(22u64);

    let (sigma, alpha, beta) = run_exchange(
        &key_pair,
        ScalarRng::from_seed(100),
        ScalarRng::from_seed(200),
        m0,
        m1,
    );

    verify_signature(&key_pair.public_key, &m0, &m1, &sigma, &alpha, &beta)
        .expect("signature verifies under the issuing key");

    let mut other_rng = ScalarRng::from_seed(5000);
    let other_pair = KeyPair::generate(&mut other_rng);
    assert!(
        verify_signature(&other_pair.public_key, &m0, &m1, &sigma, &alpha, &beta).is_err(),
        "an independently generated key must reject the signature"
    );
}

#[test]
fn fixed_seed_runs_are_reproducible() {
    let m0 = Scalar::from(3u64);
    let m1 = Scalar::from(4u64);

    let mut rng_a = ScalarRng::from_seed(42);
    let pair_a = KeyPair::generate(&mut rng_a);
    let (sigma_a, alpha_a, beta_a) = run_exchange(
        &pair_a,
        ScalarRng::from_seed(1000),
        ScalarRng::from_seed(2000),
        m0,
        m1,
    );

    let mut rng_b = ScalarRng::from_seed(42);
    let pair_b = KeyPair::generate(&mut rng_b);
    let (sigma_b, alpha_b, beta_b) = run_exchange(
        &pair_b,
        ScalarRng::from_seed(1000),
        ScalarRng::from_seed(2000),
        m0,
        m1,
    );

    assert_eq!(pair_a.public_key, pair_b.public_key);
    assert_eq!(sigma_a, sigma_b);
    assert_eq!(alpha_a, alpha_b);
    assert_eq!(beta_a, beta_b);
}

#[test]
fn generated_generators_are_distinct() {
    let mut rng = ScalarRng::from_seed(9);
    let pk = KeyPair::generate(&mut rng).public_key;

    let canonical = G1Affine::generator();
    let points = [pk.g1, pk.h1, pk.u1, pk.v1];
    for (i, p) in points.iter().enumerate() {
        assert_ne!(*p, canonical, "generator {} equals the canonical one", i);
        assert_ne!(*p, G1Affine::identity());
        for (j, other) in points.iter().enumerate() {
            if i != j {
                assert_ne!(*p, *other, "generators {} and {} collide", i, j);
            }
        }
    }
}

#[test]
fn seeded_rng_is_deterministic() {
    let mut a = ScalarRng::from_seed(5);
    let mut b = ScalarRng::from_seed(5);
    for _ in 0..10 {
        assert_eq!(a.next_scalar(), b.next_scalar());
    }
    let mut c = ScalarRng::from_seed(5);
    assert_eq!(c.next_scalar(), Scalar::from(6u64));
    assert_eq!(c.next_scalar(), Scalar::from(7u64));
}
