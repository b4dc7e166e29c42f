use bls12_381::{G1Affine, G1Projective, G2Affine, G2Projective, Scalar};
use ziglet_okamoto::{verify_signature, Error, KeyPair, ScalarRng, Signer, SignerState, User};

fn test_key_pair() -> KeyPair {
    let mut rng = ScalarRng::from_seed(33);
    KeyPair::generate(&mut rng)
}

/// A point with affine coordinates (1, 1), which does not satisfy the
/// curve equation of the first group.
fn off_curve_point() -> G1Affine {
    let mut bytes = [0u8; 96];
    bytes[47] = 1;
    bytes[95] = 1;
    let p = G1Affine::from_uncompressed_unchecked(&bytes).unwrap();
    assert!(!bool::from(p.is_on_curve()));
    p
}

#[test]
fn commit_rejects_point_not_on_curve() {
    let key_pair = test_key_pair();
    let bad = off_curve_point();
    let good = G1Affine::generator();

    let mut signer = Signer::new(&key_pair, ScalarRng::from_seed(1));
    signer.set_message(Scalar::from(11u64)).unwrap();
    assert_eq!(signer.commit(bad, good).unwrap_err(), Error::PointNotOnCurve);
    assert_eq!(*signer.get_state(), SignerState::Aborted);

    let mut signer = Signer::new(&key_pair, ScalarRng::from_seed(2));
    signer.set_message(Scalar::from(11u64)).unwrap();
    assert_eq!(signer.commit(good, bad).unwrap_err(), Error::PointNotOnCurve);
    assert_eq!(*signer.get_state(), SignerState::Aborted);
}

fn run_to_witness(
    key_pair: &KeyPair,
    seed: u64,
) -> (Signer, Scalar, Scalar, Scalar) {
    let mut user = User::new(&key_pair.public_key, ScalarRng::from_seed(seed));
    let mut signer = Signer::new(key_pair, ScalarRng::from_seed(seed + 1));
    let m0 = Scalar::from(11u64);
    let m1 = Scalar::from(22u64);
    user.set_message(m0, m1).unwrap();
    signer.set_message(m0).unwrap();
    let (w, x) = user.commit().unwrap();
    let eta = signer.commit(w, x).unwrap();
    let (b1, b2, b3) = user.compute_witness(&eta).unwrap();
    (signer, b1, b2, b3)
}

#[test]
fn tampered_witness_b1_is_rejected() {
    let key_pair = test_key_pair();
    let (mut signer, b1, b2, b3) = run_to_witness(&key_pair, 100);
    let tampered = b1 + Scalar::one();
    assert_eq!(
        signer.verify_witness(tampered, b2, b3).unwrap_err(),
        Error::InvalidWitness
    );
    assert_eq!(*signer.get_state(), SignerState::Aborted);
}

#[test]
fn tampered_witness_b2_is_rejected() {
    let key_pair = test_key_pair();
    let (mut signer, b1, b2, b3) = run_to_witness(&key_pair, 200);
    let tampered = b2 + Scalar::one();
    assert_eq!(
        signer.verify_witness(b1, tampered, b3).unwrap_err(),
        Error::InvalidWitness
    );
    assert_eq!(*signer.get_state(), SignerState::Aborted);
}

#[test]
fn tampered_witness_b3_is_rejected() {
    let key_pair = test_key_pair();
    let (mut signer, b1, b2, b3) = run_to_witness(&key_pair, 300);
    let tampered = b3 + Scalar::one();
    assert_eq!(
        signer.verify_witness(b1, b2, tampered).unwrap_err(),
        Error::InvalidWitness
    );
    assert_eq!(*signer.get_state(), SignerState::Aborted);
}

#[test]
fn untampered_witness_is_accepted() {
    let key_pair = test_key_pair();
    let (mut signer, b1, b2, b3) = run_to_witness(&key_pair, 400);
    signer.verify_witness(b1, b2, b3).unwrap();
    assert_eq!(*signer.get_state(), SignerState::ReadyToSign);
}

fn full_signature(key_pair: &KeyPair) -> (Scalar, Scalar, G1Affine, G2Affine, Scalar) {
    let mut user = User::new(&key_pair.public_key, ScalarRng::from_seed(900));
    let mut signer = Signer::new(key_pair, ScalarRng::from_seed(901));
    let m0 = Scalar::from(11u64);
    let m1 = Scalar::from(22u64);
    user.set_message(m0, m1).unwrap();
    signer.set_message(m0).unwrap();
    let (w, x) = user.commit().unwrap();
    let eta = signer.commit(w, x).unwrap();
    let (b1, b2, b3) = user.compute_witness(&eta).unwrap();
    signer.verify_witness(b1, b2, b3).unwrap();
    let (y, r, l) = signer.sign().unwrap();
    let (sigma, alpha, beta) = user.sign(&y, &r, &l).unwrap();
    (m0, m1, sigma, alpha, beta)
}

#[test]
fn verifier_rejects_corrupted_signatures() {
    let key_pair = test_key_pair();
    let (m0, m1, sigma, alpha, beta) = full_signature(&key_pair);
    let pk = &key_pair.public_key;

    verify_signature(pk, &m0, &m1, &sigma, &alpha, &beta).expect("the valid signature passes");

    let sigma_flip = G1Affine::from(G1Projective::from(sigma) + G1Affine::generator());
    assert_eq!(
        verify_signature(pk, &m0, &m1, &sigma_flip, &alpha, &beta).unwrap_err(),
        Error::InvalidSignature
    );

    let alpha_flip = G2Affine::from(G2Projective::from(alpha) + G2Affine::generator());
    assert_eq!(
        verify_signature(pk, &m0, &m1, &sigma, &alpha_flip, &beta).unwrap_err(),
        Error::InvalidSignature
    );

    let beta_flip = beta + Scalar::one();
    assert_eq!(
        verify_signature(pk, &m0, &m1, &sigma, &alpha, &beta_flip).unwrap_err(),
        Error::InvalidSignature
    );

    let wrong_m0 = m0 + Scalar::one();
    assert_eq!(
        verify_signature(pk, &wrong_m0, &m1, &sigma, &alpha, &beta).unwrap_err(),
        Error::InvalidSignature
    );
}

#[test]
fn verifier_rejects_identity_sigma() {
    let key_pair = test_key_pair();
    let (m0, m1, _sigma, alpha, beta) = full_signature(&key_pair);
    assert_eq!(
        verify_signature(
            &key_pair.public_key,
            &m0,
            &m1,
            &G1Affine::identity(),
            &alpha,
            &beta
        )
        .unwrap_err(),
        Error::InvalidSignature
    );
}

#[test]
fn verifier_rejects_off_curve_sigma() {
    let key_pair = test_key_pair();
    let (m0, m1, _sigma, alpha, beta) = full_signature(&key_pair);
    assert_eq!(
        verify_signature(
            &key_pair.public_key,
            &m0,
            &m1,
            &off_curve_point(),
            &alpha,
            &beta
        )
        .unwrap_err(),
        Error::InvalidSignature
    );
}
