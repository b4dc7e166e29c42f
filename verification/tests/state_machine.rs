use bls12_381::Scalar;
use ziglet_okamoto::{Error, KeyPair, ScalarRng, Signer, SignerState, User, UserState};

fn test_key_pair() -> KeyPair {
    let mut rng = ScalarRng::from_seed(77);
    KeyPair::generate(&mut rng)
}

#[test]
fn signer_methods_reject_wrong_states() {
    let key_pair = test_key_pair();
    let mut signer = Signer::new(&key_pair, ScalarRng::from_seed(1));
    assert_eq!(*signer.get_state(), SignerState::ReadyToSetMessage);

    // Only set_message is allowed in the starting state.
    let (w, x) = honest_commitments(&key_pair);
    assert_eq!(signer.commit(w, x).unwrap_err(), Error::InvalidState);
    assert_eq!(
        signer
            .verify_witness(Scalar::from(1u64), Scalar::from(2u64), Scalar::from(3u64))
            .unwrap_err(),
        Error::InvalidState
    );
    assert_eq!(signer.sign().unwrap_err(), Error::InvalidState);
    assert_eq!(*signer.get_state(), SignerState::ReadyToSetMessage);

    // Only commit is allowed after set_message.
    signer.set_message(Scalar::from(11u64)).unwrap();
    assert_eq!(*signer.get_state(), SignerState::ReadyToCommit);
    assert_eq!(
        signer.set_message(Scalar::from(11u64)).unwrap_err(),
        Error::InvalidState
    );
    assert_eq!(
        signer
            .verify_witness(Scalar::from(1u64), Scalar::from(2u64), Scalar::from(3u64))
            .unwrap_err(),
        Error::InvalidState
    );
    assert_eq!(signer.sign().unwrap_err(), Error::InvalidState);
    assert_eq!(*signer.get_state(), SignerState::ReadyToCommit);

    // Only verify_witness is allowed after commit.
    signer.commit(w, x).unwrap();
    assert_eq!(*signer.get_state(), SignerState::ReadyToVerifyWitness);
    assert_eq!(
        signer.set_message(Scalar::from(11u64)).unwrap_err(),
        Error::InvalidState
    );
    assert_eq!(signer.commit(w, x).unwrap_err(), Error::InvalidState);
    assert_eq!(signer.sign().unwrap_err(), Error::InvalidState);
    assert_eq!(*signer.get_state(), SignerState::ReadyToVerifyWitness);
}

#[test]
fn signer_abort_is_absorbing() {
    let key_pair = test_key_pair();
    let mut signer = Signer::new(&key_pair, ScalarRng::from_seed(2));
    signer.abort();
    assert_eq!(*signer.get_state(), SignerState::Aborted);
    assert_eq!(
        signer.set_message(Scalar::from(1u64)).unwrap_err(),
        Error::InvalidState
    );
    let (w, x) = honest_commitments(&key_pair);
    assert_eq!(signer.commit(w, x).unwrap_err(), Error::InvalidState);
    assert_eq!(
        signer
            .verify_witness(Scalar::from(1u64), Scalar::from(2u64), Scalar::from(3u64))
            .unwrap_err(),
        Error::InvalidState
    );
    assert_eq!(signer.sign().unwrap_err(), Error::InvalidState);
    assert_eq!(*signer.get_state(), SignerState::Aborted);
}

#[test]
fn user_methods_reject_wrong_states() {
    let key_pair = test_key_pair();
    let mut user = User::new(&key_pair.public_key, ScalarRng::from_seed(3));
    assert_eq!(*user.get_state(), UserState::ReadyToSetMessage);

    // Only set_message is allowed in the starting state.
    assert_eq!(user.commit().unwrap_err(), Error::InvalidState);
    assert_eq!(
        user.compute_witness(&Scalar::from(5u64)).unwrap_err(),
        Error::InvalidState
    );
    let y = bls12_381::G1Affine::generator();
    let r = bls12_381::G2Affine::generator();
    let l = Scalar::from(5u64);
    assert_eq!(user.sign(&y, &r, &l).unwrap_err(), Error::InvalidState);
    assert_eq!(*user.get_state(), UserState::ReadyToSetMessage);

    // Only commit is allowed after set_message.
    user.set_message(Scalar::from(11u64), Scalar::from(22u64))
        .unwrap();
    assert_eq!(*user.get_state(), UserState::ReadyToCommit);
    assert_eq!(
        user.set_message(Scalar::from(11u64), Scalar::from(22u64))
            .unwrap_err(),
        Error::InvalidState
    );
    assert_eq!(
        user.compute_witness(&Scalar::from(5u64)).unwrap_err(),
        Error::InvalidState
    );
    assert_eq!(user.sign(&y, &r, &l).unwrap_err(), Error::InvalidState);
    assert_eq!(*user.get_state(), UserState::ReadyToCommit);

    // Only compute_witness is allowed after commit.
    user.commit().unwrap();
    assert_eq!(*user.get_state(), UserState::ReadyToComputeWitness);
    assert_eq!(
        user.set_message(Scalar::from(11u64), Scalar::from(22u64))
            .unwrap_err(),
        Error::InvalidState
    );
    assert_eq!(user.commit().unwrap_err(), Error::InvalidState);
    assert_eq!(user.sign(&y, &r, &l).unwrap_err(), Error::InvalidState);
    assert_eq!(*user.get_state(), UserState::ReadyToComputeWitness);
}

#[test]
fn user_abort_is_absorbing() {
    let key_pair = test_key_pair();
    let mut user = User::new(&key_pair.public_key, ScalarRng::from_seed(4));
    user.abort();
    assert_eq!(*user.get_state(), UserState::Aborted);
    assert_eq!(
        user.set_message(Scalar::from(1u64), Scalar::from(2u64))
            .unwrap_err(),
        Error::InvalidState
    );
    assert_eq!(user.commit().unwrap_err(), Error::InvalidState);
    assert_eq!(
        user.compute_witness(&Scalar::from(5u64)).unwrap_err(),
        Error::InvalidState
    );
    assert_eq!(*user.get_state(), UserState::Aborted);
}

#[test]
fn user_set_message_rejects_zero_scalars() {
    let key_pair = test_key_pair();
    let mut user = User::new(&key_pair.public_key, ScalarRng::from_seed(5));

    assert_eq!(
        user.set_message(Scalar::zero(), Scalar::from(2u64))
            .unwrap_err(),
        Error::ScalarIsZero
    );
    assert_eq!(*user.get_state(), UserState::ReadyToSetMessage);

    assert_eq!(
        user.set_message(Scalar::from(1u64), Scalar::zero())
            .unwrap_err(),
        Error::ScalarIsZero
    );
    assert_eq!(*user.get_state(), UserState::ReadyToSetMessage);

    // The session stays usable after the rejection.
    user.set_message(Scalar::from(1u64), Scalar::from(2u64))
        .unwrap();
    assert_eq!(*user.get_state(), UserState::ReadyToCommit);
}

fn honest_commitments(key_pair: &KeyPair) -> (bls12_381::G1Affine, bls12_381::G1Affine) {
    let mut user = User::new(&key_pair.public_key, ScalarRng::from_seed(600));
    user.set_message(Scalar::from(11u64), Scalar::from(22u64))
        .unwrap();
    user.commit().unwrap()
}
