//! The signer's side of the four-step exchange.

use vstd::prelude::*;
use crate::errors::Error;
use crate::field::{fadd, fmul, in_field};
use crate::group::{
    g1_add, g1_eq, g1_identity, g1_in_group, g1_on_curve, g1_is_on_curve, g1_scalar_mul, g1_val,
    g2_scalar_mul, g2_val, g2_valid, scalar_add, scalar_invert, scalar_mul, scalar_val,
    scalar_zero,
};
use crate::keys::{pk_wf, KeyPair, PublicKey};
use crate::model::{witness_lhs, witness_rhs};
use crate::rng::ScalarRng;

verus! {

/// The states of the signer's session, in protocol order, plus the
/// absorbing `Aborted` state.
#[derive(Clone, Copy, Debug, PartialEq, Eq)]
pub enum SignerState {
    /// Ready for [`Signer::set_message`].
    ReadyToSetMessage,
    /// Ready for [`Signer::commit`].
    ReadyToCommit,
    /// Ready for [`Signer::verify_witness`].
    ReadyToVerifyWitness,
    /// Ready for [`Signer::sign`].
    ReadyToSign,
    /// The partial signature has been issued.
    Signed,
    /// The session was aborted and can no longer be used.
    Aborted,
}

/// The partial signature issued by [`Signer::sign`] relates the returned
/// `(Y, R, l)` to the stored commitment: `R = g2*r` for a fresh nonzero
/// exponent `r`, and `Y*(x + r) = X + v1*l` in the first group, written
/// with the inverse witness `ixr` of `x + r`.
pub open spec fn partial_signature_consistent(
    xv: nat,
    g2v: nat,
    v1v: nat,
    x_commit: nat,
    y: nat,
    rr: nat,
    lv: nat,
    rv: nat,
    ixr: nat,
) -> bool {
    &&& in_field(rv)
    &&& rv != 0
    &&& in_field(ixr)
    &&& fmul(ixr, fadd(xv, rv)) == 1
    &&& rr == fmul(g2v, rv)
    &&& y == fmul(fadd(x_commit, fmul(v1v, lv)), ixr)
}

/// There is a challenge exponent under which the partial signature is
/// consistent with the stored commitment (see
/// [`partial_signature_consistent`]).
pub open spec fn partial_signature_ok(
    xv: nat,
    g2v: nat,
    v1v: nat,
    x_commit: nat,
    y: nat,
    rr: nat,
    lv: nat,
) -> bool {
    exists|rv: nat, ixr: nat|
        #[trigger] partial_signature_consistent(xv, g2v, v1v, x_commit, y, rr, lv, rv, ixr)
}

/// One signer session: drives one signing flow over an owned copy of the
/// key material, enforcing the protocol's step order.
pub struct Signer {
    public_key: PublicKey,
    secret_key: bls12_381::Scalar,
    rng: ScalarRng,
    state: SignerState,
    m0: bls12_381::Scalar,
    commit_w: bls12_381::G1Affine,
    commit_x: bls12_381::G1Affine,
    eta: bls12_381::Scalar,
}

impl Signer {
    /// The session's current state, as seen by specifications.
    pub closed spec fn state_spec(self) -> SignerState {
        self.state
    }

    /// The public key the session runs under.
    pub closed spec fn pk_spec(self) -> PublicKey {
        self.public_key
    }

    /// The secret exponent, as a model value.
    pub closed spec fn secret_val(self) -> nat {
        scalar_val(self.secret_key)
    }

    /// The agreed tag scalar, as a model value.
    pub closed spec fn m0_val(self) -> nat {
        scalar_val(self.m0)
    }

    /// The stored blinding commitment `W`.
    pub closed spec fn stored_w(self) -> bls12_381::G1Affine {
        self.commit_w
    }

    /// The stored message commitment `X`.
    pub closed spec fn stored_x(self) -> bls12_381::G1Affine {
        self.commit_x
    }

    /// The challenge issued in the commit step, as a model value.
    pub closed spec fn eta_val(self) -> nat {
        scalar_val(self.eta)
    }

    /// The session invariant: the key material is well formed, and once
    /// commitments have been received they lie on the curve.
    pub open spec fn wf(self) -> bool {
        &&& pk_wf(self.pk_spec())
        &&& in_field(self.secret_val())
        &&& self.secret_val() != 0
        &&& g2_val(self.pk_spec().w2) == fmul(g2_val(self.pk_spec().g2), self.secret_val())
        &&& (self.state_spec() == SignerState::ReadyToVerifyWitness || self.state_spec()
            == SignerState::ReadyToSign) ==> g1_on_curve(self.stored_w()) && g1_on_curve(
            self.stored_x(),
        ) && in_field(self.eta_val())
    }

    /// Create a fresh signer session in the starting state.
    pub fn new(key_pair: &KeyPair, rng: ScalarRng) -> (r: Signer)
        requires
            key_pair.wf(),
        ensures
            r.wf(),
            r.state_spec() == SignerState::ReadyToSetMessage,
            r.pk_spec() == key_pair.pk_spec(),
            r.secret_val() == key_pair.secret_val(),
    {
        Signer {
            public_key: key_pair.public_key(),
            secret_key: key_pair.secret_scalar(),
            rng,
            state: SignerState::ReadyToSetMessage,
            m0: scalar_zero(),
            commit_w: g1_identity(),
            commit_x: g1_identity(),
            eta: scalar_zero(),
        }
    }

    /// The session's current state.
    pub fn get_state(&self) -> (r: &SignerState)
        ensures
            *r == self.state_spec(),
    {
        &self.state
    }

    /// Store the agreed tag scalar `m0`; the first step of the exchange.
    pub fn set_message(&mut self, m0: bls12_381::Scalar) -> (r: Result<(), Error>)
        requires
            old(self).wf(),
        ensures
            final(self).wf(),
            old(self).state_spec() != SignerState::ReadyToSetMessage ==> r == Err::<(), Error>(
                Error::InvalidState,
            ) && *final(self) == *old(self),
            old(self).state_spec() == SignerState::ReadyToSetMessage ==> {
                &&& r is Ok
                &&& final(self).state_spec() == SignerState::ReadyToCommit
                &&& final(self).m0_val() == scalar_val(m0)
                &&& final(self).pk_spec() == old(self).pk_spec()
                &&& final(self).secret_val() == old(self).secret_val()
            },
    {
        match self.state {
            SignerState::ReadyToSetMessage => {},
            _ => { return Err(Error::InvalidState) },
        }
        self.m0 = m0;
        self.state = SignerState::ReadyToCommit;
        Ok(())
    }

    /// Receive the user's commitments `(W, X)`, validate that both lie on
    /// the curve, and answer with a fresh random challenge `eta`.
    pub fn commit(&mut self, w: bls12_381::G1Affine, x: bls12_381::G1Affine) -> (r: Result<
        bls12_381::Scalar,
        Error,
    >)
        requires
            old(self).wf(),
        ensures
            final(self).wf(),
            old(self).state_spec() != SignerState::ReadyToCommit ==> r == Err::<
                bls12_381::Scalar,
                Error,
            >(Error::InvalidState) && *final(self) == *old(self),
            old(self).state_spec() == SignerState::ReadyToCommit && !(g1_on_curve(w) && g1_on_curve(
                x,
            )) ==> {
                &&& r == Err::<bls12_381::Scalar, Error>(Error::PointNotOnCurve)
                &&& final(self).state_spec() == SignerState::Aborted
            },
            old(self).state_spec() == SignerState::ReadyToCommit && g1_on_curve(w) && g1_on_curve(x)
                ==> {
                &&& r is Ok
                &&& final(self).state_spec() == SignerState::ReadyToVerifyWitness
                &&& final(self).stored_w() == w
                &&& final(self).stored_x() == x
                &&& in_field(final(self).eta_val())
                &&& r matches Ok(eta) && scalar_val(eta) == final(self).eta_val()
                &&& final(self).pk_spec() == old(self).pk_spec()
                &&& final(self).secret_val() == old(self).secret_val()
                &&& final(self).m0_val() == old(self).m0_val()
            },
    {
        match self.state {
            SignerState::ReadyToCommit => {},
            _ => { return Err(Error::InvalidState) },
        }
        if !g1_is_on_curve(&w) || !g1_is_on_curve(&x) {
            self.state = SignerState::Aborted;
            return Err(Error::PointNotOnCurve);
        }
        let eta = self.rng.next_scalar();
        self.eta = eta;
        self.commit_w = w;
        self.commit_x = x;
        self.state = SignerState::ReadyToVerifyWitness;
        Ok(eta)
    }

    /// Check the user's witness `(b1, b2, b3)` against the stored
    /// commitments: `h1*(m0*b2) + g1*b1 + u1*b2 + v1*b3` must equal
    /// `W + X*eta`.  For subgroup commitments the outcome is exactly the
    /// model equation.
    pub fn verify_witness(
        &mut self,
        b1: bls12_381::Scalar,
        b2: bls12_381::Scalar,
        b3: bls12_381::Scalar,
    ) -> (r: Result<(), Error>)
        requires
            old(self).wf(),
        ensures
            final(self).wf(),
            old(self).state_spec() != SignerState::ReadyToVerifyWitness ==> r == Err::<(), Error>(
                Error::InvalidState,
            ) && *final(self) == *old(self),
            old(self).state_spec() == SignerState::ReadyToVerifyWitness ==> {
                &&& g1_in_group(old(self).stored_w()) && g1_in_group(old(self).stored_x()) ==> (
                r is Ok <==> witness_lhs(
                    g1_val(old(self).pk_spec().g1),
                    g1_val(old(self).pk_spec().h1),
                    g1_val(old(self).pk_spec().u1),
                    g1_val(old(self).pk_spec().v1),
                    old(self).m0_val(),
                    scalar_val(b1),
                    scalar_val(b2),
                    scalar_val(b3),
                ) == witness_rhs(
                    g1_val(old(self).stored_w()),
                    g1_val(old(self).stored_x()),
                    old(self).eta_val(),
                ))
                &&& r is Ok ==> {
                    &&& final(self).state_spec() == SignerState::ReadyToSign
                    &&& final(self).pk_spec() == old(self).pk_spec()
                    &&& final(self).secret_val() == old(self).secret_val()
                    &&& final(self).m0_val() == old(self).m0_val()
                    &&& final(self).stored_w() == old(self).stored_w()
                    &&& final(self).stored_x() == old(self).stored_x()
                    &&& final(self).eta_val() == old(self).eta_val()
                }
                &&& !(r is Ok) ==> r == Err::<(), Error>(Error::InvalidWitness) && final(self).state_spec() == SignerState::Aborted
            },
    {
        match self.state {
            SignerState::ReadyToVerifyWitness => {},
            _ => { return Err(Error::InvalidState) },
        }

        let pk = &self.public_key;
        let m0_b2 = scalar_mul(&self.m0, &b2);
        let term_h = g1_scalar_mul(&pk.h1, &m0_b2);
        let term_g = g1_scalar_mul(&pk.g1, &b1);
        let term_u = g1_scalar_mul(&pk.u1, &b2);
        let term_v = g1_scalar_mul(&pk.v1, &b3);
        let sum1 = g1_add(&term_h, &term_g);
        let sum2 = g1_add(&sum1, &term_u);
        let lhs = g1_add(&sum2, &term_v);

        let x_eta = g1_scalar_mul(&self.commit_x, &self.eta);
        let rhs = g1_add(&self.commit_w, &x_eta);

        if !g1_eq(&rhs, &lhs) {
            self.state = SignerState::Aborted;
            return Err(Error::InvalidWitness);
        }

        self.state = SignerState::ReadyToSign;
        Ok(())
    }

    /// Issue the partial signature `(Y, R, l)`: fresh nonzero `l` and `r`,
    /// `R = g2*r` and `Y = (X + v1*l) * (x + r)^(-1)`.  If the drawn `r`
    /// makes `x + r` zero — an event of probability `1/q` — the inversion
    /// is impossible; the session aborts with [`Error::ScalarIsZero`]
    /// rather than resample.
    pub fn sign(&mut self) -> (r: Result<(bls12_381::G1Affine, bls12_381::G2Affine, bls12_381::Scalar), Error>)
        requires
            old(self).wf(),
        ensures
            final(self).wf(),
            old(self).state_spec() != SignerState::ReadyToSign ==> r == Err::<
                (bls12_381::G1Affine, bls12_381::G2Affine, bls12_381::Scalar),
                Error,
            >(Error::InvalidState) && *final(self) == *old(self),
            old(self).state_spec() == SignerState::ReadyToSign ==> (r matches Ok((y, rr, l))
                ==> {
                &&& final(self).state_spec() == SignerState::Signed
                &&& in_field(scalar_val(l))
                &&& scalar_val(l) != 0
                &&& g2_valid(rr)
                &&& g1_on_curve(y)
                &&& (g1_in_group(old(self).stored_x()) ==> g1_in_group(y))
                &&& partial_signature_ok(
                    old(self).secret_val(),
                    g2_val(old(self).pk_spec().g2),
                    g1_val(old(self).pk_spec().v1),
                    g1_val(old(self).stored_x()),
                    g1_val(y),
                    g2_val(rr),
                    scalar_val(l),
                )
            }),
            old(self).state_spec() == SignerState::ReadyToSign && !(r is Ok) ==> {
                &&& r == Err::<
                    (bls12_381::G1Affine, bls12_381::G2Affine, bls12_381::Scalar),
                    Error,
                >(Error::ScalarIsZero)
                &&& final(self).state_spec() == SignerState::Aborted
                &&& exists|rv: nat|
                    in_field(rv) && rv != 0 && #[trigger] fadd(old(self).secret_val(), rv) == 0
            },
    {
        match self.state {
            SignerState::ReadyToSign => {},
            _ => { return Err(Error::InvalidState) },
        }

        let l = self.rng.next_nonzero_scalar();
        let r_exp = self.rng.next_nonzero_scalar();
        let rr = g2_scalar_mul(&self.public_key.g2, &r_exp);
        let x_plus_r = scalar_add(&self.secret_key, &r_exp);
        let inv = match scalar_invert(&x_plus_r) {
            Some(inv) => inv,
            None => {
                self.state = SignerState::Aborted;
                return Err(Error::ScalarIsZero);
            },
        };
        let v1_l = g1_scalar_mul(&self.public_key.v1, &l);
        let x_v1l = g1_add(&self.commit_x, &v1_l);
        let y = g1_scalar_mul(&x_v1l, &inv);

        self.state = SignerState::Signed;

        proof {
            assert(partial_signature_consistent(
                old(self).secret_val(),
                g2_val(old(self).pk_spec().g2),
                g1_val(old(self).pk_spec().v1),
                g1_val(old(self).stored_x()),
                g1_val(y),
                g2_val(rr),
                scalar_val(l),
                scalar_val(r_exp),
                scalar_val(inv),
            ));
            assert(partial_signature_ok(
                old(self).secret_val(),
                g2_val(old(self).pk_spec().g2),
                g1_val(old(self).pk_spec().v1),
                g1_val(old(self).stored_x()),
                g1_val(y),
                g2_val(rr),
                scalar_val(l),
            ));
        }

        Ok((y, rr, l))
    }

    /// Abort the session, permanently retiring it.
    pub fn abort(&mut self)
        requires
            old(self).wf(),
        ensures
            final(self).wf(),
            final(self).state_spec() == SignerState::Aborted,
            final(self).pk_spec() == old(self).pk_spec(),
            final(self).secret_val() == old(self).secret_val(),
            final(self).m0_val() == old(self).m0_val(),
    {
        self.state = SignerState::Aborted;
    }
}

} // verus!
