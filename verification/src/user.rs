//! The user's side of the four-step exchange.

use vstd::prelude::*;
use crate::errors::Error;
use crate::field::{fadd, fmul, fsub, in_field};
use crate::group::{
    g1_add, g1_in_group, g1_on_curve, g1_scalar_mul, g1_val, g1_valid, g2_add, g2_in_group,
    g2_on_curve, g2_scalar_mul, g2_val, scalar_add, scalar_invert, scalar_is_zero, scalar_mul,
    scalar_one, scalar_sub, scalar_val, scalar_zero,
};
use crate::keys::{pk_wf, PublicKey};
use crate::model::{commit_w, commit_x, witness_b1, witness_b2, witness_b3};
use crate::rng::ScalarRng;

verus! {

/// The states of the user's session, in protocol order, plus the absorbing
/// `Aborted` state.
#[derive(Clone, Copy, Debug, PartialEq, Eq)]
pub enum UserState {
    /// Ready for [`User::set_message`].
    ReadyToSetMessage,
    /// Ready for [`User::commit`].
    ReadyToCommit,
    /// Ready for [`User::compute_witness`].
    ReadyToComputeWitness,
    /// Ready for [`User::sign`].
    ReadyToSign,
    /// The final signature has been produced.
    Signed,
    /// The session was aborted and can no longer be used.
    Aborted,
}

/// The final signature produced by [`User::sign`] relates the returned
/// `(sigma, alpha, beta)` to the signer's share `(Y, R, l)` and the
/// session's blinding scalars: for a fresh nonzero `f`,
/// `sigma = Y*(f*t)^(-1)`, `alpha = w2*(f-1) + R*f` and
/// `beta = s + l*t^(-1)`, written with the inverse witnesses `tau` of
/// `f*t` and `ti` of `t`.
pub open spec fn final_signature_consistent(
    y: bls12_381::G1Affine,
    rr: bls12_381::G2Affine,
    w2: bls12_381::G2Affine,
    sigma: bls12_381::G1Affine,
    alpha: bls12_381::G2Affine,
    betav: nat,
    sv: nat,
    tv: nat,
    lv: nat,
    fv: nat,
    tau: nat,
    ti: nat,
) -> bool {
    &&& in_field(fv)
    &&& fv != 0
    &&& in_field(tau)
    &&& in_field(ti)
    &&& fmul(tau, fmul(fv, tv)) == 1
    &&& fmul(ti, tv) == 1
    &&& (g1_on_curve(y) ==> g1_on_curve(sigma) && g1_val(sigma) == fmul(g1_val(y), tau))
    &&& (g1_in_group(y) ==> g1_in_group(sigma))
    &&& (g2_on_curve(rr) ==> g2_on_curve(alpha) && g2_val(alpha) == fadd(
        fmul(g2_val(w2), fsub(fv, 1)),
        fmul(g2_val(rr), fv),
    ))
    &&& (g2_in_group(rr) ==> g2_in_group(alpha))
    &&& betav == fadd(sv, fmul(lv, ti))
}

/// There are blinding choices under which the final signature is
/// consistent with the signer's share (see
/// [`final_signature_consistent`]).
pub open spec fn final_signature_ok(
    y: bls12_381::G1Affine,
    rr: bls12_381::G2Affine,
    w2: bls12_381::G2Affine,
    sigma: bls12_381::G1Affine,
    alpha: bls12_381::G2Affine,
    betav: nat,
    sv: nat,
    tv: nat,
    lv: nat,
) -> bool {
    exists|fv: nat, tau: nat, ti: nat|
        #[trigger] final_signature_consistent(y, rr, w2, sigma, alpha, betav, sv, tv, lv, fv, tau, ti)
}

/// One user session: drives one signing flow over an owned copy of the
/// public key, enforcing the protocol's step order.
pub struct User {
    public_key: PublicKey,
    rng: ScalarRng,
    state: UserState,
    m0: bls12_381::Scalar,
    m1: bls12_381::Scalar,
    a1: bls12_381::Scalar,
    a2: bls12_381::Scalar,
    a3: bls12_381::Scalar,
    s: bls12_381::Scalar,
    t: bls12_381::Scalar,
}

impl User {
    /// The session's current state, as seen by specifications.
    pub closed spec fn state_spec(self) -> UserState {
        self.state
    }

    /// The public key the session runs under.
    pub closed spec fn pk_spec(self) -> PublicKey {
        self.public_key
    }

    /// The agreed tag scalar, as a model value.
    pub closed spec fn m0_val(self) -> nat {
        scalar_val(self.m0)
    }

    /// The private message scalar, as a model value.
    pub closed spec fn m1_val(self) -> nat {
        scalar_val(self.m1)
    }

    /// The first blinding scalar of the commitment `W`.
    pub closed spec fn a1_val(self) -> nat {
        scalar_val(self.a1)
    }

    /// The second blinding scalar of the commitment `W`.
    pub closed spec fn a2_val(self) -> nat {
        scalar_val(self.a2)
    }

    /// The third blinding scalar of the commitment `W`.
    pub closed spec fn a3_val(self) -> nat {
        scalar_val(self.a3)
    }

    /// The blinding scalar `s` of the commitment `X`.
    pub closed spec fn s_val(self) -> nat {
        scalar_val(self.s)
    }

    /// The blinding scalar `t` of the commitment `X`.
    pub closed spec fn t_val(self) -> nat {
        scalar_val(self.t)
    }

    /// The session invariant: the public key is well formed, the messages
    /// are nonzero once set, and the blinding scalars are nonzero field
    /// elements once drawn.
    pub open spec fn wf(self) -> bool {
        &&& pk_wf(self.pk_spec())
        &&& (self.state_spec() == UserState::ReadyToCommit || self.state_spec()
            == UserState::ReadyToComputeWitness || self.state_spec() == UserState::ReadyToSign)
            ==> self.m0_val() != 0 && self.m1_val() != 0
        &&& (self.state_spec() == UserState::ReadyToComputeWitness || self.state_spec()
            == UserState::ReadyToSign) ==> {
            &&& in_field(self.a1_val())
            &&& in_field(self.a2_val())
            &&& in_field(self.a3_val())
            &&& in_field(self.s_val()) && self.s_val() != 0
            &&& in_field(self.t_val()) && self.t_val() != 0
        }
    }

    /// Create a fresh user session in the starting state.
    pub fn new(public_key: &PublicKey, rng: ScalarRng) -> (r: User)
        requires
            pk_wf(*public_key),
        ensures
            r.wf(),
            r.state_spec() == UserState::ReadyToSetMessage,
            r.pk_spec() == *public_key,
    {
        let zero = scalar_zero();
        User {
            public_key: *public_key,
            rng,
            state: UserState::ReadyToSetMessage,
            m0: zero,
            m1: zero,
            a1: zero,
            a2: zero,
            a3: zero,
            s: zero,
            t: zero,
        }
    }

    /// The session's current state.
    pub fn get_state(&self) -> (r: &UserState)
        ensures
            *r == self.state_spec(),
    {
        &self.state
    }

    /// Store the agreed tag `m0` and the private message `m1`, rejecting a
    /// zero scalar for either; the first step of the exchange.
    pub fn set_message(&mut self, m0: bls12_381::Scalar, m1: bls12_381::Scalar) -> (r: Result<
        (),
        Error,
    >)
        requires
            old(self).wf(),
        ensures
            final(self).wf(),
            old(self).state_spec() != UserState::ReadyToSetMessage ==> r == Err::<(), Error>(
                Error::InvalidState,
            ) && *final(self) == *old(self),
            old(self).state_spec() == UserState::ReadyToSetMessage && (scalar_val(m0) == 0
                || scalar_val(m1) == 0) ==> r == Err::<(), Error>(Error::ScalarIsZero)
                && *final(self) == *old(self),
            old(self).state_spec() == UserState::ReadyToSetMessage && scalar_val(m0) != 0
                && scalar_val(m1) != 0 ==> {
                &&& r is Ok
                &&& final(self).state_spec() == UserState::ReadyToCommit
                &&& final(self).m0_val() == scalar_val(m0)
                &&& final(self).m1_val() == scalar_val(m1)
                &&& final(self).pk_spec() == old(self).pk_spec()
            },
    {
        match self.state {
            UserState::ReadyToSetMessage => {},
            _ => { return Err(Error::InvalidState) },
        }
        if scalar_is_zero(&m0) || scalar_is_zero(&m1) {
            return Err(Error::ScalarIsZero);
        }
        self.m0 = m0;
        self.m1 = m1;
        self.state = UserState::ReadyToCommit;
        Ok(())
    }

    /// Draw the five blinding scalars from `Zp*` and compute the
    /// commitments `W = h1*(m0*a2) + g1*a1 + u1*a2 + v1*a3` and
    /// `X = h1*(m0*t) + g1*(m1*t) + u1*t + v1*(s*t)`.
    pub fn commit(&mut self) -> (r: Result<(bls12_381::G1Affine, bls12_381::G1Affine), Error>)
        requires
            old(self).wf(),
        ensures
            final(self).wf(),
            old(self).state_spec() != UserState::ReadyToCommit ==> r == Err::<
                (bls12_381::G1Affine, bls12_381::G1Affine),
                Error,
            >(Error::InvalidState) && *final(self) == *old(self),
            old(self).state_spec() == UserState::ReadyToCommit ==> {
                &&& r is Ok
                &&& final(self).state_spec() == UserState::ReadyToComputeWitness
                &&& final(self).pk_spec() == old(self).pk_spec()
                &&& final(self).m0_val() == old(self).m0_val()
                &&& final(self).m1_val() == old(self).m1_val()
            },
            old(self).state_spec() == UserState::ReadyToCommit ==> (r matches Ok((w, x)) ==> {
                &&& g1_valid(w)
                &&& g1_valid(x)
                &&& g1_val(w) == commit_w(
                    g1_val(old(self).pk_spec().g1),
                    g1_val(old(self).pk_spec().h1),
                    g1_val(old(self).pk_spec().u1),
                    g1_val(old(self).pk_spec().v1),
                    old(self).m0_val(),
                    final(self).a1_val(),
                    final(self).a2_val(),
                    final(self).a3_val(),
                )
                &&& g1_val(x) == commit_x(
                    g1_val(old(self).pk_spec().g1),
                    g1_val(old(self).pk_spec().h1),
                    g1_val(old(self).pk_spec().u1),
                    g1_val(old(self).pk_spec().v1),
                    old(self).m0_val(),
                    old(self).m1_val(),
                    final(self).s_val(),
                    final(self).t_val(),
                )
            }),
    {
        match self.state {
            UserState::ReadyToCommit => {},
            _ => { return Err(Error::InvalidState) },
        }

        let a1 = self.rng.next_nonzero_scalar();
        let a2 = self.rng.next_nonzero_scalar();
        let a3 = self.rng.next_nonzero_scalar();
        let s = self.rng.next_nonzero_scalar();
        let t = self.rng.next_nonzero_scalar();

        let pk = &self.public_key;

        let m0_t = scalar_mul(&self.m0, &t);
        let m1_t = scalar_mul(&self.m1, &t);
        let s_t = scalar_mul(&s, &t);
        let x_h = g1_scalar_mul(&pk.h1, &m0_t);
        let x_g = g1_scalar_mul(&pk.g1, &m1_t);
        let x_u = g1_scalar_mul(&pk.u1, &t);
        let x_v = g1_scalar_mul(&pk.v1, &s_t);
        let x_sum1 = g1_add(&x_h, &x_g);
        let x_sum2 = g1_add(&x_sum1, &x_u);
        let x = g1_add(&x_sum2, &x_v);

        let m0_a2 = scalar_mul(&self.m0, &a2);
        let w_h = g1_scalar_mul(&pk.h1, &m0_a2);
        let w_g = g1_scalar_mul(&pk.g1, &a1);
        let w_u = g1_scalar_mul(&pk.u1, &a2);
        let w_v = g1_scalar_mul(&pk.v1, &a3);
        let w_sum1 = g1_add(&w_h, &w_g);
        let w_sum2 = g1_add(&w_sum1, &w_u);
        let w = g1_add(&w_sum2, &w_v);

        self.a1 = a1;
        self.a2 = a2;
        self.a3 = a3;
        self.s = s;
        self.t = t;
        self.state = UserState::ReadyToComputeWitness;

        Ok((w, x))
    }

    /// Answer the signer's challenge with the witness `b1 = a1 + eta*m1*t`,
    /// `b2 = a2 + eta*t`, `b3 = a3 + eta*s*t`.
    pub fn compute_witness(&mut self, eta: &bls12_381::Scalar) -> (r: Result<
        (bls12_381::Scalar, bls12_381::Scalar, bls12_381::Scalar),
        Error,
    >)
        requires
            old(self).wf(),
        ensures
            final(self).wf(),
            old(self).state_spec() != UserState::ReadyToComputeWitness ==> r == Err::<
                (bls12_381::Scalar, bls12_381::Scalar, bls12_381::Scalar),
                Error,
            >(Error::InvalidState) && *final(self) == *old(self),
            old(self).state_spec() == UserState::ReadyToComputeWitness ==> {
                &&& r is Ok
                &&& final(self).state_spec() == UserState::ReadyToSign
                &&& final(self).pk_spec() == old(self).pk_spec()
                &&& final(self).m0_val() == old(self).m0_val()
                &&& final(self).m1_val() == old(self).m1_val()
                &&& final(self).s_val() == old(self).s_val()
                &&& final(self).t_val() == old(self).t_val()
            },
            old(self).state_spec() == UserState::ReadyToComputeWitness ==> (r matches Ok(
                (b1, b2, b3),
            ) ==> {
                &&& scalar_val(b1) == witness_b1(
                    old(self).a1_val(),
                    scalar_val(*eta),
                    old(self).m1_val(),
                    old(self).t_val(),
                )
                &&& scalar_val(b2) == witness_b2(
                    old(self).a2_val(),
                    scalar_val(*eta),
                    old(self).t_val(),
                )
                &&& scalar_val(b3) == witness_b3(
                    old(self).a3_val(),
                    scalar_val(*eta),
                    old(self).s_val(),
                    old(self).t_val(),
                )
            }),
    {
        match self.state {
            UserState::ReadyToComputeWitness => {},
            _ => { return Err(Error::InvalidState) },
        }

        let eta_m1 = scalar_mul(eta, &self.m1);
        let eta_m1_t = scalar_mul(&eta_m1, &self.t);
        let b1 = scalar_add(&self.a1, &eta_m1_t);

        let eta_t = scalar_mul(eta, &self.t);
        let b2 = scalar_add(&self.a2, &eta_t);

        let eta_s = scalar_mul(eta, &self.s);
        let eta_s_t = scalar_mul(&eta_s, &self.t);
        let b3 = scalar_add(&self.a3, &eta_s_t);

        self.state = UserState::ReadyToSign;

        Ok((b1, b2, b3))
    }

    /// Unblind the signer's partial signature `(Y, R, l)` into the final
    /// signature `(sigma, alpha, beta)`: for a fresh nonzero `f`,
    /// `sigma = Y*(f*t)^(-1)`, `alpha = w2*(f-1) + R*f` and
    /// `beta = s + l*t^(-1)`.  If the drawn `f` makes `f*t` uninvertible —
    /// an event no honest run produces — the session aborts with
    /// [`Error::ScalarIsZero`] rather than resample.
    #[verifier::rlimit(60)]
    #[verifier::spinoff_prover]
    pub fn sign(
        &mut self,
        y: &bls12_381::G1Affine,
        rr: &bls12_381::G2Affine,
        l: &bls12_381::Scalar,
    ) -> (r: Result<(bls12_381::G1Affine, bls12_381::G2Affine, bls12_381::Scalar), Error>)
        requires
            old(self).wf(),
        ensures
            final(self).wf(),
            old(self).state_spec() != UserState::ReadyToSign ==> r == Err::<
                (bls12_381::G1Affine, bls12_381::G2Affine, bls12_381::Scalar),
                Error,
            >(Error::InvalidState) && *final(self) == *old(self),
            old(self).state_spec() == UserState::ReadyToSign ==> (r matches Ok((sigma, alpha, beta))
                ==> {
                &&& final(self).state_spec() == UserState::Signed
                &&& final_signature_ok(
                    *y,
                    *rr,
                    old(self).pk_spec().w2,
                    sigma,
                    alpha,
                    scalar_val(beta),
                    old(self).s_val(),
                    old(self).t_val(),
                    scalar_val(*l),
                )
            }),
            old(self).state_spec() == UserState::ReadyToSign && !(r is Ok) ==> {
                &&& r == Err::<
                    (bls12_381::G1Affine, bls12_381::G2Affine, bls12_381::Scalar),
                    Error,
                >(Error::ScalarIsZero)
                &&& final(self).state_spec() == UserState::Aborted
                &&& exists|fv: nat|
                    in_field(fv) && fv != 0 && #[trigger] fmul(fv, old(self).t_val()) == 0
            },
    {
        match self.state {
            UserState::ReadyToSign => {},
            _ => { return Err(Error::InvalidState) },
        }

        let f = self.rng.next_nonzero_scalar();
        let f_t = scalar_mul(&f, &self.t);
        let tau = match scalar_invert(&f_t) {
            Some(tau) => tau,
            None => {
                self.state = UserState::Aborted;
                return Err(Error::ScalarIsZero);
            },
        };
        let t_inv = match scalar_invert(&self.t) {
            Some(t_inv) => t_inv,
            None => {
                // The invariant rules a zero `t` out in this state.
                proof {
                    assert(false);
                }
                self.state = UserState::Aborted;
                return Err(Error::ScalarIsZero);
            },
        };

        let sigma = g1_scalar_mul(y, &tau);

        let one = scalar_one();
        let f_minus_1 = scalar_sub(&f, &one);
        let w2_f1 = g2_scalar_mul(&self.public_key.w2, &f_minus_1);
        let r_f = g2_scalar_mul(rr, &f);
        let alpha = g2_add(&w2_f1, &r_f);

        let l_tinv = scalar_mul(l, &t_inv);
        let beta = scalar_add(&self.s, &l_tinv);

        self.state = UserState::Signed;

        proof {
            assert(final_signature_consistent(
                *y,
                *rr,
                old(self).pk_spec().w2,
                sigma,
                alpha,
                scalar_val(beta),
                old(self).s_val(),
                old(self).t_val(),
                scalar_val(*l),
                scalar_val(f),
                scalar_val(tau),
                scalar_val(t_inv),
            ));
            assert(final_signature_ok(
                *y,
                *rr,
                old(self).pk_spec().w2,
                sigma,
                alpha,
                scalar_val(beta),
                old(self).s_val(),
                old(self).t_val(),
                scalar_val(*l),
            ));
        }

        Ok((sigma, alpha, beta))
    }

    /// Abort the session, permanently retiring it.
    pub fn abort(&mut self)
        requires
            old(self).wf(),
        ensures
            final(self).wf(),
            final(self).state_spec() == UserState::Aborted,
            final(self).pk_spec() == old(self).pk_spec(),
            final(self).m0_val() == old(self).m0_val(),
            final(self).m1_val() == old(self).m1_val(),
    {
        self.state = UserState::Aborted;
    }
}

} // verus!
