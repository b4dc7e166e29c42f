//! Stateless signature verification against a public key.

use vstd::prelude::*;
use crate::errors::Error;
use crate::group::{
    g1_is_identity, g1_is_on_curve, g1_on_curve, g1_val, g1_valid, g2_add, g2_is_on_curve,
    g2_on_curve, g2_scalar_mul, g2_val, g2_valid, gt_eq, pairing, scalar_val,
};
use crate::keys::{pk_valid, PublicKey};
use crate::model::sig_equation;

verus! {

/// Check a signature triple `(sigma, alpha, beta)` over the messages
/// `(m0, m1)` against a public key.
///
/// The checks run in order and stop at the first failure: `sigma` must not
/// be the identity, `sigma` and `alpha` must lie on their curves, and the
/// pairing identity `e(sigma, w2 + alpha) == e(g1, h2*m0 + g2*m1 + u2 +
/// v2*beta)` must hold.  For a well-formed public key and subgroup points
/// the outcome is exactly the model predicate [`sig_equation`].
pub fn verify_signature(
    public_key: &PublicKey,
    m0: &bls12_381::Scalar,
    m1: &bls12_381::Scalar,
    sigma: &bls12_381::G1Affine,
    alpha: &bls12_381::G2Affine,
    beta: &bls12_381::Scalar,
) -> (r: Result<(), Error>)
    ensures
        r is Ok ==> g1_on_curve(*sigma) && g2_on_curve(*alpha),
        !(r is Ok) ==> r == Err::<(), Error>(Error::InvalidSignature),
        pk_valid(*public_key) && g1_valid(*sigma) && g2_valid(*alpha) ==> (r is Ok <==> (g1_val(
            *sigma,
        ) != 0 && sig_equation(
            g1_val(public_key.g1),
            g2_val(public_key.h2),
            g2_val(public_key.g2),
            g2_val(public_key.u2),
            g2_val(public_key.v2),
            g2_val(public_key.w2),
            scalar_val(*m0),
            scalar_val(*m1),
            g1_val(*sigma),
            g2_val(*alpha),
            scalar_val(*beta),
        ))),
{
    if g1_is_identity(sigma) {
        return Err(Error::InvalidSignature);
    }
    if !g1_is_on_curve(sigma) {
        return Err(Error::InvalidSignature);
    }
    if !g2_is_on_curve(alpha) {
        return Err(Error::InvalidSignature);
    }

    let lhs2 = g2_add(&public_key.w2, alpha);
    let h2_m0 = g2_scalar_mul(&public_key.h2, m0);
    let g2_m1 = g2_scalar_mul(&public_key.g2, m1);
    let v2_beta = g2_scalar_mul(&public_key.v2, beta);
    let sum1 = g2_add(&h2_m0, &g2_m1);
    let sum2 = g2_add(&sum1, &public_key.u2);
    let rhs2 = g2_add(&sum2, &v2_beta);
    let lhs = pairing(sigma, &lhs2);
    let rhs = pairing(&public_key.g1, &rhs2);

    if !gt_eq(&lhs, &rhs) {
        return Err(Error::InvalidSignature);
    }

    Ok(())
}

} // verus!
