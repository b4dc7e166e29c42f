//! The algebra of the protocol, written over the scalar-field model.
//!
//! Group elements appear here as their discrete logarithms (see
//! [`crate::group`]): a product of a generator's logarithm with a scalar
//! stands for a scalar multiplication, a sum for a point addition, and the
//! pairing turns into multiplication of logarithms.

use vstd::prelude::*;
use crate::field::{fadd, fmul};

verus! {

/// The discrete logarithm of the user's blinding commitment
/// `W = h1*(m0*a2) + g1*a1 + u1*a2 + v1*a3`.
pub open spec fn commit_w(g: nat, h: nat, u: nat, v: nat, m0: nat, a1: nat, a2: nat, a3: nat) -> nat {
    fadd(fadd(fadd(fmul(h, fmul(m0, a2)), fmul(g, a1)), fmul(u, a2)), fmul(v, a3))
}

/// The discrete logarithm of the user's message commitment
/// `X = h1*(m0*t) + g1*(m1*t) + u1*t + v1*(s*t)`.
pub open spec fn commit_x(
    g: nat,
    h: nat,
    u: nat,
    v: nat,
    m0: nat,
    m1: nat,
    s: nat,
    t: nat,
) -> nat {
    fadd(fadd(fadd(fmul(h, fmul(m0, t)), fmul(g, fmul(m1, t))), fmul(u, t)), fmul(v, fmul(s, t)))
}

/// The first witness component `b1 = a1 + eta*m1*t`.
pub open spec fn witness_b1(a1: nat, eta: nat, m1: nat, t: nat) -> nat {
    fadd(a1, fmul(fmul(eta, m1), t))
}

/// The second witness component `b2 = a2 + eta*t`.
pub open spec fn witness_b2(a2: nat, eta: nat, t: nat) -> nat {
    fadd(a2, fmul(eta, t))
}

/// The third witness component `b3 = a3 + eta*s*t`.
pub open spec fn witness_b3(a3: nat, eta: nat, s: nat, t: nat) -> nat {
    fadd(a3, fmul(fmul(eta, s), t))
}

/// The discrete logarithm of the left side of the signer's witness check,
/// `h1*(m0*b2) + g1*b1 + u1*b2 + v1*b3`.
pub open spec fn witness_lhs(
    g: nat,
    h: nat,
    u: nat,
    v: nat,
    m0: nat,
    b1: nat,
    b2: nat,
    b3: nat,
) -> nat {
    fadd(fadd(fadd(fmul(h, fmul(m0, b2)), fmul(g, b1)), fmul(u, b2)), fmul(v, b3))
}

/// The discrete logarithm of the right side of the signer's witness check,
/// `W + X*eta`.
pub open spec fn witness_rhs(w: nat, x: nat, eta: nat) -> nat {
    fadd(w, fmul(x, eta))
}

/// The pairing identity of signature verification, over discrete
/// logarithms: `e(sigma, w2 + alpha) == e(g1, h2*m0 + g2*m1 + u2 + v2*beta)`.
pub open spec fn sig_equation(
    g1v: nat,
    h2v: nat,
    g2v: nat,
    u2v: nat,
    v2v: nat,
    w2v: nat,
    m0: nat,
    m1: nat,
    sigma: nat,
    alpha: nat,
    beta: nat,
) -> bool {
    fmul(sigma, fadd(w2v, alpha)) == fmul(
        g1v,
        fadd(fadd(fadd(fmul(h2v, m0), fmul(g2v, m1)), u2v), fmul(v2v, beta)),
    )
}

} // verus!
