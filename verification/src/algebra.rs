//! The protocol's algebraic identities, proved over the scalar-field
//! model.
//!
//! These laws tie the contracts of the two state machines to the
//! verifier's pairing check: an honest run of the four-step exchange
//! passes the signer's witness check and produces a signature that
//! satisfies the verification equation, and the witness check pins each
//! witness component.

use vstd::prelude::*;
use vstd::arithmetic::div_mod::{
    lemma_add_mod_noop, lemma_add_mod_noop_right, lemma_mul_mod_noop_general, lemma_small_mod,
};
use vstd::arithmetic::mul::{lemma_mul_is_associative, lemma_mul_is_distributive_add_other_way};
use crate::field::{
    fadd, fmul, fsub, in_field, lemma_fmul_assoc, lemma_fmul_cancel, lemma_fmul_one,
    lemma_fmul_zero, lemma_mod_add_cancel, lemma_mod_mul_cong, lemma_mod_mul_unit, q,
};
use crate::model::{
    commit_w, commit_x, sig_equation, witness_b1, witness_b2, witness_b3, witness_lhs, witness_rhs,
};

verus! {

/// A four-term model sum equals the sum of the terms' integer images,
/// reduced once.
proof fn lemma_fadd4_int(t1: nat, t2: nat, t3: nat, t4: nat, p1: int, p2: int, p3: int, p4: int)
    requires
        t1 as int == p1 % (q() as int),
        t2 as int == p2 % (q() as int),
        t3 as int == p3 % (q() as int),
        t4 as int == p4 % (q() as int),
    ensures
        fadd(fadd(fadd(t1, t2), t3), t4) as int == (p1 + p2 + p3 + p4) % (q() as int),
{
    let m = q() as int;
    lemma_add_mod_noop(p1, p2, m);
    lemma_add_mod_noop(p1 + p2, p3, m);
    lemma_add_mod_noop(p1 + p2 + p3, p4, m);
}

/// The honest witness satisfies the signer's check: substituting
/// `b1 = a1 + eta*m1*t`, `b2 = a2 + eta*t`, `b3 = a3 + eta*s*t` into the
/// check's left side yields exactly `W + X*eta` for the honest
/// commitments.  This holds for every choice of generators, messages,
/// blinding scalars and challenge.
pub proof fn lemma_honest_witness_accepts(
    g: nat,
    h: nat,
    u: nat,
    v: nat,
    m0: nat,
    m1: nat,
    a1: nat,
    a2: nat,
    a3: nat,
    s: nat,
    t: nat,
    eta: nat,
)
    ensures
        witness_lhs(
            g,
            h,
            u,
            v,
            m0,
            witness_b1(a1, eta, m1, t),
            witness_b2(a2, eta, t),
            witness_b3(a3, eta, s, t),
        ) == witness_rhs(
            commit_w(g, h, u, v, m0, a1, a2, a3),
            commit_x(g, h, u, v, m0, m1, s, t),
            eta,
        ),
{
    let m = q() as int;
    let b1 = witness_b1(a1, eta, m1, t);
    let b2 = witness_b2(a2, eta, t);
    let b3 = witness_b3(a3, eta, s, t);
    let gi = g as int;
    let hi = h as int;
    let ui = u as int;
    let vi = v as int;
    let m0i = m0 as int;
    let m1i = m1 as int;
    let a1i = a1 as int;
    let a2i = a2 as int;
    let a3i = a3 as int;
    let si = s as int;
    let ti = t as int;
    let ei = eta as int;
    let ib1: int = a1i + ei * m1i * ti;
    let ib2: int = a2i + ei * ti;
    let ib3: int = a3i + ei * si * ti;

    assert(b1 as int == ib1 % m) by {
        lemma_mul_mod_noop_general(ei * m1i, ti, m);
        lemma_add_mod_noop_right(a1i, (ei * m1i) * ti, m);
        assert((ei * m1i) * ti == ei * m1i * ti) by (nonlinear_arith);
    };
    assert(b2 as int == ib2 % m) by {
        lemma_add_mod_noop_right(a2i, ei * ti, m);
    };
    assert(b3 as int == ib3 % m) by {
        lemma_mul_mod_noop_general(ei * si, ti, m);
        lemma_add_mod_noop_right(a3i, (ei * si) * ti, m);
        assert((ei * si) * ti == ei * si * ti) by (nonlinear_arith);
    };

    // The left side as one reduced integer polynomial.
    let lp1: int = hi * (m0i * ib2);
    let lp2: int = gi * ib1;
    let lp3: int = ui * ib2;
    let lp4: int = vi * ib3;
    assert(fmul(h, fmul(m0, b2)) as int == lp1 % m) by {
        lemma_mul_mod_noop_general(m0i, ib2, m);
        lemma_mul_mod_noop_general(hi, m0i * ib2, m);
    };
    assert(fmul(g, b1) as int == lp2 % m) by {
        lemma_mul_mod_noop_general(gi, ib1, m);
    };
    assert(fmul(u, b2) as int == lp3 % m) by {
        lemma_mul_mod_noop_general(ui, ib2, m);
    };
    assert(fmul(v, b3) as int == lp4 % m) by {
        lemma_mul_mod_noop_general(vi, ib3, m);
    };
    lemma_fadd4_int(fmul(h, fmul(m0, b2)), fmul(g, b1), fmul(u, b2), fmul(v, b3), lp1, lp2, lp3, lp4);

    // The commitments as reduced integer polynomials.
    let wp: int = hi * (m0i * a2i) + gi * a1i + ui * a2i + vi * a3i;
    let xp: int = hi * (m0i * ti) + gi * (m1i * ti) + ui * ti + vi * (si * ti);
    assert(fmul(h, fmul(m0, a2)) as int == (hi * (m0i * a2i)) % m) by {
        lemma_mul_mod_noop_general(hi, m0i * a2i, m);
    };
    assert(fmul(h, fmul(m0, t)) as int == (hi * (m0i * ti)) % m) by {
        lemma_mul_mod_noop_general(hi, m0i * ti, m);
    };
    assert(fmul(g, fmul(m1, t)) as int == (gi * (m1i * ti)) % m) by {
        lemma_mul_mod_noop_general(gi, m1i * ti, m);
    };
    assert(fmul(v, fmul(s, t)) as int == (vi * (si * ti)) % m) by {
        lemma_mul_mod_noop_general(vi, si * ti, m);
    };
    lemma_fadd4_int(
        fmul(h, fmul(m0, a2)),
        fmul(g, a1),
        fmul(u, a2),
        fmul(v, a3),
        hi * (m0i * a2i),
        gi * a1i,
        ui * a2i,
        vi * a3i,
    );
    lemma_fadd4_int(
        fmul(h, fmul(m0, t)),
        fmul(g, fmul(m1, t)),
        fmul(u, t),
        fmul(v, fmul(s, t)),
        hi * (m0i * ti),
        gi * (m1i * ti),
        ui * ti,
        vi * (si * ti),
    );

    // The right side `W + X*eta` as one reduced integer polynomial.
    let w_val = commit_w(g, h, u, v, m0, a1, a2, a3);
    let x_val = commit_x(g, h, u, v, m0, m1, s, t);
    assert(fmul(x_val, eta) as int == (xp * ei) % m) by {
        lemma_mul_mod_noop_general(xp, ei, m);
    };
    assert(witness_rhs(w_val, x_val, eta) as int == (wp + xp * ei) % m) by {
        lemma_add_mod_noop(wp, xp * ei, m);
    };

    // The two polynomials coincide, term by term.
    assert(hi * (m0i * (a2i + ei * ti)) == hi * (m0i * a2i) + hi * (m0i * ti) * ei)
        by (nonlinear_arith);
    assert(gi * (a1i + ei * m1i * ti) == gi * a1i + gi * (m1i * ti) * ei) by (nonlinear_arith);
    assert(ui * (a2i + ei * ti) == ui * a2i + ui * ti * ei) by (nonlinear_arith);
    assert(vi * (a3i + ei * si * ti) == vi * a3i + vi * (si * ti) * ei) by (nonlinear_arith);
    assert((hi * (m0i * ti) + gi * (m1i * ti) + ui * ti + vi * (si * ti)) * ei == hi * (m0i * ti)
        * ei + gi * (m1i * ti) * ei + ui * ti * ei + vi * (si * ti) * ei) by (nonlinear_arith);
    assert(lp1 + lp2 + lp3 + lp4 == wp + xp * ei);
}

/// Reduce the left pairing exponent of an honestly blinded signature:
/// cancel the inverse of `x + r`, then trade `tau*f` for the inverse of
/// `t`.  All quantities are integer images; `ci` stands for `x + r`.
proof fn lemma_lhs_exponent(
    pa: int,
    pl: int,
    pe: int,
    ti_: int,
    taui: int,
    fi: int,
    gi: int,
    tii: int,
    ixri: int,
    ci: int,
)
    requires
        pe == pa * ti_ + pl,
        (ixri * ci) % (q() as int) == 1,
        (taui * (fi * ti_)) % (q() as int) == 1,
        (tii * ti_) % (q() as int) == 1,
    ensures
        (((pe * ixri) * taui) * ((gi * fi) * ci)) % (q() as int) == ((pa * gi) + pl * (gi * tii))
            % (q() as int),
{
    let m = q() as int;
    let d = pe * taui;
    let e = gi * fi;
    assert(((pe * ixri) * taui) * (e * ci) == (d * e) * (ixri * ci)) by (nonlinear_arith)
        requires
            d == pe * taui,
    ;
    lemma_mod_mul_unit(d * e, ixri * ci);
    assert((((pe * ixri) * taui) * (e * ci)) % m == (d * e) % m);

    assert(d == (pa * ti_) * taui + pl * taui) by (nonlinear_arith)
        requires
            d == pe * taui,
            pe == pa * ti_ + pl,
    ;
    let d1 = (pa * ti_) * taui;
    let d2 = pl * taui;
    assert(d * e == d1 * e + d2 * e) by (nonlinear_arith)
        requires
            d == d1 + d2,
    ;
    assert(d1 * e == (pa * gi) * (taui * (fi * ti_))) by (nonlinear_arith)
        requires
            d1 == (pa * ti_) * taui,
            e == gi * fi,
    ;
    lemma_mod_mul_unit(pa * gi, taui * (fi * ti_));
    assert((d1 * e) % m == (pa * gi) % m);

    let w = pl * gi;
    assert(d2 * e == (w * taui) * fi) by (nonlinear_arith)
        requires
            d2 == pl * taui,
            e == gi * fi,
            w == pl * gi,
    ;
    lemma_mod_mul_unit((w * taui) * fi, tii * ti_);
    assert(((w * taui) * fi) * (tii * ti_) == (w * tii) * (taui * (fi * ti_))) by (nonlinear_arith);
    lemma_mod_mul_unit(w * tii, taui * (fi * ti_));
    assert((d2 * e) % m == (w * tii) % m);

    lemma_add_mod_noop(d1 * e, d2 * e, m);
    lemma_add_mod_noop(pa * gi, w * tii, m);
    assert((d * e) % m == ((pa * gi) + w * tii) % m);
    assert(pl * (gi * tii) == w * tii) by (nonlinear_arith)
        requires
            w == pl * gi,
    ;
}

/// An honestly blinded signature satisfies the verification equation.
///
/// The hypotheses are exactly what the state machines' contracts provide
/// after an honest run with a matched public key whose generator discrete
/// logarithms are `g`, `h`, `u`, `v` and whose secret exponent is `x`:
/// the user committed `X` from `(m0, m1, s, t)`, the signer answered with
/// `Y = (X + v*l)*(x + r)^(-1)` and `R = g*r`, and the user unblinded
/// with a nonzero `f`, the inverse `tau` of `f*t` and the inverse `ti` of
/// `t`.  The conclusion is the verifier's pairing identity for
/// `sigma = Y*tau`, `alpha = w2*(f-1) + R*f` and `beta = s + l*ti`, with
/// `w2 = g*x`.
#[verifier::rlimit(100)]
#[verifier::spinoff_prover]
pub proof fn lemma_blinded_signature_verifies(
    g: nat,
    h: nat,
    u: nat,
    v: nat,
    x: nat,
    m0: nat,
    m1: nat,
    s: nat,
    t: nat,
    lv: nat,
    rv: nat,
    ixr: nat,
    fv: nat,
    tau: nat,
    ti: nat,
)
    requires
        fmul(ixr, fadd(x, rv)) == 1,
        fmul(tau, fmul(fv, t)) == 1,
        fmul(ti, t) == 1,
    ensures
        ({
            let xv = commit_x(g, h, u, v, m0, m1, s, t);
            let yv = fmul(fadd(xv, fmul(v, lv)), ixr);
            let rrv = fmul(g, rv);
            let sigv = fmul(yv, tau);
            let alphav = fadd(fmul(fmul(g, x), fsub(fv, 1)), fmul(rrv, fv));
            let betav = fadd(s, fmul(lv, ti));
            sig_equation(g, h, g, u, v, fmul(g, x), m0, m1, sigv, alphav, betav)
        }),
{
    let m = q() as int;
    let gi = g as int;
    let hi = h as int;
    let ui = u as int;
    let vi = v as int;
    let xi = x as int;
    let m0i = m0 as int;
    let m1i = m1 as int;
    let si = s as int;
    let ti_ = t as int;
    let li = lv as int;
    let ri = rv as int;
    let ixri = ixr as int;
    let fi = fv as int;
    let taui = tau as int;
    let tii = ti as int;

    let xv = commit_x(g, h, u, v, m0, m1, s, t);
    let yv = fmul(fadd(xv, fmul(v, lv)), ixr);
    let rrv = fmul(g, rv);
    let w2v = fmul(g, x);
    let sigv = fmul(yv, tau);
    let alphav = fadd(fmul(w2v, fsub(fv, 1)), fmul(rrv, fv));
    let betav = fadd(s, fmul(lv, ti));

    // The inverse hypotheses, over integers.
    assert((ixri * (xi + ri)) % m == 1) by {
        lemma_mul_mod_noop_general(ixri, xi + ri, m);
    };
    assert((taui * (fi * ti_)) % m == 1) by {
        lemma_mul_mod_noop_general(taui, fi * ti_, m);
    };
    assert((tii * ti_) % m == 1);

    // The commitment X as a reduced integer polynomial.
    let xp: int = hi * (m0i * ti_) + gi * (m1i * ti_) + ui * ti_ + vi * (si * ti_);
    assert(fmul(h, fmul(m0, t)) as int == (hi * (m0i * ti_)) % m) by {
        lemma_mul_mod_noop_general(hi, m0i * ti_, m);
    };
    assert(fmul(g, fmul(m1, t)) as int == (gi * (m1i * ti_)) % m) by {
        lemma_mul_mod_noop_general(gi, m1i * ti_, m);
    };
    assert(fmul(v, fmul(s, t)) as int == (vi * (si * ti_)) % m) by {
        lemma_mul_mod_noop_general(vi, si * ti_, m);
    };
    lemma_fadd4_int(
        fmul(h, fmul(m0, t)),
        fmul(g, fmul(m1, t)),
        fmul(u, t),
        fmul(v, fmul(s, t)),
        hi * (m0i * ti_),
        gi * (m1i * ti_),
        ui * ti_,
        vi * (si * ti_),
    );
    assert(xv as int == xp % m);

    // Y as a reduced integer polynomial.
    let pe: int = xp + vi * li;
    assert(fadd(xv, fmul(v, lv)) as int == pe % m) by {
        lemma_add_mod_noop(xp, vi * li, m);
    };
    let py: int = pe * ixri;
    assert(yv as int == py % m) by {
        lemma_mul_mod_noop_general(pe, ixri, m);
    };

    // sigma as a reduced integer polynomial.
    let psig: int = py * taui;
    assert(sigv as int == psig % m) by {
        lemma_mul_mod_noop_general(py, taui, m);
    };

    // alpha and w2 + alpha as reduced integer polynomials.
    let palpha: int = (gi * xi) * (fi - 1) + (gi * ri) * fi;
    assert(fmul(w2v, fsub(fv, 1)) as int == ((gi * xi) * (fi - 1)) % m) by {
        lemma_mul_mod_noop_general(gi * xi, fi - 1, m);
    };
    assert(fmul(rrv, fv) as int == ((gi * ri) * fi) % m) by {
        lemma_mul_mod_noop_general(gi * ri, fi, m);
    };
    assert(alphav as int == palpha % m) by {
        lemma_add_mod_noop((gi * xi) * (fi - 1), (gi * ri) * fi, m);
    };
    let psum2: int = gi * xi + palpha;
    assert(fadd(w2v, alphav) as int == psum2 % m) by {
        lemma_add_mod_noop(gi * xi, palpha, m);
    };
    assert(psum2 == (gi * fi) * (xi + ri)) by (nonlinear_arith)
        requires
            psum2 == gi * xi + (gi * xi) * (fi - 1) + (gi * ri) * fi,
    ;

    // beta as a reduced integer polynomial.
    let pbeta: int = si + li * tii;
    assert(betav as int == pbeta % m) by {
        lemma_add_mod_noop_right(si, li * tii, m);
    };

    // The left pairing exponent.
    let lhs = fmul(sigv, fadd(w2v, alphav));
    assert(lhs as int == (psig * psum2) % m) by {
        lemma_mul_mod_noop_general(psig, psum2, m);
    };
    let pa: int = hi * m0i + gi * m1i + ui + vi * si;
    let pl: int = vi * li;
    // X factors as t times the verifier's bracket without the l term.
    assert(xp == pa * ti_) by {
        lemma_mul_is_associative(hi, m0i, ti_);
        lemma_mul_is_associative(gi, m1i, ti_);
        lemma_mul_is_associative(vi, si, ti_);
        lemma_mul_is_distributive_add_other_way(ti_, hi * m0i, gi * m1i);
        lemma_mul_is_distributive_add_other_way(ti_, hi * m0i + gi * m1i, ui);
        lemma_mul_is_distributive_add_other_way(ti_, hi * m0i + gi * m1i + ui, vi * si);
    };
    lemma_lhs_exponent(pa, pl, pe, ti_, taui, fi, gi, tii, ixri, xi + ri);
    assert(lhs as int == ((pa * gi) + pl * (gi * tii)) % m);

    // The right pairing exponent.
    let rhs_inner = fadd(fadd(fadd(fmul(h, m0), fmul(g, m1)), u), fmul(v, betav));
    let rhs = fmul(g, rhs_inner);
    assert(fmul(v, betav) as int == (vi * pbeta) % m) by {
        lemma_mul_mod_noop_general(vi, pbeta, m);
    };
    assert(rhs_inner as int == (hi * m0i + gi * m1i + ui + vi * pbeta) % m) by {
        lemma_add_mod_noop(hi * m0i, gi * m1i, m);
        lemma_add_mod_noop_right((hi * m0i + gi * m1i) % m + ui, vi * pbeta, m);
        lemma_add_mod_noop_right(ui, hi * m0i + gi * m1i, m);
        lemma_add_mod_noop(hi * m0i + gi * m1i + ui, vi * pbeta, m);
    };
    assert(rhs as int == (gi * (hi * m0i + gi * m1i + ui + vi * pbeta)) % m) by {
        lemma_mul_mod_noop_general(gi, hi * m0i + gi * m1i + ui + vi * pbeta, m);
    };
    assert(gi * (hi * m0i + gi * m1i + ui + vi * pbeta) == (pa * gi) + pl * (gi * tii))
        by (nonlinear_arith)
        requires
            pbeta == si + li * tii,
            pa == hi * m0i + gi * m1i + ui + vi * si,
            pl == vi * li,
    ;
    assert(lhs == rhs);
}

/// An honest four-step exchange yields a signature that the verifier
/// accepts.
///
/// The hypotheses are the model facts that the session contracts provide
/// for a matched key whose generator discrete logarithms are `g`, `h`,
/// `u`, `v` and whose secret exponent is `x`: the commitment `X` was
/// built by [`User::commit`](crate::user::User::commit), the partial
/// signature is consistent in the sense of
/// [`partial_signature_consistent`](crate::signer::partial_signature_consistent),
/// and the user unblinded with inverse witnesses `tau` of `f*t` and `ti`
/// of `t`.  The conclusion is the verifier's pairing identity, and — as
/// long as the signer's numerator `X + v*l` was nonzero — that `sigma`
/// is not the identity, so
/// [`verify_signature`](crate::verify::verify_signature) returns success.
pub proof fn lemma_honest_exchange_verifies(
    g: nat,
    h: nat,
    u: nat,
    v: nat,
    x: nat,
    m0: nat,
    m1: nat,
    s: nat,
    t: nat,
    xv: nat,
    yv: nat,
    rrv: nat,
    lv: nat,
    rv: nat,
    ixr: nat,
    sigv: nat,
    alphav: nat,
    betav: nat,
    fv: nat,
    tau: nat,
    ti: nat,
)
    requires
        xv == commit_x(g, h, u, v, m0, m1, s, t),
        crate::signer::partial_signature_consistent(x, g, v, xv, yv, rrv, lv, rv, ixr),
        sigv == fmul(yv, tau),
        alphav == fadd(fmul(fmul(g, x), fsub(fv, 1)), fmul(rrv, fv)),
        betav == fadd(s, fmul(lv, ti)),
        fmul(tau, fmul(fv, t)) == 1,
        fmul(ti, t) == 1,
    ensures
        sig_equation(g, h, g, u, v, fmul(g, x), m0, m1, sigv, alphav, betav),
        fadd(xv, fmul(v, lv)) != 0 ==> sigv != 0,
{
    lemma_blinded_signature_verifies(g, h, u, v, x, m0, m1, s, t, lv, rv, ixr, fv, tau, ti);
    if fadd(xv, fmul(v, lv)) != 0 {
        lemma_blinded_signature_nonzero(fadd(xv, fmul(v, lv)), ixr, tau, fv, t, x, rv);
    }
}

/// An honestly blinded signature is not the identity whenever the
/// signer's numerator `X + v*l` is nonzero: the two inversions cannot
/// send a nonzero value to zero.
pub proof fn lemma_blinded_signature_nonzero(
    ev: nat,
    ixr: nat,
    tau: nat,
    fv: nat,
    t: nat,
    x: nat,
    rv: nat,
)
    requires
        in_field(ev),
        ev != 0,
        fmul(ixr, fadd(x, rv)) == 1,
        fmul(tau, fmul(fv, t)) == 1,
    ensures
        fmul(fmul(ev, ixr), tau) != 0,
{
    let yv = fmul(ev, ixr);
    let sigv = fmul(yv, tau);
    lemma_fmul_cancel(ev, ixr, fadd(x, rv));
    lemma_fmul_zero(fadd(x, rv));
    assert(yv != 0);
    lemma_fmul_assoc(yv, tau, fmul(fv, t));
    lemma_fmul_one(yv);
    lemma_fmul_zero(fmul(fv, t));
    assert(sigv != 0);
}

/// The signer's witness check, as one reduced integer polynomial.
proof fn lemma_witness_lhs_int(g: nat, h: nat, u: nat, v: nat, m0: nat, b1: nat, b2: nat, b3: nat)
    ensures
        witness_lhs(g, h, u, v, m0, b1, b2, b3) as int == ((h as int) * ((m0 as int) * (b2 as int))
            + (g as int) * (b1 as int) + (u as int) * (b2 as int) + (v as int) * (b3 as int)) % (
        q() as int),
{
    let m = q() as int;
    assert(fmul(h, fmul(m0, b2)) as int == ((h as int) * ((m0 as int) * (b2 as int))) % m) by {
        lemma_mul_mod_noop_general(h as int, (m0 as int) * (b2 as int), m);
    };
    lemma_fadd4_int(
        fmul(h, fmul(m0, b2)),
        fmul(g, b1),
        fmul(u, b2),
        fmul(v, b3),
        (h as int) * ((m0 as int) * (b2 as int)),
        (g as int) * (b1 as int),
        (u as int) * (b2 as int),
        (v as int) * (b3 as int),
    );
}

/// Cancel a common context from two passing checks and invert the
/// coefficient: two reduced values that agree under `s + k*b` modulo the
/// group order are equal whenever `k` has an inverse.
proof fn lemma_affine_binding(sdiff: int, k: int, kinv: int, b: nat, c: nat)
    requires
        in_field(b),
        in_field(c),
        (kinv * k) % (q() as int) == 1,
        (sdiff + k * b) % (q() as int) == (sdiff + k * c) % (q() as int),
    ensures
        b == c,
{
    let m = q() as int;
    lemma_mod_add_cancel(sdiff, k * b, k * c);
    lemma_mod_mul_cong(k * b, k * c, kinv);
    assert((k * b) * kinv == b * (kinv * k)) by (nonlinear_arith);
    assert((k * c) * kinv == c * (kinv * k)) by (nonlinear_arith);
    lemma_mod_mul_unit(b as int, kinv * k);
    lemma_mod_mul_unit(c as int, kinv * k);
    lemma_small_mod(b, q());
    lemma_small_mod(c, q());
}

/// The witness check pins `b1`: two passing witnesses that agree on `b2`
/// and `b3` agree on `b1`, whenever the generator exponent `g` is
/// invertible.
pub proof fn lemma_witness_binds_b1(
    g: nat,
    h: nat,
    u: nat,
    v: nat,
    m0: nat,
    b1: nat,
    b2: nat,
    b3: nat,
    c1: nat,
    ginv: nat,
)
    requires
        in_field(b1),
        in_field(c1),
        fmul(ginv, g) == 1,
        witness_lhs(g, h, u, v, m0, b1, b2, b3) == witness_lhs(g, h, u, v, m0, c1, b2, b3),
    ensures
        b1 == c1,
{
    let m = q() as int;
    lemma_witness_lhs_int(g, h, u, v, m0, b1, b2, b3);
    lemma_witness_lhs_int(g, h, u, v, m0, c1, b2, b3);
    let sdiff: int = (h as int) * ((m0 as int) * (b2 as int)) + (u as int) * (b2 as int) + (
    v as int) * (b3 as int);
    lemma_affine_binding(sdiff, g as int, ginv as int, b1, c1);
}

/// The witness check pins `b3`: two passing witnesses that agree on `b1`
/// and `b2` agree on `b3`, whenever the generator exponent `v` is
/// invertible.
pub proof fn lemma_witness_binds_b3(
    g: nat,
    h: nat,
    u: nat,
    v: nat,
    m0: nat,
    b1: nat,
    b2: nat,
    b3: nat,
    c3: nat,
    vinv: nat,
)
    requires
        in_field(b3),
        in_field(c3),
        fmul(vinv, v) == 1,
        witness_lhs(g, h, u, v, m0, b1, b2, b3) == witness_lhs(g, h, u, v, m0, b1, b2, c3),
    ensures
        b3 == c3,
{
    let m = q() as int;
    lemma_witness_lhs_int(g, h, u, v, m0, b1, b2, b3);
    lemma_witness_lhs_int(g, h, u, v, m0, b1, b2, c3);
    let sdiff: int = (h as int) * ((m0 as int) * (b2 as int)) + (g as int) * (b1 as int) + (
    u as int) * (b2 as int);
    lemma_affine_binding(sdiff, v as int, vinv as int, b3, c3);
}

/// The witness check pins `b2`: two passing witnesses that agree on `b1`
/// and `b3` agree on `b2`, whenever the combined coefficient `h*m0 + u`
/// is invertible.
pub proof fn lemma_witness_binds_b2(
    g: nat,
    h: nat,
    u: nat,
    v: nat,
    m0: nat,
    b1: nat,
    b2: nat,
    b3: nat,
    c2: nat,
    kinv: nat,
)
    requires
        in_field(b2),
        in_field(c2),
        fmul(kinv, fadd(fmul(h, m0), u)) == 1,
        witness_lhs(g, h, u, v, m0, b1, b2, b3) == witness_lhs(g, h, u, v, m0, b1, c2, b3),
    ensures
        b2 == c2,
{
    let m = q() as int;
    let hi = h as int;
    let ui = u as int;
    let m0i = m0 as int;
    let ki: int = hi * m0i + ui;
    lemma_witness_lhs_int(g, h, u, v, m0, b1, b2, b3);
    lemma_witness_lhs_int(g, h, u, v, m0, b1, c2, b3);
    assert(hi * (m0i * (b2 as int)) + ui * (b2 as int) == ki * (b2 as int)) by (nonlinear_arith)
        requires
            ki == hi * m0i + ui,
    ;
    assert(hi * (m0i * (c2 as int)) + ui * (c2 as int) == ki * (c2 as int)) by (nonlinear_arith)
        requires
            ki == hi * m0i + ui,
    ;
    // The inverse hypothesis, over integers.
    assert(((kinv as int) * ki) % m == 1) by {
        assert(fadd(fmul(h, m0), u) as int == ki % m) by {
            lemma_add_mod_noop_right(ui, hi * m0i, m);
        };
        lemma_mul_mod_noop_general(kinv as int, ki, m);
    };
    let sdiff: int = (g as int) * (b1 as int) + (v as int) * (b3 as int);
    lemma_affine_binding(sdiff, ki, kinv as int, b2, c2);
}

} // verus!
