//! A mathematical model of the BLS12-381 scalar field: the integers modulo
//! the prime group order, with addition, subtraction and multiplication.
//!
//! Every contract in this crate states group and field computations over
//! these spec functions.

use vstd::prelude::*;
use vstd::arithmetic::div_mod::{
    lemma_mod_twice, lemma_mul_mod_noop_general, lemma_small_mod, lemma_sub_mod_noop,
};
use vstd::arithmetic::mul::lemma_mul_is_associative;

verus! {

/// The order of the BLS12-381 scalar field (a prime).
pub open spec fn q() -> nat {
    0x73eda753299d7d483339d80809a1d80553bda402fffe5bfeffffffff00000001nat
}

/// A scalar value in reduced form.
pub open spec fn in_field(a: nat) -> bool {
    a < q()
}

/// Addition in the scalar field.
pub open spec fn fadd(a: nat, b: nat) -> nat {
    (((a + b) as int) % (q() as int)) as nat
}

/// Subtraction in the scalar field.
pub open spec fn fsub(a: nat, b: nat) -> nat {
    ((a - b) % (q() as int)) as nat
}

/// Multiplication in the scalar field.
pub open spec fn fmul(a: nat, b: nat) -> nat {
    (((a * b) as int) % (q() as int)) as nat
}

/// Multiplication is associative.
pub proof fn lemma_fmul_assoc(a: nat, b: nat, c: nat)
    ensures
        fmul(fmul(a, b), c) == fmul(a, fmul(b, c)),
{
    let m = q() as int;
    lemma_mul_mod_noop_general((a * b) as int, c as int, m);
    lemma_mul_mod_noop_general(a as int, (b * c) as int, m);
    lemma_mul_is_associative(a as int, b as int, c as int);
}

/// One is the multiplicative identity.
pub proof fn lemma_fmul_one(a: nat)
    requires
        in_field(a),
    ensures
        fmul(a, 1) == a,
        fmul(1, a) == a,
{
    lemma_small_mod(a, q());
}

/// Zero annihilates under multiplication.
pub proof fn lemma_fmul_zero(a: nat)
    ensures
        fmul(a, 0) == 0,
        fmul(0, a) == 0,
{
}

/// A factor congruent to one drops out of a product modulo the group
/// order.
pub proof fn lemma_mod_mul_unit(z: int, w: int)
    requires
        w % (q() as int) == 1,
    ensures
        (z * w) % (q() as int) == z % (q() as int),
{
    let m = q() as int;
    lemma_mul_mod_noop_general(z, w, m);
    lemma_mod_twice(z, m);
}

/// Multiplication by a common factor preserves congruence modulo the group
/// order.
pub proof fn lemma_mod_mul_cong(x: int, y: int, k: int)
    requires
        x % (q() as int) == y % (q() as int),
    ensures
        (x * k) % (q() as int) == (y * k) % (q() as int),
{
    let m = q() as int;
    lemma_mul_mod_noop_general(x, k, m);
    lemma_mul_mod_noop_general(y, k, m);
}

/// A common addend cancels from a congruence modulo the group order.
pub proof fn lemma_mod_add_cancel(s: int, a: int, b: int)
    requires
        (s + a) % (q() as int) == (s + b) % (q() as int),
    ensures
        a % (q() as int) == b % (q() as int),
{
    let m = q() as int;
    lemma_sub_mod_noop(s + a, s, m);
    lemma_sub_mod_noop(s + b, s, m);
    assert((s + a - s) % m == (s + b - s) % m);
    assert(s + a - s == a) by {}
    assert(s + b - s == b) by {}
}

/// Multiplying a reduced value by a product that equals one leaves it
/// unchanged: the cancellation step for field inverses.
pub proof fn lemma_fmul_cancel(z: nat, i: nat, m: nat)
    requires
        in_field(z),
        fmul(i, m) == 1,
    ensures
        fmul(fmul(z, i), m) == z,
        fmul(z, fmul(i, m)) == z,
{
    lemma_fmul_assoc(z, i, m);
    lemma_fmul_one(z);
}

} // verus!
