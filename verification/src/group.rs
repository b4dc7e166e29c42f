//! Trusted boundary to the BLS12-381 curve library.
//!
//! The protocol logic never computes curve or field arithmetic itself: every
//! operation goes through one of the wrappers below, whose contracts state
//! what the library computes in terms of a mathematical model.
//!
//! The model: a scalar is its integer value modulo the group order
//! ([`crate::field::q`], written through [`scalar_val`]); a point of either
//! curve group is its discrete logarithm with respect to that group's
//! canonical generator ([`g1_val`], [`g2_val`]); a pairing result is its
//! discrete logarithm with respect to the pairing of the two canonical
//! generators ([`gt_val`]).  A discrete logarithm is well defined only for
//! points of the prime-order subgroup, so the wrapper contracts about values
//! are conditioned on [`g1_in_group`] / [`g2_in_group`] where they must be;
//! for points that are merely on the curve the claims follow from the
//! projection of the full curve group onto its prime-order part, which every
//! group operation and the pairing respect.

use vstd::prelude::*;
use crate::field::{fadd, fmul, fsub, in_field};

verus! {

/// The scalar field of BLS12-381, as implemented by the curve library.
#[verifier::external_type_specification]
#[verifier::external_body]
pub struct ExScalar(bls12_381::Scalar);

/// An affine point of the first curve group of BLS12-381.
#[verifier::external_type_specification]
#[verifier::external_body]
pub struct ExG1Affine(bls12_381::G1Affine);

/// An affine point of the second curve group of BLS12-381.
#[verifier::external_type_specification]
#[verifier::external_body]
pub struct ExG2Affine(bls12_381::G2Affine);

/// An element of the target group of the BLS12-381 pairing.
#[verifier::external_type_specification]
#[verifier::external_body]
pub struct ExGt(bls12_381::Gt);

/// The integer value, reduced modulo the group order, that a scalar
/// represents.
pub uninterp spec fn scalar_val(s: bls12_381::Scalar) -> nat;

/// The discrete logarithm of a point of the prime-order subgroup of the
/// first group, with respect to the canonical generator.
pub uninterp spec fn g1_val(p: bls12_381::G1Affine) -> nat;

/// Whether a point representation satisfies the first group's curve
/// equation.
pub uninterp spec fn g1_on_curve(p: bls12_381::G1Affine) -> bool;

/// Whether a point lies in the prime-order subgroup of the first group.
pub uninterp spec fn g1_in_group(p: bls12_381::G1Affine) -> bool;

/// The discrete logarithm of a point of the prime-order subgroup of the
/// second group, with respect to the canonical generator.
pub uninterp spec fn g2_val(p: bls12_381::G2Affine) -> nat;

/// Whether a point representation satisfies the second group's curve
/// equation.
pub uninterp spec fn g2_on_curve(p: bls12_381::G2Affine) -> bool;

/// Whether a point lies in the prime-order subgroup of the second group.
pub uninterp spec fn g2_in_group(p: bls12_381::G2Affine) -> bool;

/// The discrete logarithm of a pairing output with respect to the pairing
/// of the two canonical generators.
pub uninterp spec fn gt_val(x: bls12_381::Gt) -> nat;

/// A first-group point that both satisfies the curve equation and lies in
/// the prime-order subgroup.
pub open spec fn g1_valid(p: bls12_381::G1Affine) -> bool {
    g1_on_curve(p) && g1_in_group(p)
}

/// A second-group point that both satisfies the curve equation and lies in
/// the prime-order subgroup.
pub open spec fn g2_valid(p: bls12_381::G2Affine) -> bool {
    g2_on_curve(p) && g2_in_group(p)
}

/// Relies on `bls12_381::Scalar::zero`: the additive identity of the field.
#[verifier::external_body]
pub(crate) fn scalar_zero() -> (r: bls12_381::Scalar)
    ensures
        scalar_val(r) == 0,
        in_field(scalar_val(r)),
{
    bls12_381::Scalar::zero()
}

/// Relies on `bls12_381::Scalar::one`: the multiplicative identity of the
/// field.
#[verifier::external_body]
pub(crate) fn scalar_one() -> (r: bls12_381::Scalar)
    ensures
        scalar_val(r) == 1,
        in_field(scalar_val(r)),
{
    bls12_381::Scalar::one()
}

/// Relies on `bls12_381::Scalar::from`: embeds a machine integer into the
/// field.  Every `u64` is below the group order, so no reduction occurs.
#[verifier::external_body]
pub(crate) fn scalar_from_u64(x: u64) -> (r: bls12_381::Scalar)
    ensures
        scalar_val(r) == x as nat,
        in_field(scalar_val(r)),
{
    bls12_381::Scalar::from(x)
}

/// Relies on `Add for bls12_381::Scalar`: addition modulo the group order.
#[verifier::external_body]
pub(crate) fn scalar_add(a: &bls12_381::Scalar, b: &bls12_381::Scalar) -> (r: bls12_381::Scalar)
    ensures
        scalar_val(r) == fadd(scalar_val(*a), scalar_val(*b)),
{
    a + b
}

/// Relies on `Sub for bls12_381::Scalar`: subtraction modulo the group
/// order.
#[verifier::external_body]
pub(crate) fn scalar_sub(a: &bls12_381::Scalar, b: &bls12_381::Scalar) -> (r: bls12_381::Scalar)
    ensures
        scalar_val(r) == fsub(scalar_val(*a), scalar_val(*b)),
{
    a - b
}

/// Relies on `Mul for bls12_381::Scalar`: multiplication modulo the group
/// order.
#[verifier::external_body]
pub(crate) fn scalar_mul(a: &bls12_381::Scalar, b: &bls12_381::Scalar) -> (r: bls12_381::Scalar)
    ensures
        scalar_val(r) == fmul(scalar_val(*a), scalar_val(*b)),
{
    a * b
}

/// Relies on `bls12_381::Scalar::invert`: returns the multiplicative
/// inverse of a nonzero element and fails on zero.
#[verifier::external_body]
pub(crate) fn scalar_invert(a: &bls12_381::Scalar) -> (r: Option<bls12_381::Scalar>)
    ensures
        scalar_val(*a) != 0 ==> r is Some && fmul(scalar_val(r.unwrap()), scalar_val(*a)) == 1
            && in_field(scalar_val(r.unwrap())),
        scalar_val(*a) == 0 ==> r is None,
{
    let c = a.invert();
    if bool::from(c.is_some()) {
        Some(c.unwrap())
    } else {
        None
    }
}

/// Relies on `ff::Field::is_zero`: tests for the additive identity.
#[verifier::external_body]
pub(crate) fn scalar_is_zero(a: &bls12_381::Scalar) -> (r: bool)
    ensures
        r == (scalar_val(*a) == 0),
{
    bool::from(ff::Field::is_zero(a))
}

/// Relies on `ff::Field::random` with the operating-system randomness
/// source of `rand_core`: the result is some reduced field element; nothing
/// more is promised of a random draw.
#[verifier::external_body]
pub(crate) fn scalar_os_random() -> (r: bls12_381::Scalar)
    ensures
        in_field(scalar_val(r)),
{
    <bls12_381::Scalar as ff::Field>::random(&mut rand_core::OsRng)
}

/// Relies on `bls12_381::G1Affine::generator`: the canonical generator of
/// the first group, whose discrete logarithm with respect to itself is one.
#[verifier::external_body]
pub(crate) fn g1_generator() -> (r: bls12_381::G1Affine)
    ensures
        g1_valid(r),
        g1_val(r) == 1,
{
    bls12_381::G1Affine::generator()
}

/// Relies on `bls12_381::G1Affine::identity`: the identity of the first
/// group, whose discrete logarithm is zero.
#[verifier::external_body]
pub(crate) fn g1_identity() -> (r: bls12_381::G1Affine)
    ensures
        g1_valid(r),
        g1_val(r) == 0,
{
    bls12_381::G1Affine::identity()
}

/// Relies on `Add for bls12_381::G1Projective`: the group law of the first
/// curve group, which adds discrete logarithms.
#[verifier::external_body]
pub(crate) fn g1_add(a: &bls12_381::G1Affine, b: &bls12_381::G1Affine) -> (r: bls12_381::G1Affine)
    ensures
        g1_on_curve(*a) && g1_on_curve(*b) ==> g1_on_curve(r) && g1_val(r) == fadd(
            g1_val(*a),
            g1_val(*b),
        ),
        g1_in_group(*a) && g1_in_group(*b) ==> g1_in_group(r),
{
    bls12_381::G1Affine::from(bls12_381::G1Projective::from(a) + b)
}

/// Relies on `Mul<Scalar> for bls12_381::G1Affine`: scalar multiplication
/// in the first curve group, which multiplies the discrete logarithm by the
/// scalar.
#[verifier::external_body]
pub(crate) fn g1_scalar_mul(p: &bls12_381::G1Affine, s: &bls12_381::Scalar) -> (r:
    bls12_381::G1Affine)
    ensures
        g1_on_curve(*p) ==> g1_on_curve(r) && g1_val(r) == fmul(g1_val(*p), scalar_val(*s)),
        g1_in_group(*p) ==> g1_in_group(r),
{
    bls12_381::G1Affine::from(p * s)
}

/// Relies on `PartialEq for bls12_381::G1Affine`: affine point equality.
/// On the prime-order subgroup the discrete logarithm is injective, so
/// equality there coincides with equality of the model values.
#[verifier::external_body]
pub(crate) fn g1_eq(a: &bls12_381::G1Affine, b: &bls12_381::G1Affine) -> (r: bool)
    ensures
        g1_in_group(*a) && g1_in_group(*b) ==> r == (g1_val(*a) == g1_val(*b)),
        r ==> g1_val(*a) == g1_val(*b),
{
    a == b
}

/// Relies on `bls12_381::G1Affine::is_on_curve`: whether the point
/// satisfies the curve equation.
#[verifier::external_body]
pub(crate) fn g1_is_on_curve(p: &bls12_381::G1Affine) -> (r: bool)
    ensures
        r == g1_on_curve(*p),
{
    bool::from(p.is_on_curve())
}

/// Relies on `bls12_381::G1Affine::is_identity`: whether the point is the
/// group identity, the only subgroup point with discrete logarithm zero.
#[verifier::external_body]
pub(crate) fn g1_is_identity(p: &bls12_381::G1Affine) -> (r: bool)
    ensures
        g1_in_group(*p) ==> r == (g1_val(*p) == 0),
        r ==> g1_val(*p) == 0,
{
    bool::from(p.is_identity())
}

/// Relies on `bls12_381::G2Affine::generator`: the canonical generator of
/// the second group, whose discrete logarithm with respect to itself is one.
#[verifier::external_body]
pub(crate) fn g2_generator() -> (r: bls12_381::G2Affine)
    ensures
        g2_valid(r),
        g2_val(r) == 1,
{
    bls12_381::G2Affine::generator()
}

/// Relies on `Add for bls12_381::G2Projective`: the group law of the second
/// curve group, which adds discrete logarithms.
#[verifier::external_body]
pub(crate) fn g2_add(a: &bls12_381::G2Affine, b: &bls12_381::G2Affine) -> (r: bls12_381::G2Affine)
    ensures
        g2_on_curve(*a) && g2_on_curve(*b) ==> g2_on_curve(r) && g2_val(r) == fadd(
            g2_val(*a),
            g2_val(*b),
        ),
        g2_in_group(*a) && g2_in_group(*b) ==> g2_in_group(r),
{
    bls12_381::G2Affine::from(bls12_381::G2Projective::from(a) + b)
}

/// Relies on `Mul<Scalar> for bls12_381::G2Affine`: scalar multiplication
/// in the second curve group, which multiplies the discrete logarithm by
/// the scalar.
#[verifier::external_body]
pub(crate) fn g2_scalar_mul(p: &bls12_381::G2Affine, s: &bls12_381::Scalar) -> (r:
    bls12_381::G2Affine)
    ensures
        g2_on_curve(*p) ==> g2_on_curve(r) && g2_val(r) == fmul(g2_val(*p), scalar_val(*s)),
        g2_in_group(*p) ==> g2_in_group(r),
{
    bls12_381::G2Affine::from(p * s)
}

/// Relies on `bls12_381::G2Affine::is_on_curve`: whether the point
/// satisfies the curve equation of the second group.
#[verifier::external_body]
pub(crate) fn g2_is_on_curve(p: &bls12_381::G2Affine) -> (r: bool)
    ensures
        r == g2_on_curve(*p),
{
    bool::from(p.is_on_curve())
}

/// Relies on `bls12_381::pairing`: the bilinear map of BLS12-381.  For
/// subgroup points the discrete logarithm of the output is the product of
/// the discrete logarithms of the inputs.
#[verifier::external_body]
pub(crate) fn pairing(p: &bls12_381::G1Affine, q: &bls12_381::G2Affine) -> (r: bls12_381::Gt)
    ensures
        g1_valid(*p) && g2_valid(*q) ==> gt_val(r) == fmul(g1_val(*p), g2_val(*q)),
{
    bls12_381::pairing(p, q)
}

/// Relies on `PartialEq for bls12_381::Gt`: equality in the target group.
/// Every representable target-group element lies in the prime-order
/// subgroup, where the discrete logarithm is injective.
#[verifier::external_body]
pub(crate) fn gt_eq(a: &bls12_381::Gt, b: &bls12_381::Gt) -> (r: bool)
    ensures
        r == (gt_val(*a) == gt_val(*b)),
{
    a == b
}

} // verus!
