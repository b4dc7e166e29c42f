//! The failure modes of the protocol.

use vstd::prelude::*;

verus! {

/// Everything that can go wrong while running the protocol or checking a
/// signature.
#[derive(Clone, Copy, Debug, PartialEq, Eq)]
pub enum Error {
    /// A method was called in the wrong protocol state.
    InvalidState,
    /// A presented signature could not be validated against the public key.
    InvalidSignature,
    /// A received group element does not lie on the curve.
    PointNotOnCurve,
    /// The witness presented for the commitments was invalid.
    InvalidWitness,
    /// A scalar that must be nonzero was zero.
    ScalarIsZero,
}

} // verus!
