//! The randomness capability injected into each protocol party.
//!
//! A [`ScalarRng`] either draws from the operating system's entropy source
//! (the production mode) or replays a deterministic counter sequence from a
//! caller-chosen seed, which makes whole protocol runs reproducible.

use vstd::prelude::*;
use crate::field::in_field;
use crate::group::{scalar_from_u64, scalar_is_zero, scalar_one, scalar_os_random, scalar_val};

verus! {

/// A source of scalar field elements.
pub struct ScalarRng {
    seeded: bool,
    counter: u64,
}

impl ScalarRng {
    /// Whether this source replays a deterministic sequence.
    pub closed spec fn is_seeded(self) -> bool {
        self.seeded
    }

    /// The position of a deterministic source within its sequence.
    pub closed spec fn counter_val(self) -> nat {
        self.counter as nat
    }

    /// A source backed by the operating system's entropy; the one to use in
    /// production.
    pub fn from_entropy() -> (r: ScalarRng)
        ensures
            !r.is_seeded(),
    {
        ScalarRng { seeded: false, counter: 0 }
    }

    /// A deterministic source that yields the scalars `seed + 1`,
    /// `seed + 2`, ... in order (wrapping at the machine word); for
    /// reproducible runs only, never for production keys.
    pub fn from_seed(seed: u64) -> (r: ScalarRng)
        ensures
            r.is_seeded(),
            r.counter_val() == seed as nat,
    {
        ScalarRng { seeded: true, counter: seed }
    }

    /// Draw the next scalar: a reduced field element, and for a seeded
    /// source exactly the next counter value.
    pub fn next_scalar(&mut self) -> (r: bls12_381::Scalar)
        ensures
            in_field(scalar_val(r)),
            final(self).is_seeded() == old(self).is_seeded(),
            old(self).is_seeded() ==> {
                &&& final(self).counter_val() == (if old(self).counter_val() == u64::MAX as nat {
                    0nat
                } else {
                    old(self).counter_val() + 1
                })
                &&& scalar_val(r) == final(self).counter_val()
            },
    {
        if self.seeded {
            self.counter = if self.counter == u64::MAX {
                0
            } else {
                self.counter + 1
            };
            scalar_from_u64(self.counter)
        } else {
            scalar_os_random()
        }
    }

    /// Draw scalars, rejecting the additive identity, until one is nonzero:
    /// the sampling step written `x <- Zp*` in the protocol.  The retry
    /// count is bounded so that the draw provably returns; if every draw
    /// came back zero — which no entropy source ever does, each zero having
    /// probability `1/q` — the draw falls back to one.
    pub fn next_nonzero_scalar(&mut self) -> (r: bls12_381::Scalar)
        ensures
            in_field(scalar_val(r)),
            scalar_val(r) != 0,
            final(self).is_seeded() == old(self).is_seeded(),
    {
        let mut tries: u64 = 0;
        while tries < 32
            invariant
                self.is_seeded() == old(self).is_seeded(),
            decreases 32 - tries,
        {
            let candidate = self.next_scalar();
            if !scalar_is_zero(&candidate) {
                return candidate;
            }
            tries = tries + 1;
        }
        scalar_one()
    }
}

} // verus!
