//! An interactive, partially blind signature protocol over the BLS12-381
//! pairing-friendly curve.
//!
//! A `Signer` holding a long-term secret key and a `User` wishing to obtain a
//! signature on a private message (while revealing only an agreed public tag)
//! run a four-step commit/challenge/witness/sign exchange.  The resulting
//! signature triple can be checked by any third party against the signer's
//! public key with [`verify_signature`].

pub mod algebra;
pub mod errors;
pub mod field;
pub mod group;
pub mod keys;
pub mod model;
pub mod rng;
pub mod signer;
pub mod user;
pub mod verify;

pub use errors::Error;
pub use keys::{KeyPair, PublicKey};
pub use rng::ScalarRng;
pub use signer::{Signer, SignerState};
pub use user::{User, UserState};
pub use verify::verify_signature;
