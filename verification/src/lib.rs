//! BLS multi-signatures on the BLS12-381 curve, hardened against rogue-key
//! attacks by binding every public key's contribution to a hash of itself.
//!
//! The scheme offers two signing paths: `sign_vulnerable` (plain BLS, safe
//! only among honestly generated keys) and `sign` (the rogue-key resistant
//! construction, verified against an aggregated public key). Values travel
//! across process boundaries in fixed-width byte encodings, either validated
//! (compressed) or unchecked (raw), and a validation cache lets a service
//! skip repeated subgroup checks on byte strings it has already validated.

use vstd::prelude::*;

pub mod curve;
pub mod error;
pub mod hash;
pub mod keys;
pub mod service;
pub mod signature;
pub mod signer;

pub use error::Error;
pub use hash::{h0, h1};
pub use keys::apk::APK;
pub use keys::public::PublicKey;
pub use keys::secret::SecretKey;
pub use service::MySign;
pub use signature::Signature;
pub use signer::BlsSigner;

verus! {

/// Width in bytes of a serialized secret key (a scalar).
pub const SK_SIZE: usize = 32;

/// Width in bytes of a compressed signature (a G1 point).
pub const SIG_SIZE: usize = 48;

/// Width in bytes of a compressed public key or aggregated public key
/// (a G2 point).
pub const PK_SIZE: usize = 96;

/// Width in bytes of the raw (unchecked) encoding of a public key or
/// aggregated public key: both G2 coordinates, uncompressed.
pub const PK_RAW_SIZE: usize = 192;

} // verus!
