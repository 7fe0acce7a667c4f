//! The error type shared by decoding and verification.

use vstd::prelude::*;

verus! {

/// Standard error for the interface.
#[derive(Copy, Clone, Debug, PartialEq, Eq, Structural)]
pub enum Error {
    /// Cryptographic invalidity: the pairing equation did not hold.
    InvalidSignature,
    /// Invalid byte representation.
    InvalidBytes,
}

impl Error {
    /// The status code used by the native-call surface: success is 0,
    /// a decoding failure is 1, a failed verification is 2.
    pub fn status_code(&self) -> (r: i32)
        ensures
            *self == Error::InvalidBytes ==> r == 1,
            *self == Error::InvalidSignature ==> r == 2,
    {
        match self {
            Error::InvalidBytes => 1,
            Error::InvalidSignature => 2,
        }
    }
}

} // verus!
