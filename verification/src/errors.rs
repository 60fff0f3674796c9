//! The error taxonomy of the registration pipeline.

use vstd::prelude::*;

verus! {

/// Why a registration response was rejected.
///
/// The first four variants concern the client-data binding, the next two the
/// binary registration record, and the last one the attestation trust
/// decision, which is kept distinct from the structural failures.
#[derive(Clone, Copy, Debug, PartialEq, Eq, Structural)]
pub enum Error {
    /// The client data was not URL-safe base64, or not UTF-8 text.
    ClientDataDecodeFailed,
    /// The client data text was not a JSON object of the expected shape.
    ClientDataParseFailed,
    /// The challenge inside the client data differs from the issued one.
    InvalidClientDataChallenge,
    /// The origin inside the client data differs from the expected one.
    InvalidClientDataOrigin,
    /// The registration data was not URL-safe base64.
    RegistrationDataDecodeFailed,
    /// The decoded registration record violated the binary layout.
    RegistrationDataParseFailed,
    /// The attestation certificate or the registration signature was refused.
    AttestationVerificationFailed,
}

impl Error {
    /// A short account of the failure.
    pub fn description(&self) -> (r: &'static str) {
        match self {
            Error::ClientDataDecodeFailed => "client data decode failed",
            Error::ClientDataParseFailed => "client data parse failed",
            Error::InvalidClientDataChallenge => "invalid client data (challenge doesn't match)",
            Error::InvalidClientDataOrigin => "invalid client data (origin doesn't match)",
            Error::RegistrationDataDecodeFailed => "registration data decode failed",
            Error::RegistrationDataParseFailed => "registration data parse failed",
            Error::AttestationVerificationFailed => "attestation verification failed",
        }
    }
}

/// The system entropy source failed while a challenge was being drawn.
///
/// Issuing a weak challenge would be a silent security degradation, so this
/// condition is signalled as a fatal error of its own rather than as one of
/// the ordinary verification errors.
#[derive(Clone, Copy, Debug, PartialEq, Eq, Structural)]
pub struct EntropyFailure;

} // verus!
