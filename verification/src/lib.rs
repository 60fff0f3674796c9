//! Server side of a FIDO U2F device-registration ceremony.
//!
//! The library issues unpredictable anti-replay challenges and validates an
//! authenticator's registration response: it decodes and checks the
//! client-data binding, parses the binary registration record, and verifies
//! the attestation signature before handing the caller a trusted `Key`.

pub mod challenge;
pub mod codec;
pub mod crypto;
pub mod errors;
pub mod registration;

pub use challenge::challenge;
pub use errors::{EntropyFailure, Error};
pub use registration::{
    extract_client_data, extract_registration_data, verify, verify_attestation, ClientData, Key,
    Registration, RegistrationRecord,
};
