//! The trusted boundary to the cryptographic collaborators: the system
//! CSPRNG, SHA-256, and X.509 attestation-signature checking.

use vstd::prelude::*;

verus! {

/// The longest byte string SHA-256 accepts: its message length is carried in
/// a 64-bit bit counter, so inputs beyond it cannot be hashed.
pub const MAX_HASH_INPUT_LEN: u64 = 0x1FFF_FFFF_FFFF_FFFF;

/// Relies on ring's `SystemRandom` through `SecureRandom::fill`: on success
/// the buffer holds 32 bytes drawn from the system CSPRNG. Nothing is, or
/// could be, promised of their values.
#[verifier::external_body]
pub(crate) fn system_random_32() -> (r: Option<Vec<u8>>)
    ensures
        r matches Some(b) ==> b@.len() == 32,
{
    let rng = ring::rand::SystemRandom::new();
    let mut buf = [0u8; 32];
    match ring::rand::SecureRandom::fill(&rng, &mut buf) {
        Ok(()) => Some(buf.to_vec()),
        Err(_) => None,
    }
}

/// The SHA-256 digest of a byte string.
pub uninterp spec fn sha256_of(b: Seq<u8>) -> Seq<u8>;

/// Relies on ring's `digest::digest` with `SHA256`: a 32-byte digest that
/// depends on the input bytes alone. The length bound keeps the input below
/// the hash's message cap, beyond which the call would panic.
#[verifier::external_body]
pub(crate) fn sha256(b: &[u8]) -> (r: Vec<u8>)
    requires
        b@.len() <= MAX_HASH_INPUT_LEN,
    ensures
        r@ == sha256_of(b@),
        r@.len() == 32,
{
    ring::digest::digest(&ring::digest::SHA256, b).as_ref().to_vec()
}

/// Whether `cert` parses as a DER X.509 end-entity certificate and `sig` is a
/// valid ECDSA P-256 / SHA-256 signature over `msg` under its public key.
pub uninterp spec fn attestation_sig_ok(cert: Seq<u8>, msg: Seq<u8>, sig: Seq<u8>) -> bool;

/// Relies on webpki's `EndEntityCert`: `try_from` parses the DER certificate
/// and `verify_signature` checks `sig` over `msg` under the certificate's
/// public key with `ECDSA_P256_SHA256`. Holds exactly when both succeed; both
/// depend on the three byte strings alone. The length bound keeps the message
/// below the hash's input cap, beyond which the call would panic.
#[verifier::external_body]
pub(crate) fn check_attestation_signature(cert_der: &[u8], msg: &[u8], sig: &[u8]) -> (r: bool)
    requires
        msg@.len() <= MAX_HASH_INPUT_LEN,
    ensures
        r == attestation_sig_ok(cert_der@, msg@, sig@),
{
    match webpki::EndEntityCert::try_from(cert_der) {
        Ok(cert) => cert.verify_signature(&webpki::ECDSA_P256_SHA256, msg, sig).is_ok(),
        Err(_) => false,
    }
}

} // verus!
