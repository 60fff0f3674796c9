//! Issuing anti-replay challenges.

use vstd::prelude::*;

use crate::codec::{b64url_encode, b64url_encoding_of, is_b64url_char};
use crate::crypto::system_random_32;
use crate::errors::EntropyFailure;

verus! {

/// Draws 32 bytes from the system CSPRNG and returns them as a fixed-length
/// URL-safe base64 text: 44 characters of the URL-safe alphabet.
///
/// A failure of the entropy source is fatal for this operation: rather than
/// fall back to non-random data, the call reports `EntropyFailure`.
pub fn challenge() -> (r: Result<String, EntropyFailure>)
    ensures
        r matches Ok(s) ==> {
            &&& s@.len() == 44
            &&& forall|i: int| 0 <= i < s@.len() ==> is_b64url_char(#[trigger] s@[i])
            &&& exists|b: Seq<u8>| b.len() == 32 && s@ == b64url_encoding_of(b)
        },
{
    let buf = match system_random_32() {
        Some(b) => b,
        None => {
            return Err(EntropyFailure);
        },
    };
    let encoded = b64url_encode(buf.as_slice());
    Ok(encoded)
}

} // verus!
