//! The trusted boundary to the text codecs: URL-safe base64, UTF-8 and the
//! client-data JSON shape.
//!
//! Each outside call stands behind one `external_body` wrapper whose contract
//! names what the call returns; everything that reasons about those results is
//! verified against these contracts.

use vstd::prelude::*;

use crate::registration::ClientData;

verus! {

/// A character of the URL-safe base64 alphabet, or the padding mark.
pub open spec fn is_b64url_char(c: char) -> bool {
    ('A' <= c && c <= 'Z') || ('a' <= c && c <= 'z') || ('0' <= c && c <= '9') || c == '-'
        || c == '_' || c == '='
}

/// The URL-safe base64 encoding, with padding, of a byte string.
pub uninterp spec fn b64url_encoding_of(b: Seq<u8>) -> Seq<char>;

/// Relies on base64's `Engine::encode` with the `URL_SAFE` engine: the result
/// depends on the input bytes alone, uses the URL-safe alphabet with padding,
/// and holds four characters for every started group of three input bytes.
/// The length bound keeps the encoder's output-size computation from
/// overflowing, on which the call would panic.
#[verifier::external_body]
pub(crate) fn b64url_encode(b: &[u8]) -> (r: String)
    requires
        4 * ((b@.len() + 2) / 3) <= usize::MAX,
    ensures
        r@ == b64url_encoding_of(b@),
        r@.len() == 4 * ((b@.len() + 2) / 3),
        forall|i: int| 0 <= i < r@.len() ==> is_b64url_char(#[trigger] r@[i]),
{
    base64::Engine::encode(&base64::engine::general_purpose::URL_SAFE, b)
}

/// What decoding URL-safe base64 text yields: the decoded bytes, or nothing
/// where the text is ill-formed.
pub uninterp spec fn b64url_decoding_of(s: Seq<char>) -> Option<Seq<u8>>;

/// Relies on base64's `Engine::decode` with a `GeneralPurpose` engine over the
/// URL-safe alphabet, indifferent to padding: the result depends on the input
/// text alone, and the decoded bytes are never more numerous than the input
/// characters.
#[verifier::external_body]
pub(crate) fn b64url_decode(s: &str) -> (r: Option<Vec<u8>>)
    ensures
        r is Some <==> b64url_decoding_of(s@) is Some,
        r matches Some(b) ==> Some(b@) == b64url_decoding_of(s@) && b@.len() <= s@.len(),
{
    let config = base64::engine::GeneralPurposeConfig::new().with_decode_padding_mode(
        base64::engine::DecodePaddingMode::Indifferent,
    );
    let engine = base64::engine::GeneralPurpose::new(&base64::alphabet::URL_SAFE, config);
    base64::Engine::decode(&engine, s).ok()
}

/// Relies on `str::from_utf8` (std): it succeeds exactly on well-formed
/// UTF-8 and yields its decoding, as vstd's UTF-8 model states both.
#[verifier::external_body]
pub(crate) fn utf8_to_string(bytes: &Vec<u8>) -> (r: Option<String>)
    ensures
        r is Some <==> vstd::utf8::valid_utf8(bytes@),
        r matches Some(t) ==> t@ == vstd::utf8::decode_utf8(bytes@),
{
    std::str::from_utf8(bytes.as_slice()).ok().map(|s| s.to_string())
}

/// What decoding the client-data JSON shape yields: the `challenge`, `origin`
/// and `typ` members, in this order, of a JSON object holding all three as
/// strings; nothing where the text is not such an object.
pub uninterp spec fn json_client_data_of(s: Seq<char>) -> Option<(Seq<char>, Seq<char>, Seq<char>)>;

/// Relies on serde_json: `from_str` parses the text into a `Value`, and
/// `Value::get` with `Value::as_str` take the three string members. All of
/// them depend on the input text alone.
#[verifier::external_body]
pub(crate) fn parse_client_data_json(s: &str) -> (r: Option<ClientData>)
    ensures
        r is Some <==> json_client_data_of(s@) is Some,
        r matches Some(cd) ==> Some((cd.challenge@, cd.origin@, cd.typ@)) == json_client_data_of(
            s@,
        ),
{
    let v: serde_json::Value = match serde_json::from_str(s) {
        Ok(v) => v,
        Err(_) => return None,
    };
    let challenge = v.get("challenge")?.as_str()?.to_string();
    let origin = v.get("origin")?.as_str()?.to_string();
    let typ = v.get("typ")?.as_str()?.to_string();
    Some(ClientData { challenge, origin, typ })
}

} // verus!
