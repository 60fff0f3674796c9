//! Verifying an authenticator's registration response.
//!
//! The pipeline is fail-fast: the client-data binding is checked first, then
//! the binary registration record is parsed, then the attestation signature
//! is verified; only when every stage succeeds is a trusted `Key` assembled.

use vstd::prelude::*;

use crate::codec::{
    b64url_decode, b64url_decoding_of, json_client_data_of, parse_client_data_json,
    utf8_to_string,
};
use crate::crypto::{
    attestation_sig_ok, check_attestation_signature, sha256, sha256_of, MAX_HASH_INPUT_LEN,
};
use crate::errors::Error;
use vstd::utf8::{decode_utf8, encode_utf8, valid_utf8};

verus! {

/// The value every well-formed record carries in its reserved leading byte.
pub const RESERVED_BYTE: u8 = 0x05;

// ---------------------------------------------------------------------------
// Data model
// ---------------------------------------------------------------------------

/// A registration request: the values the server itself issued or expects
/// (`challenge`, `app_id`, `origin`) beside the two opaque base64url fields
/// received from the authenticator.
pub struct Registration {
    pub challenge: String,
    pub app_id: String,
    pub origin: String,
    pub registration_data: String,
    pub client_data: String,
}

/// The mathematical value of a `Registration`.
pub ghost struct RegistrationModel {
    pub challenge: Seq<char>,
    pub app_id: Seq<char>,
    pub origin: Seq<char>,
    pub registration_data: Seq<char>,
    pub client_data: Seq<char>,
}

impl View for Registration {
    type V = RegistrationModel;

    open spec fn view(&self) -> RegistrationModel {
        RegistrationModel {
            challenge: self.challenge@,
            app_id: self.app_id@,
            origin: self.origin@,
            registration_data: self.registration_data@,
            client_data: self.client_data@,
        }
    }
}

/// The client-supplied JSON binding of the ceremony.
#[derive(Clone, Debug, PartialEq)]
pub struct ClientData {
    pub challenge: String,
    pub origin: String,
    pub typ: String,
}

/// The mathematical value of a `ClientData`.
pub ghost struct ClientDataModel {
    pub challenge: Seq<char>,
    pub origin: Seq<char>,
    pub typ: Seq<char>,
}

impl View for ClientData {
    type V = ClientDataModel;

    open spec fn view(&self) -> ClientDataModel {
        ClientDataModel { challenge: self.challenge@, origin: self.origin@, typ: self.typ@ }
    }
}

/// The typed fields of a decoded binary registration record.
#[derive(Clone, Debug, PartialEq)]
pub struct RegistrationRecord {
    pub reserved: u8,
    pub public_key: Vec<u8>,
    pub key_handle: Vec<u8>,
    pub attestation_cert: Vec<u8>,
    pub signature: Vec<u8>,
}

/// The mathematical value of a `RegistrationRecord`.
pub ghost struct RecordModel {
    pub reserved: u8,
    pub public_key: Seq<u8>,
    pub key_handle: Seq<u8>,
    pub attestation_cert: Seq<u8>,
    pub signature: Seq<u8>,
}

impl View for RegistrationRecord {
    type V = RecordModel;

    open spec fn view(&self) -> RecordModel {
        RecordModel {
            reserved: self.reserved,
            public_key: self.public_key@,
            key_handle: self.key_handle@,
            attestation_cert: self.attestation_cert@,
            signature: self.signature@,
        }
    }
}

/// The trusted output of a successful verification: the enrolled credential.
#[derive(Clone, Debug, PartialEq)]
pub struct Key {
    pub handle: Vec<u8>,
    pub public_key: Vec<u8>,
}

/// The mathematical value of a `Key`.
pub ghost struct KeyModel {
    pub handle: Seq<u8>,
    pub public_key: Seq<u8>,
}

impl View for Key {
    type V = KeyModel;

    open spec fn view(&self) -> KeyModel {
        KeyModel { handle: self.handle@, public_key: self.public_key@ }
    }
}

// ---------------------------------------------------------------------------
// Client data
// ---------------------------------------------------------------------------

/// What decoding and parsing a client-data field yields: base64url decoding
/// and UTF-8 failures are decode errors, a wrong JSON shape is a parse error.
pub open spec fn spec_extract_client_data(s: Seq<char>) -> Result<ClientDataModel, Error> {
    match b64url_decoding_of(s) {
        None => Err(Error::ClientDataDecodeFailed),
        Some(bytes) => if !valid_utf8(bytes) {
            Err(Error::ClientDataDecodeFailed)
        } else {
            match json_client_data_of(decode_utf8(bytes)) {
                None => Err(Error::ClientDataParseFailed),
                Some(t) => Ok(ClientDataModel { challenge: t.0, origin: t.1, typ: t.2 }),
            }
        },
    }
}

/// Decodes and parses the client data, handing back the decoded raw bytes as
/// well: the attestation message later hashes exactly those bytes.
fn client_data_with_raw(encoded: &String) -> (r: Result<(ClientData, Vec<u8>), Error>)
    ensures
        r matches Ok(p) ==> spec_extract_client_data(encoded@) == Ok::<ClientDataModel, Error>(
            p.0@,
        ) && Some(p.1@) == b64url_decoding_of(encoded@),
        r matches Err(e) ==> spec_extract_client_data(encoded@) == Err::<ClientDataModel, Error>(
            e,
        ),
{
    let bytes = match b64url_decode(encoded.as_str()) {
        Some(b) => b,
        None => {
            return Err(Error::ClientDataDecodeFailed);
        },
    };
    let text = match utf8_to_string(&bytes) {
        Some(t) => t,
        None => {
            return Err(Error::ClientDataDecodeFailed);
        },
    };
    match parse_client_data_json(text.as_str()) {
        Some(cd) => Ok((cd, bytes)),
        None => Err(Error::ClientDataParseFailed),
    }
}

/// Decodes `client_data` as URL-safe base64, interprets it as UTF-8 text and
/// parses that as the client-data JSON object.
pub fn extract_client_data(client_data: &String) -> (r: Result<ClientData, Error>)
    ensures
        r matches Ok(cd) ==> spec_extract_client_data(client_data@) == Ok::<
            ClientDataModel,
            Error,
        >(cd@),
        r matches Err(e) ==> spec_extract_client_data(client_data@) == Err::<
            ClientDataModel,
            Error,
        >(e),
{
    match client_data_with_raw(client_data) {
        Ok(p) => Ok(p.0),
        Err(e) => Err(e),
    }
}

// ---------------------------------------------------------------------------
// Registration record
// ---------------------------------------------------------------------------

/// The least length a record buffer with declared key-handle length `khl` can
/// have: the 67-byte fixed prefix, the key handle, and the 4-byte certificate
/// header.
pub open spec fn min_record_len(khl: int) -> int {
    67 + khl + 4
}

/// What parsing a decoded registration buffer yields: a sequential cursor
/// walk with no backtracking, in the fixed field order. The certificate's
/// length is derived from its own DER header — the third and fourth bytes of
/// the remainder, big-endian, plus the 4 header bytes — since the wire format
/// carries no explicit certificate-length field.
pub open spec fn spec_parse_registration(b: Seq<u8>) -> Option<RecordModel> {
    if b.len() < 67 {
        None
    } else if b[0] != RESERVED_BYTE {
        None
    } else {
        let khl = b[66] as int;
        if b.len() < min_record_len(khl) {
            None
        } else {
            let rest = b.subrange(67 + khl, b.len() as int);
            let cert_total = (b[67 + khl + 2] as int) * 256 + (b[67 + khl + 3] as int) + 4;
            if rest.len() < cert_total {
                None
            } else {
                Some(
                    RecordModel {
                        reserved: b[0],
                        public_key: b.subrange(1, 66),
                        key_handle: b.subrange(67, 67 + khl),
                        attestation_cert: rest.subrange(0, cert_total),
                        signature: rest.subrange(cert_total, rest.len() as int),
                    },
                )
            }
        }
    }
}

/// The invariant of every parsed record, as the data model states it.
pub open spec fn record_wf(rec: RecordModel) -> bool {
    &&& rec.reserved == RESERVED_BYTE
    &&& rec.public_key.len() == 65
    &&& rec.key_handle.len() <= 255
    &&& rec.attestation_cert.len() >= 4
}

/// What a successful parse guarantees of the record's shape: the invariant
/// holds, the key handle is as long as the declared length byte, and the
/// certificate/signature split covers the whole remainder.
pub proof fn lemma_parsed_record_wf(b: Seq<u8>, rec: RecordModel)
    requires
        spec_parse_registration(b) == Some(rec),
    ensures
        record_wf(rec),
        rec.key_handle.len() == b[66] as int,
        67 + rec.key_handle.len() + rec.attestation_cert.len() + rec.signature.len() == b.len(),
{
}

/// Copies `b[start..end]` into a fresh buffer.
fn copy_range(b: &Vec<u8>, start: usize, end: usize) -> (r: Vec<u8>)
    requires
        start <= end <= b@.len(),
    ensures
        r@ == b@.subrange(start as int, end as int),
{
    let mut out: Vec<u8> = Vec::new();
    let mut i: usize = start;
    assert(out@ =~= b@.subrange(start as int, start as int));
    while i < end
        invariant
            start <= i <= end <= b@.len(),
            out@ == b@.subrange(start as int, i as int),
        decreases end - i,
    {
        out.push(b[i]);
        assert(out@ =~= b@.subrange(start as int, (i + 1) as int));
        i = i + 1;
    }
    out
}

/// Parses a decoded registration buffer into its typed fields.
fn parse_registration_bytes(b: &Vec<u8>) -> (r: Result<RegistrationRecord, Error>)
    ensures
        r matches Ok(rec) ==> spec_parse_registration(b@) == Some(rec@),
        r matches Err(e) ==> spec_parse_registration(b@) is None && e
            == Error::RegistrationDataParseFailed,
{
    if b.len() < 67 {
        return Err(Error::RegistrationDataParseFailed);
    }
    if b[0] != RESERVED_BYTE {
        return Err(Error::RegistrationDataParseFailed);
    }
    let khl: usize = b[66] as usize;
    if b.len() < khl + 71 {
        return Err(Error::RegistrationDataParseFailed);
    }
    let rest_start: usize = 67 + khl;
    let cert_total: usize = (b[rest_start + 2] as usize) * 256 + (b[rest_start + 3] as usize) + 4;
    if b.len() - rest_start < cert_total {
        return Err(Error::RegistrationDataParseFailed);
    }
    let public_key = copy_range(b, 1, 66);
    let key_handle = copy_range(b, 67, rest_start);
    let attestation_cert = copy_range(b, rest_start, rest_start + cert_total);
    let signature = copy_range(b, rest_start + cert_total, b.len());
    proof {
        let rest = b@.subrange(rest_start as int, b@.len() as int);
        assert(attestation_cert@ =~= rest.subrange(0, cert_total as int));
        assert(signature@ =~= rest.subrange(cert_total as int, rest.len() as int));
    }
    Ok(RegistrationRecord { reserved: RESERVED_BYTE, public_key, key_handle, attestation_cert, signature })
}

/// What decoding and parsing a registration-data field yields.
pub open spec fn spec_extract_registration(s: Seq<char>) -> Result<RecordModel, Error> {
    match b64url_decoding_of(s) {
        None => Err(Error::RegistrationDataDecodeFailed),
        Some(b) => match spec_parse_registration(b) {
            None => Err(Error::RegistrationDataParseFailed),
            Some(rec) => Ok(rec),
        },
    }
}

/// Decodes `registration_data` as URL-safe base64 and parses the result as a
/// binary registration record; a record that comes back satisfies the data
/// model's invariant.
pub fn extract_registration_data(registration_data: &String) -> (r: Result<
    RegistrationRecord,
    Error,
>)
    ensures
        r matches Ok(rec) ==> spec_extract_registration(registration_data@) == Ok::<
            RecordModel,
            Error,
        >(rec@) && record_wf(rec@),
        r matches Err(e) ==> spec_extract_registration(registration_data@) == Err::<
            RecordModel,
            Error,
        >(e),
{
    let bytes = match b64url_decode(registration_data.as_str()) {
        Some(b) => b,
        None => {
            return Err(Error::RegistrationDataDecodeFailed);
        },
    };
    let parsed = parse_registration_bytes(&bytes);
    proof {
        match &parsed {
            Ok(rec) => lemma_parsed_record_wf(bytes@, rec@),
            Err(_) => {},
        }
    }
    parsed
}

// ---------------------------------------------------------------------------
// Attestation
// ---------------------------------------------------------------------------

/// The message the attestation signature must cover: a single zero byte, the
/// SHA-256 of the application id, the SHA-256 of the raw client-data bytes,
/// the key handle and the public key, concatenated in this order.
pub open spec fn attestation_message(
    app_id: Seq<char>,
    client_data_raw: Seq<u8>,
    rec: RecordModel,
) -> Seq<u8> {
    seq![0u8] + sha256_of(encode_utf8(app_id)) + sha256_of(client_data_raw) + rec.key_handle
        + rec.public_key
}

/// Whether the two hashed inputs are short enough for SHA-256 at all.
pub open spec fn attestation_hashable(app_id: Seq<char>, client_data_raw: Seq<u8>) -> bool {
    encode_utf8(app_id).len() <= MAX_HASH_INPUT_LEN && client_data_raw.len() <= MAX_HASH_INPUT_LEN
}

/// Whether a record's attestation is accepted for this application id and
/// these raw client-data bytes.
pub open spec fn spec_attestation_accepts(
    rec: RecordModel,
    app_id: Seq<char>,
    client_data_raw: Seq<u8>,
) -> bool {
    &&& attestation_hashable(app_id, client_data_raw)
    &&& attestation_sig_ok(
        rec.attestation_cert,
        attestation_message(app_id, client_data_raw, rec),
        rec.signature,
    )
}

/// Appends all of `src` to `dst`.
fn append_bytes(dst: &mut Vec<u8>, src: &[u8])
    ensures
        final(dst)@ == old(dst)@ + src@,
{
    let mut i: usize = 0;
    assert(dst@ =~= dst@ + src@.subrange(0, 0));
    while i < src.len()
        invariant
            i <= src@.len(),
            dst@ == old(dst)@ + src@.subrange(0, i as int),
        decreases src@.len() - i,
    {
        dst.push(src[i]);
        assert(dst@ =~= old(dst)@ + src@.subrange(0, (i + 1) as int));
        i = i + 1;
    }
    assert(src@.subrange(0, src@.len() as int) =~= src@);
}

/// Checks that the record's signature, under the attestation certificate's
/// public key, covers the registration message for this application id and
/// these raw client-data bytes. A certificate that does not parse, and a
/// signature that does not verify, are both trust failures, distinct from the
/// structural parse failures.
pub fn verify_attestation(
    record: &RegistrationRecord,
    app_id: &String,
    client_data_raw: &Vec<u8>,
) -> (r: Result<(), Error>)
    requires
        record_wf(record@),
    ensures
        r is Ok <==> spec_attestation_accepts(record@, app_id@, client_data_raw@),
        r matches Err(e) ==> e == Error::AttestationVerificationFailed,
{
    let app_id_bytes: &[u8] = app_id.as_str().as_bytes();
    if (app_id_bytes.len() as u64) > MAX_HASH_INPUT_LEN || (client_data_raw.len() as u64)
        > MAX_HASH_INPUT_LEN {
        return Err(Error::AttestationVerificationFailed);
    }
    let app_id_hash = sha256(app_id_bytes);
    let client_data_hash = sha256(client_data_raw.as_slice());
    let mut msg: Vec<u8> = Vec::new();
    msg.push(0u8);
    append_bytes(&mut msg, app_id_hash.as_slice());
    append_bytes(&mut msg, client_data_hash.as_slice());
    append_bytes(&mut msg, record.key_handle.as_slice());
    append_bytes(&mut msg, record.public_key.as_slice());
    assert(msg@ =~= attestation_message(app_id@, client_data_raw@, record@));
    if check_attestation_signature(
        record.attestation_cert.as_slice(),
        msg.as_slice(),
        record.signature.as_slice(),
    ) {
        Ok(())
    } else {
        Err(Error::AttestationVerificationFailed)
    }
}

// ---------------------------------------------------------------------------
// Orchestration
// ---------------------------------------------------------------------------

/// What verifying a whole request yields, fail-fast: the client-data binding
/// first, then the binary record, then the attestation; only when every stage
/// succeeds, the enrolled key.
pub open spec fn spec_verify(req: RegistrationModel) -> Result<KeyModel, Error> {
    match spec_extract_client_data(req.client_data) {
        Err(e) => Err(e),
        Ok(cd) => if cd.challenge != req.challenge {
            Err(Error::InvalidClientDataChallenge)
        } else if cd.origin != req.origin {
            Err(Error::InvalidClientDataOrigin)
        } else {
            match spec_extract_registration(req.registration_data) {
                Err(e) => Err(e),
                Ok(rec) => match b64url_decoding_of(req.client_data) {
                    None => Err(Error::ClientDataDecodeFailed),
                    Some(raw) => if spec_attestation_accepts(rec, req.app_id, raw) {
                        Ok(KeyModel { handle: rec.key_handle, public_key: rec.public_key })
                    } else {
                        Err(Error::AttestationVerificationFailed)
                    },
                },
            }
        },
    }
}

/// Verifies a registration response end to end and assembles the trusted
/// `Key`; on failure no partial result is exposed.
pub fn verify(registration: &Registration) -> (r: Result<Key, Error>)
    ensures
        r matches Ok(k) ==> spec_verify(registration@) == Ok::<KeyModel, Error>(k@),
        r matches Err(e) ==> spec_verify(registration@) == Err::<KeyModel, Error>(e),
{
    let (client_data, raw) = match client_data_with_raw(&registration.client_data) {
        Ok(p) => p,
        Err(e) => {
            return Err(e);
        },
    };
    if !(registration.challenge == client_data.challenge) {
        return Err(Error::InvalidClientDataChallenge);
    }
    if !(registration.origin == client_data.origin) {
        return Err(Error::InvalidClientDataOrigin);
    }
    let record = match extract_registration_data(&registration.registration_data) {
        Ok(rec) => rec,
        Err(e) => {
            return Err(e);
        },
    };
    match verify_attestation(&record, &registration.app_id, &raw) {
        Ok(()) => Ok(Key { handle: record.key_handle, public_key: record.public_key }),
        Err(e) => Err(e),
    }
}

// ---------------------------------------------------------------------------
// Laws
// ---------------------------------------------------------------------------

/// Truncation is rejected: a buffer cut short of the fixed 67-byte prefix,
/// the declared key handle and the 4-byte certificate header never parses.
pub proof fn lemma_truncated_buffer_fails(b: Seq<u8>, n: int)
    requires
        0 <= n <= b.len(),
        b.len() >= 67,
        n < min_record_len(b[66] as int),
    ensures
        spec_parse_registration(b.take(n)) is None,
{
    let t = b.take(n);
    if t.len() >= 67 {
        assert(t[66] == b[66]);
    }
}

/// A request whose client data carries another challenge is rejected with
/// `InvalidClientDataChallenge`, whatever its registration data holds: the
/// binary record is never reached.
pub proof fn lemma_challenge_mismatch_rejected(req: RegistrationModel, cd: ClientDataModel)
    requires
        spec_extract_client_data(req.client_data) == Ok::<ClientDataModel, Error>(cd),
        cd.challenge != req.challenge,
    ensures
        spec_verify(req) == Err::<KeyModel, Error>(Error::InvalidClientDataChallenge),
{
}

/// A request whose client data carries another origin is rejected with
/// `InvalidClientDataOrigin`, whatever its registration data holds: the
/// binary record is never reached.
pub proof fn lemma_origin_mismatch_rejected(req: RegistrationModel, cd: ClientDataModel)
    requires
        spec_extract_client_data(req.client_data) == Ok::<ClientDataModel, Error>(cd),
        cd.challenge == req.challenge,
        cd.origin != req.origin,
    ensures
        spec_verify(req) == Err::<KeyModel, Error>(Error::InvalidClientDataOrigin),
{
}

/// Parsing is deterministic: two records parsed from the same
/// registration-data text hold identical field values.
pub proof fn lemma_parse_idempotent(s: Seq<char>, r1: RecordModel, r2: RecordModel)
    requires
        spec_extract_registration(s) == Ok::<RecordModel, Error>(r1),
        spec_extract_registration(s) == Ok::<RecordModel, Error>(r2),
    ensures
        r1 == r2,
{
}

} // verus!
