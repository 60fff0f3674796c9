use u2f_register::{verify, ClientData, Error, Registration};

const CLIENT_DATA_FIXTURE: &str = "eyAiY2hhbGxlbmdlIjogIjl6UkpvTmJvS0hCWjJBcVBST3U0cndQd0gwVzN5SUtnTW5FUV9yekxVMjgiLCAib3JpZ2luIjogImh0dHBzOlwvXC9leGFtcGxlLmNvbSIsICJ0eXAiOiAibmF2aWdhdG9yLmlkLmZpbmlzaEVucm9sbG1lbnQiIH0";

const REGISTRATION_DATA_FIXTURE: &str = "BQSmbdaT8K7iPmOzqW6nXt3cvwTV0w-KOtQDoYtQOZBbb1kUj6BHtCQHd2iAzsIZ778lUL4Ai4uZ5QirctGyBQrMQE4E7rFBanDGRnmnF1FSYtvw6wmOXtu2HeXQwNB00vIYKSHgev-8vRkQm6MHVkl0tLYOe_yd5YqbIFJybydqYm4wggGqMIIBUaADAgECAgkA_lb-euH_GA4wCgYIKoZIzj0EAwIwMjEwMC4GA1UEAwwnUGx1Zy11cCBGSURPIEludGVybmFsIEF0dGVzdGF0aW9uIENBICMxMB4XDTE0MTAwMzA4MDY0OFoXDTM0MTAwMzA4MDY0OFowQDE-MDwGA1UEAww1UGx1Zy11cCBGSURPIFByb2R1Y3Rpb24gQXR0ZXN0YXRpb24gI2ZlNTZmZTdhZTFmZjE4MGUwWTATBgcqhkjOPQIBBggqhkjOPQMBBwNCAAR16gZg4pBjdIQ3AACvqjIlPoJ72Eh0k6aGpWhMZcrOCYvov0uHJT3vlrlAIwEG_EYGH31lRsFvFLJavzAZ2PQno0IwQDAdBgNVHQ4EFgQUditEb_KU7TIq5CkJT6mE2IU-NYAwHwYDVR0jBBgwFoAUz6dE8qFiUPA56ZKF49pQ532wOqgwCgYIKoZIzj0EAwIDRwAwRAIga1_qf93OZYQ7Jdam_IpNtzuAseZELqsGd6k-Pbk1HyICIFlbgjJ5IcKPrSBiuSrqB8Q3pU1GpiyL5u77aVuKsUQWMEQCIHjpF88WLKYQMZNsv2NoCOquWUiZH4zAHMiSE9R-QM6EAiADA24B1IVEyvbEMDR0xwhOStX0URFKBIeV7VU-d8rT5g";

fn decode_b64url(s: &str) -> Vec<u8> {
    let config = base64::engine::GeneralPurposeConfig::new()
        .with_decode_padding_mode(base64::engine::DecodePaddingMode::Indifferent);
    let engine = base64::engine::GeneralPurpose::new(&base64::alphabet::URL_SAFE, config);
    base64::Engine::decode(&engine, s).unwrap()
}

fn encode_b64url(b: &[u8]) -> String {
    base64::Engine::encode(&base64::engine::general_purpose::URL_SAFE, b)
}

#[test]
fn extract_client_data() {
    assert_eq!(
        u2f_register::extract_client_data(&String::from(CLIENT_DATA_FIXTURE)).unwrap(),
        ClientData {
            challenge: String::from("9zRJoNboKHBZ2AqPROu4rwPwH0W3yIKgMnEQ_rzLU28"),
            origin: String::from("https://example.com"),
            typ: String::from("navigator.id.finishEnrollment"),
        }
    );
}

#[test]
fn extract_registration_data() {
    u2f_register::extract_registration_data(&String::from(REGISTRATION_DATA_FIXTURE)).unwrap();
}

#[test]
fn registration_record_shape() {
    let record =
        u2f_register::extract_registration_data(&String::from(REGISTRATION_DATA_FIXTURE)).unwrap();
    let decoded = decode_b64url(REGISTRATION_DATA_FIXTURE);
    assert_eq!(record.reserved, 0x05);
    assert_eq!(record.public_key.len(), 65);
    assert_eq!(record.key_handle.len(), decoded[66] as usize);
    assert_eq!(
        67 + record.key_handle.len() + record.attestation_cert.len() + record.signature.len(),
        decoded.len()
    );
}

#[test]
fn registration_record_parse_idempotent() {
    let first = u2f_register::extract_registration_data(&String::from(REGISTRATION_DATA_FIXTURE)).unwrap();
    let second = u2f_register::extract_registration_data(&String::from(REGISTRATION_DATA_FIXTURE)).unwrap();
    assert_eq!(first, second);
}

#[test]
fn truncated_registration_data_rejected() {
    let decoded = decode_b64url(REGISTRATION_DATA_FIXTURE);
    let key_handle_length = decoded[66] as usize;
    let min_len = 67 + key_handle_length + 4;
    for n in 0..min_len {
        let truncated = encode_b64url(&decoded[..n]);
        match u2f_register::extract_registration_data(&truncated) {
            Err(Error::RegistrationDataParseFailed) => {},
            other => panic!("truncation to {} bytes gave {:?}", n, other),
        }
    }
}

#[test]
fn bad_reserved_byte_rejected() {
    let mut decoded = decode_b64url(REGISTRATION_DATA_FIXTURE);
    decoded[0] = 0x06;
    let tampered = encode_b64url(&decoded);
    assert_eq!(
        u2f_register::extract_registration_data(&tampered),
        Err(Error::RegistrationDataParseFailed)
    );
}

#[test]
fn registration_data_decode_failure() {
    assert_eq!(
        u2f_register::extract_registration_data(&String::from("!!!not base64!!!")),
        Err(Error::RegistrationDataDecodeFailed)
    );
}

#[test]
fn client_data_decode_failure() {
    assert_eq!(
        u2f_register::extract_client_data(&String::from("!!!not base64!!!")),
        Err(Error::ClientDataDecodeFailed)
    );
}

#[test]
fn client_data_utf8_failure() {
    let not_utf8 = encode_b64url(&[0xff, 0xfe, 0x05]);
    assert_eq!(
        u2f_register::extract_client_data(&not_utf8),
        Err(Error::ClientDataDecodeFailed)
    );
}

#[test]
fn client_data_parse_failure() {
    let empty_object = encode_b64url(b"{}");
    assert_eq!(
        u2f_register::extract_client_data(&empty_object),
        Err(Error::ClientDataParseFailed)
    );
}

#[test]
fn verify_rejects_challenge_mismatch() {
    let request = Registration {
        challenge: String::from("some-other-challenge"),
        app_id: String::from("https://example.com"),
        origin: String::from("https://example.com"),
        registration_data: String::from(REGISTRATION_DATA_FIXTURE),
        client_data: String::from(CLIENT_DATA_FIXTURE),
    };
    assert_eq!(verify(&request), Err(Error::InvalidClientDataChallenge));
}

#[test]
fn verify_rejects_origin_mismatch() {
    let request = Registration {
        challenge: String::from("9zRJoNboKHBZ2AqPROu4rwPwH0W3yIKgMnEQ_rzLU28"),
        app_id: String::from("https://example.com"),
        origin: String::from("https://other.example"),
        registration_data: String::from(REGISTRATION_DATA_FIXTURE),
        client_data: String::from(CLIENT_DATA_FIXTURE),
    };
    assert_eq!(verify(&request), Err(Error::InvalidClientDataOrigin));
}

#[test]
fn verify_rejects_binding_before_registration_data() {
    let request = Registration {
        challenge: String::from("some-other-challenge"),
        app_id: String::from("https://example.com"),
        origin: String::from("https://example.com"),
        registration_data: String::from("!!!not even base64!!!"),
        client_data: String::from(CLIENT_DATA_FIXTURE),
    };
    assert_eq!(verify(&request), Err(Error::InvalidClientDataChallenge));
}

#[test]
fn verify_rejects_foreign_attestation() {
    let request = Registration {
        challenge: String::from("9zRJoNboKHBZ2AqPROu4rwPwH0W3yIKgMnEQ_rzLU28"),
        app_id: String::from("https://unrelated.example"),
        origin: String::from("https://example.com"),
        registration_data: String::from(REGISTRATION_DATA_FIXTURE),
        client_data: String::from(CLIENT_DATA_FIXTURE),
    };
    assert_eq!(verify(&request), Err(Error::AttestationVerificationFailed));
}

#[test]
fn error_descriptions() {
    assert_eq!(
        Error::InvalidClientDataChallenge.description(),
        "invalid client data (challenge doesn't match)"
    );
    assert_eq!(
        Error::RegistrationDataParseFailed.description(),
        "registration data parse failed"
    );
}
