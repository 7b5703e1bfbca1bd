use disint::auth::DiscordInteractionAuth;
use disint::auth::Error;
use disint::auth::Rejection;
use disint::hex::encode_hex;
use disint::security;
use disint::security::Application;
use ring::signature::KeyPair;

// The Ed25519 test key of RFC 8032, section 7.1, test 1.
const TEST_SEED: [u8; 32] = [
    0x9d, 0x61, 0xb1, 0x9d, 0xef, 0xfd, 0x5a, 0x60, 0xba, 0x84, 0x4a, 0xf4, 0x92, 0xec, 0x2c,
    0xc4, 0x44, 0x49, 0xc5, 0x69, 0x7b, 0x32, 0x69, 0x19, 0x70, 0x3b, 0xac, 0x03, 0x1c, 0xae,
    0x7f, 0x60,
];

const TEST_PUBLIC_KEY_HEX: &str =
    "d75a980182b10ab7d54bfed3c964073a0ee172f3daa62325af021a68f707511a";

fn test_key_pair() -> ring::signature::Ed25519KeyPair {
    let kp = ring::signature::Ed25519KeyPair::from_seed_unchecked(&TEST_SEED).unwrap();
    assert_eq!(encode_hex(kp.public_key().as_ref()), TEST_PUBLIC_KEY_HEX);
    kp
}

fn sign_hex(kp: &ring::signature::Ed25519KeyPair, timestamp: &str, body: &[u8]) -> String {
    let mut message = timestamp.as_bytes().to_vec();
    message.extend_from_slice(body);
    encode_hex(kp.sign(&message).as_ref())
}

#[test]
fn key_format_for_bad_hex() {
    let r = Application::from_public_key("zz");
    assert_eq!(r.err(), Some(security::Error::KeyFormat));
    assert_eq!(security::Error::KeyFormat.http_status(), 400);
}

#[test]
fn key_format_for_wrong_length() {
    // Valid hexadecimal, but not 32 bytes of key material.
    let r = Application::from_public_key("abcd");
    assert_eq!(r.err(), Some(security::Error::KeyFormat));
}

#[test]
fn signature_format_for_bad_hex() {
    let app = Application::from_public_key(TEST_PUBLIC_KEY_HEX).unwrap();
    let r = app.verify(b"{}", "1700000000", "not hex at all");
    assert_eq!(r.err(), Some(security::Error::SignatureFormat));
    assert_eq!(security::Error::SignatureFormat.http_status(), 400);
}

#[test]
fn good_signature_verifies() {
    let kp = test_key_pair();
    let app = Application::from_public_key(TEST_PUBLIC_KEY_HEX).unwrap();
    let body = b"the payload";
    let timestamp = "1700000000";
    let sig = sign_hex(&kp, timestamp, body);
    assert!(app.verify(body, timestamp, &sig).is_ok());
}

#[test]
fn flipped_body_bit_fails_verification() {
    let kp = test_key_pair();
    let app = Application::from_public_key(TEST_PUBLIC_KEY_HEX).unwrap();
    let body = b"the payload".to_vec();
    let timestamp = "1700000000";
    let sig = sign_hex(&kp, timestamp, &body);
    let mut corrupted = body.clone();
    corrupted[0] ^= 0x01;
    let r = app.verify(&corrupted, timestamp, &sig);
    assert_eq!(r.err(), Some(security::Error::Verification));
    assert_eq!(security::Error::Verification.http_status(), 401);
}

#[test]
fn changed_timestamp_fails_verification() {
    let kp = test_key_pair();
    let app = Application::from_public_key(TEST_PUBLIC_KEY_HEX).unwrap();
    let body = b"the payload";
    let sig = sign_hex(&kp, "1700000000", body);
    let r = app.verify(body, "1700000001", &sig);
    assert_eq!(r.err(), Some(security::Error::Verification));
}

#[test]
fn flipped_signature_bit_fails_verification() {
    let kp = test_key_pair();
    let app = Application::from_public_key(TEST_PUBLIC_KEY_HEX).unwrap();
    let body = b"the payload";
    let timestamp = "1700000000";
    let sig = sign_hex(&kp, timestamp, body);
    let mut raw = disint::hex::parse_hex(&sig).unwrap();
    raw[10] ^= 0x80;
    let corrupted = encode_hex(&raw);
    let r = app.verify(body, timestamp, &corrupted);
    assert_eq!(r.err(), Some(security::Error::Verification));
}

#[test]
fn missing_either_header_is_no_signature() {
    let auth = DiscordInteractionAuth::from_public_key(TEST_PUBLIC_KEY_HEX).unwrap();
    let r = auth.authenticate(None, Some("ab"), 1_700_000_000, b"{}");
    assert_eq!(r.err(), Some(Rejection::Auth(Error::NoSignature)));
    let r = auth.authenticate(Some("1700000000"), None, 1_700_000_000, b"{}");
    assert_eq!(r.err(), Some(Rejection::Auth(Error::NoSignature)));
    assert_eq!(Rejection::Auth(Error::NoSignature).http_status(), 401);
}

#[test]
fn malformed_signature_header_maps_to_400() {
    let auth = DiscordInteractionAuth::from_public_key(TEST_PUBLIC_KEY_HEX).unwrap();
    let r = auth.authenticate(
        Some("1700000000"),
        Some("not-hex"),
        1_700_000_000,
        b"{}",
    );
    let rejection = r.err().unwrap();
    assert_eq!(
        rejection,
        Rejection::Auth(Error::DisintSecurity(security::Error::SignatureFormat))
    );
    assert_eq!(rejection.http_status(), 400);
}

#[test]
fn malformed_timestamp_header_maps_to_400() {
    let auth = DiscordInteractionAuth::from_public_key(TEST_PUBLIC_KEY_HEX).unwrap();
    let r = auth.authenticate(Some("17e9"), Some("abcd"), 1_700_000_000, b"{}");
    let rejection = r.err().unwrap();
    assert_eq!(rejection, Rejection::MalformedTimestamp);
    assert_eq!(rejection.http_status(), 400);
}

#[test]
fn stale_timestamp_is_rejected() {
    let auth = DiscordInteractionAuth::from_public_key(TEST_PUBLIC_KEY_HEX).unwrap();
    let r = auth.authenticate(
        Some("1700000000"),
        Some("abcd"),
        1_700_000_005,
        b"{}",
    );
    let rejection = r.err().unwrap();
    assert_eq!(rejection, Rejection::Auth(Error::Timestamp));
    assert_eq!(rejection.http_status(), 400);
}

#[test]
fn bad_startup_key_stops_the_interceptor() {
    let r = DiscordInteractionAuth::from_public_key("0bad");
    assert_eq!(
        r.err(),
        Some(Error::DisintSecurity(security::Error::KeyFormat))
    );
}

#[test]
fn end_to_end_accepts_and_rejects() {
    let kp = test_key_pair();
    let auth = DiscordInteractionAuth::from_public_key(TEST_PUBLIC_KEY_HEX).unwrap();
    let body = b"{\"type\":1}".to_vec();
    let timestamp = "1700000000";
    let sig = sign_hex(&kp, timestamp, &body);

    // Fresh and correctly signed: the request passes, and the buffered
    // body is byte-identical to what was signed over.
    let r = auth.authenticate(Some(timestamp), Some(&sig), 1_700_000_001, &body);
    assert!(r.is_ok());
    assert_eq!(body, b"{\"type\":1}".to_vec());

    // Corrupting one hexadecimal character of the signature fails the
    // cryptographic check.
    let mut corrupted = sig.clone();
    let replacement = if corrupted.as_bytes()[0] == b'0' { '1' } else { '0' };
    corrupted.replace_range(0..1, &replacement.to_string());
    let r = auth.authenticate(Some(timestamp), Some(&corrupted), 1_700_000_001, &body);
    let rejection = r.err().unwrap();
    assert_eq!(
        rejection,
        Rejection::Auth(Error::DisintSecurity(security::Error::Verification))
    );
    assert_eq!(rejection.http_status(), 401);
}
