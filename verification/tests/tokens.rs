use authcore::crypto::SigningKey;
use authcore::errors::{KeyError, SessionError};
use authcore::hexcode::{hex_decode, hex_encode};
use authcore::session::{cookie_logout, SessionToken, TOKEN_TTL_SECONDS};
use authcore::user::User;

fn test_key() -> SigningKey {
    SigningKey::new(vec![7u8; 32]).unwrap()
}

fn other_key() -> SigningKey {
    SigningKey::new(vec![8u8; 32]).unwrap()
}

fn test_user(id: u64) -> User {
    User { id, username: b"someone".to_vec(), password_hash: Vec::new() }
}

#[test]
fn key_below_minimum_is_rejected() {
    assert!(matches!(SigningKey::new(vec![7u8; 31]), Err(KeyError::TooShort)));
    assert!(SigningKey::new(vec![7u8; 32]).is_ok());
}

#[test]
fn token_round_trip() {
    let key = test_key();
    let user = test_user(5);
    let tok = SessionToken::create(&user, 1000);
    assert_eq!(tok.user_id, 5);
    assert_eq!(tok.expiry, 1000 + TOKEN_TTL_SECONDS);
    let value = tok.serialize(&key);
    assert_eq!(value.len(), 97);
    let back = SessionToken::parse_and_verify(&value, &key, 1000).unwrap();
    assert_eq!(back.user_id, 5);
    assert_eq!(back.expiry, tok.expiry);
    // Still valid exactly at the expiry second.
    assert!(SessionToken::parse_and_verify(&value, &key, tok.expiry).is_ok());
}

#[test]
fn every_single_byte_flip_is_rejected() {
    let key = test_key();
    let tok = SessionToken::create(&test_user(42), 5000);
    let value = tok.serialize(&key);
    for i in 0..value.len() {
        let mut tampered = value.clone();
        tampered[i] ^= 0x01;
        let r = SessionToken::parse_and_verify(&tampered, &key, 5000);
        assert!(
            matches!(r, Err(SessionError::Malformed) | Err(SessionError::BadSignature)),
            "byte {} flip was not rejected",
            i
        );
    }
}

#[test]
fn truncated_and_extended_values_are_malformed() {
    let key = test_key();
    let tok = SessionToken::create(&test_user(1), 0);
    let mut value = tok.serialize(&key);
    let mut longer = value.clone();
    longer.push(b'a');
    assert_eq!(
        SessionToken::parse_and_verify(&longer, &key, 0),
        Err(SessionError::Malformed)
    );
    value.pop();
    assert_eq!(
        SessionToken::parse_and_verify(&value, &key, 0),
        Err(SessionError::Malformed)
    );
    let empty: Vec<u8> = Vec::new();
    assert_eq!(
        SessionToken::parse_and_verify(&empty, &key, 0),
        Err(SessionError::Malformed)
    );
}

#[test]
fn token_fails_under_other_key() {
    let key_a = test_key();
    let key_b = other_key();
    let tok = SessionToken::create(&test_user(3), 7777);
    let value = tok.serialize(&key_a);
    assert!(SessionToken::parse_and_verify(&value, &key_a, 7777).is_ok());
    assert_eq!(
        SessionToken::parse_and_verify(&value, &key_b, 7777),
        Err(SessionError::BadSignature)
    );
}

#[test]
fn expired_token_is_rejected_after_signature_check() {
    let key = test_key();
    let tok = SessionToken::create(&test_user(9), 1000);
    let value = tok.serialize(&key);
    assert_eq!(
        SessionToken::parse_and_verify(&value, &key, tok.expiry + 1),
        Err(SessionError::Expired)
    );
    // A tampered expired token is still a signature problem, not Expired:
    // the structure and tag are checked before the expiry is trusted.
    let mut tampered = value.clone();
    tampered[0] ^= 0x01;
    assert!(matches!(
        SessionToken::parse_and_verify(&tampered, &key, tok.expiry + 1),
        Err(SessionError::Malformed) | Err(SessionError::BadSignature)
    ));
}

#[test]
fn logout_cookie_is_a_deletion_sentinel() {
    let c = cookie_logout();
    assert_eq!(c.name, b"session".to_vec());
    assert!(c.value.is_empty());
    assert_eq!(c.max_age, 0);
    // Sent back as a cookie value, it is rejected as malformed.
    let key = test_key();
    assert_eq!(
        SessionToken::parse_and_verify(&c.value, &key, 0),
        Err(SessionError::Malformed)
    );
}

#[test]
fn hex_encoding_is_canonical_lower_case() {
    assert_eq!(hex_encode(&vec![0xde, 0xad, 0xbe, 0xef]), b"deadbeef".to_vec());
    assert_eq!(hex_encode(&vec![0x00, 0xff]), b"00ff".to_vec());
    assert_eq!(hex_encode(&Vec::new()), Vec::<u8>::new());
    assert_eq!(hex_decode(&b"00ff".to_vec()), Some(vec![0x00, 0xff]));
    // Odd length, upper case and stray bytes are not canonical.
    assert_eq!(hex_decode(&b"abc".to_vec()), None);
    assert_eq!(hex_decode(&b"DEAD".to_vec()), None);
    assert_eq!(hex_decode(&b"zz".to_vec()), None);
    let round = hex_decode(&hex_encode(&vec![1, 2, 3, 251])).unwrap();
    assert_eq!(round, vec![1, 2, 3, 251]);
}

#[test]
fn serialized_token_lays_out_payload_separator_tag() {
    let key = test_key();
    let tok = SessionToken::create(&test_user(0x0102030405060708), 0);
    let value = tok.serialize(&key);
    // First 16 hex digits: the user id, big-endian.
    assert_eq!(value[0..16].to_vec(), b"0102030405060708".to_vec());
    assert_eq!(value[32], b'.');
    // The tag segment is 64 hex digits.
    assert_eq!(value.len(), 33 + 64);
}
