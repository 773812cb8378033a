use audit_app::codec::{parse_string_array, sha256_hex};
use audit_app::crypto::cipher::{decrypt, encrypt};
use audit_app::crypto::kdf::{derive_key, random_salt};
use audit_app::crypto::password::{hash, verify};
use audit_app::error::AppError;

#[test]
fn deterministic_for_same_input() {
    let password = b"correct horse battery staple";
    let salt = [0u8; 16];
    let mut a = [0u8; 32];
    let mut b = [0u8; 32];
    derive_key(password, &salt, &mut a).unwrap();
    derive_key(password, &salt, &mut b).unwrap();
    assert_eq!(a, b);
}

#[test]
fn derive_key_rejects_short_salt() {
    let mut out = [0u8; 32];
    let err = derive_key(b"pw", &[1u8; 4], &mut out).unwrap_err();
    assert!(matches!(err, AppError::Crypto(_)));
}

#[test]
fn random_salts_differ() {
    assert_ne!(random_salt(), random_salt());
}

#[test]
fn accepts_correct_password() {
    let h = hash("correct horse battery staple").unwrap();
    assert!(verify("correct horse battery staple", &h).unwrap());
}

#[test]
fn rejects_wrong_password() {
    let h = hash("correct horse battery staple").unwrap();
    assert!(!verify("stapler horse battery", &h).unwrap());
}

#[test]
fn two_hashes_of_same_password_differ() {
    let a = hash("same").unwrap();
    let b = hash("same").unwrap();
    assert_ne!(a, b, "random salt should produce different PHC strings");
}

#[test]
fn verify_rejects_unparseable_verifier() {
    assert!(matches!(verify("pw", "not a phc string").unwrap_err(), AppError::Crypto(_)));
}

#[test]
fn seal_then_open_roundtrip() {
    let key = [5u8; 32];
    let nonce = [6u8; 12];
    let sealed = encrypt(&key, &nonce, b"attack at dawn").unwrap();
    assert_eq!(sealed.len(), 14 + 16);
    assert_ne!(&sealed[..14], b"attack at dawn");
    assert_eq!(decrypt(&key, &nonce, &sealed).unwrap(), b"attack at dawn".to_vec());
    let mut tampered = sealed.clone();
    tampered[0] ^= 1;
    assert!(matches!(decrypt(&key, &nonce, &tampered).unwrap_err(), AppError::Crypto(_)));
}

#[test]
fn sha256_hex_of_abc() {
    assert_eq!(
        sha256_hex(b"abc"),
        "ba7816bf8f01cfea414140de5dae2223b00361a396177a9cb410ff61f20015ad"
    );
}

#[test]
fn string_array_column_defaults_to_empty() {
    assert_eq!(parse_string_array(&Some("[\"a\",\"b\"]".into())), vec!["a".to_string(), "b".to_string()]);
    assert!(parse_string_array(&Some("not json".into())).is_empty());
    assert!(parse_string_array(&None).is_empty());
}
