use aes_gcm::aead::{Aead, KeyInit, Payload};
use aes_gcm::{Aes256Gcm, Key, Nonce};
use passkey_enclave::aead::{
    decrypt, encrypt, encrypted_field_aad_bytes, open_aes_256_gcm, pin_claim_aad_bytes,
    seal_aes_256_gcm, security_domain_secret_to_encryption_key,
    security_domain_secret_to_pin_data_key,
};
use passkey_enclave::errors::RequestError;

const FULL_RECORD_AAD: &[u8] = b"WebauthnCredentialSpecifics.Encrypted";

#[test]
fn aad_constants_spell_their_strings() {
    assert_eq!(encrypted_field_aad_bytes(), FULL_RECORD_AAD);
    assert_eq!(pin_claim_aad_bytes(), b"PIN claim");
}

#[test]
fn seal_then_open_round_trips() {
    let secret = [7u8; 32];
    let plaintext = b"some entity secret";
    for aad in [&b""[..], FULL_RECORD_AAD] {
        let sealed = encrypt(&secret, &plaintext.to_vec(), aad).unwrap();
        assert_eq!(sealed.len(), plaintext.len() + 12 + 16);
        let opened = decrypt(&sealed, &secret, aad).unwrap();
        assert_eq!(opened.as_slice(), plaintext.as_slice());
    }
}

#[test]
fn sealing_twice_differs_but_both_open() {
    let key = [9u8; 32];
    let plaintext = b"nonce randomization";
    let first = seal_aes_256_gcm(&key, plaintext, b"aad");
    let second = seal_aes_256_gcm(&key, plaintext, b"aad");
    assert_ne!(first, second);
    assert_eq!(
        open_aes_256_gcm(&key, &first, b"aad").unwrap().as_slice(),
        plaintext.as_slice()
    );
    assert_eq!(
        open_aes_256_gcm(&key, &second, b"aad").unwrap().as_slice(),
        plaintext.as_slice()
    );
}

#[test]
fn open_rejects_wrong_aad_truncation_and_tampering() {
    let key = [3u8; 32];
    let sealed = seal_aes_256_gcm(&key, b"payload", b"right aad");
    assert!(open_aes_256_gcm(&key, &sealed, b"wrong aad").is_none());
    assert!(open_aes_256_gcm(&key, &sealed[..sealed.len() - 1], b"right aad").is_none());
    assert!(open_aes_256_gcm(&key, &sealed[..11], b"right aad").is_none());
    assert!(open_aes_256_gcm(&key, b"", b"right aad").is_none());
    let mut flipped = sealed.clone();
    let last = flipped.len() - 1;
    flipped[last] ^= 0x01;
    assert!(open_aes_256_gcm(&key, &flipped, b"right aad").is_none());
    assert_eq!(
        open_aes_256_gcm(&key, &sealed, b"right aad").unwrap().as_slice(),
        b"payload".as_slice()
    );
}

#[test]
fn decrypt_reports_failure_as_debug_error() {
    let secret = [1u8; 32];
    let err = decrypt(&[0u8; 8], &secret, b"").unwrap_err();
    assert_eq!(err, RequestError::Debug("decryption failed"));
}

#[test]
fn derived_keys_match_hkdf_directly() {
    let secret = [7u8; 32];
    let record_key = security_domain_secret_to_encryption_key(&secret);
    let pin_key = security_domain_secret_to_pin_data_key(&secret);

    let hk = hkdf::Hkdf::<sha2::Sha256>::new(None, &secret);
    let mut expected = [0u8; 32];
    hk.expand(
        b"KeychainApplicationKey:gmscore_module:com.google.android.gms.fido",
        &mut expected,
    )
    .unwrap();
    assert_eq!(record_key.as_slice(), &expected);

    hk.expand(
        b"KeychainApplicationKey:chrome:GPM PIN data wrapping key",
        &mut expected,
    )
    .unwrap();
    assert_eq!(pin_key.as_slice(), &expected);

    assert_ne!(record_key, pin_key);
}

#[test]
fn sealed_blob_opens_with_aes_gcm_directly() {
    let secret = [5u8; 32];
    let sealed = encrypt(&secret, &b"cross-checked".to_vec(), FULL_RECORD_AAD).unwrap();

    let record_key = security_domain_secret_to_encryption_key(&secret);
    let cipher = Aes256Gcm::new(Key::<Aes256Gcm>::from_slice(&record_key));
    let plaintext = cipher
        .decrypt(
            Nonce::from_slice(&sealed[..12]),
            Payload { msg: &sealed[12..], aad: FULL_RECORD_AAD },
        )
        .unwrap();
    assert_eq!(plaintext.as_slice(), b"cross-checked".as_slice());
}
