use p256::ecdsa::signature::Verifier;
use passkey_enclave::aead::{encrypt, seal_aes_256_gcm};
use passkey_enclave::errors::RequestError;
use passkey_enclave::handlers::{do_assert, do_create, do_wrap_pin, get_secret_from_request};
use passkey_enclave::pin::{encrypt_pin_data, validate_pin, Dirty, PINState, StateHandle};
use passkey_enclave::pin_data::PinData;
use passkey_enclave::proto::{decode_encrypted_record, decode_stored_credential, CredentialCiphertext};
use passkey_enclave::requests::{
    AssertOptions, AssertRequest, AuthLevel, Authentication, CreateOptions, CreateRequest,
    Reauth, WrapPinRequest,
};
use sha2::Digest;

const SECRET: [u8; 32] = [21u8; 32];

fn device_auth(level: AuthLevel) -> Authentication {
    Authentication::Device(vec![0xd0, 0xd1], level, Reauth::NotDone)
}

fn fresh_state() -> StateHandle {
    StateHandle::new(PINState { attempts: 0, generation_high_water: 0 })
}

fn create_request(algs: Vec<Option<i64>>) -> CreateRequest {
    CreateRequest {
        secret: Some(SECRET.to_vec()),
        wrapped_secret: None,
        request: Some(CreateOptions { pub_key_cred_params: Some(algs) }),
        claimed_pin: None,
        wrapped_pin_data: None,
    }
}

fn put_field(out: &mut Vec<u8>, field: u32, payload: &[u8]) {
    out.push(((field << 3) | 2) as u8);
    let mut len = payload.len();
    while len >= 0x80 {
        out.push((len % 0x80 + 0x80) as u8);
        len /= 0x80;
    }
    out.push(len as u8);
    out.extend_from_slice(payload);
}

fn assert_request(protobuf: Vec<u8>) -> AssertRequest {
    AssertRequest {
        protobuf: Some(protobuf),
        client_data_json: Some(String::from("{\"challenge\":\"abc\"}")),
        request: Some(AssertOptions { rp_id: Some(String::from("example.com")) }),
        secret: Some(SECRET.to_vec()),
        wrapped_secret: None,
        claimed_pin: None,
        wrapped_pin_data: None,
    }
}

#[test]
fn create_rejects_rs256_only_params() {
    let mut state = fresh_state();
    let result = do_create(
        &device_auth(AuthLevel::Device),
        &mut state,
        &create_request(vec![Some(-257)]),
        None,
    );
    assert_eq!(result.unwrap_err(), RequestError::NoSupportedAlgorithm);
}

#[test]
fn create_classifies_shape_errors() {
    let mut state = fresh_state();
    let auth = device_auth(AuthLevel::Device);

    let err = do_create(&Authentication::Unauthenticated, &mut state, &create_request(vec![Some(-7)]), None)
        .unwrap_err();
    assert_eq!(err, RequestError::Debug("device identity required"));

    let mut no_params = create_request(vec![Some(-7)]);
    no_params.request = Some(CreateOptions { pub_key_cred_params: None });
    let err = do_create(&auth, &mut state, &no_params, None).unwrap_err();
    assert_eq!(err, RequestError::Debug("missing pubKeyCredParams array"));

    let err = do_create(&auth, &mut state, &create_request(vec![Some(-7), None]), None)
        .unwrap_err();
    assert_eq!(err, RequestError::Debug("missing algorithm"));

    let mut both = create_request(vec![Some(-7)]);
    both.wrapped_secret = Some(vec![1, 2, 3]);
    let err = do_create(&auth, &mut state, &both, Some(Ok(SECRET.to_vec()))).unwrap_err();
    assert_eq!(err, RequestError::Debug("both wrapped and unwrapped secret provided"));

    let mut neither = create_request(vec![Some(-7)]);
    neither.secret = None;
    let err = do_create(&auth, &mut state, &neither, None).unwrap_err();
    assert_eq!(err, RequestError::Debug("must provide secret or wrapped secret"));

    let mut short = create_request(vec![Some(-7)]);
    short.secret = Some(vec![1, 2, 3]);
    let err = do_create(&auth, &mut state, &short, None).unwrap_err();
    assert_eq!(err, RequestError::Debug("wrong length secret"));
}

#[test]
fn created_credential_asserts_and_verifies() {
    let mut state = fresh_state();
    let auth = device_auth(AuthLevel::Device);
    let created =
        do_create(&auth, &mut state, &create_request(vec![Some(-257), Some(-7)]), None).unwrap();
    assert_eq!(created.pub_key.len(), 65);
    assert_eq!(created.pub_key[0], 0x04);

    // Embed the sealed record in a credential entity and assert with it.
    let mut protobuf = Vec::new();
    put_field(&mut protobuf, 4, b"user-handle");
    put_field(&mut protobuf, 10, &created.encrypted);
    let response =
        do_assert(&auth, &mut state, &assert_request(protobuf), None).unwrap();

    assert_eq!(response.user_handle, b"user-handle");
    assert_eq!(response.client_data_json, "{\"challenge\":\"abc\"}");
    assert_eq!(response.authenticator_data.len(), 37);
    let rp_id_hash: [u8; 32] = sha2::Sha256::digest(b"example.com").into();
    assert_eq!(&response.authenticator_data[..32], &rp_id_hash);
    // User present, backup eligible, backed up; direct secret counts as
    // user verification.
    assert_eq!(response.authenticator_data[32], 0x1d);
    assert_eq!(&response.authenticator_data[33..], &[0, 0, 0, 0]);

    let mut signed_data = response.authenticator_data.clone();
    signed_data
        .extend_from_slice(&sha2::Sha256::digest(response.client_data_json.as_bytes()));
    let verifying_key = p256::ecdsa::VerifyingKey::from_sec1_bytes(&created.pub_key).unwrap();
    let signature = p256::ecdsa::Signature::from_der(&response.signature).unwrap();
    verifying_key.verify(&signed_data, &signature).unwrap();
}

#[test]
fn legacy_credential_variant_asserts() {
    // Seal a bare PKCS#8 document with empty associated data, as the legacy
    // record generation does.
    let signing_key = p256::ecdsa::SigningKey::random(&mut rand_core::OsRng);
    let pkcs8 = p256::pkcs8::EncodePrivateKey::to_pkcs8_der(&signing_key).unwrap();
    let sealed = encrypt(&SECRET, &pkcs8.as_bytes().to_vec(), b"").unwrap();

    let mut protobuf = Vec::new();
    put_field(&mut protobuf, 4, b"legacy-user");
    put_field(&mut protobuf, 9, &sealed);

    let mut state = fresh_state();
    let response = do_assert(
        &device_auth(AuthLevel::Device),
        &mut state,
        &assert_request(protobuf),
        None,
    )
    .unwrap();
    assert_eq!(response.user_handle, b"legacy-user");

    let mut signed_data = response.authenticator_data.clone();
    signed_data
        .extend_from_slice(&sha2::Sha256::digest(response.client_data_json.as_bytes()));
    let verifying_key = signing_key.verifying_key();
    let signature = p256::ecdsa::Signature::from_der(&response.signature).unwrap();
    verifying_key.verify(&signed_data, &signature).unwrap();
}

#[test]
fn assert_verified_bit_follows_verification() {
    // A wrapped (not direct) secret with device-level authentication and no
    // PIN claim: the verified bit stays clear.
    let mut state = fresh_state();
    let auth = device_auth(AuthLevel::Device);
    let created = do_create(&auth, &mut state, &create_request(vec![Some(-7)]), None).unwrap();
    let mut protobuf = Vec::new();
    put_field(&mut protobuf, 4, b"u");
    put_field(&mut protobuf, 10, &created.encrypted);

    let mut wrapped_request = assert_request(protobuf.clone());
    wrapped_request.secret = None;
    wrapped_request.wrapped_secret = Some(vec![9, 9, 9]);
    let response = do_assert(
        &auth,
        &mut state,
        &wrapped_request,
        Some(Ok(SECRET.to_vec())),
    )
    .unwrap();
    assert_eq!(response.authenticator_data[32], 0x19);
    assert_eq!(response.authenticator_data[32] & 0x04, 0);

    // The same request with a successfully verified PIN claim sets the bit.
    let claim_key = [31u8; 32];
    let pin_hash = [32u8; 32];
    let pin_data = PinData {
        pin_hash: pin_hash.to_vec(),
        generation: 0,
        claim_key: claim_key.to_vec(),
    };
    let mut pin_request = wrapped_request;
    pin_request.protobuf = Some(protobuf);
    pin_request.wrapped_pin_data = Some(encrypt_pin_data(&pin_data.to_bytes(), &SECRET));
    pin_request.claimed_pin = Some(seal_aes_256_gcm(&claim_key, &pin_hash, b"PIN claim"));
    let response = do_assert(
        &auth,
        &mut state,
        &pin_request,
        Some(Ok(SECRET.to_vec())),
    )
    .unwrap();
    assert_eq!(response.authenticator_data[32], 0x1d);
    assert_ne!(response.authenticator_data[32] & 0x04, 0);
}

#[test]
fn assert_classifies_decode_errors() {
    let mut state = fresh_state();
    let auth = device_auth(AuthLevel::Device);

    let mut no_proto = assert_request(vec![]);
    no_proto.protobuf = None;
    let err = do_assert(&auth, &mut state, &no_proto, None).unwrap_err();
    assert_eq!(err, RequestError::Debug("protobuf required"));

    // Wire type 3 (group start) is rejected.
    let err = do_assert(&auth, &mut state, &assert_request(vec![0x0b]), None).unwrap_err();
    assert_eq!(err, RequestError::Debug("failed to decode protobuf"));

    let mut only_encrypted = Vec::new();
    put_field(&mut only_encrypted, 10, b"junk");
    let err = do_assert(&auth, &mut state, &assert_request(only_encrypted), None).unwrap_err();
    assert_eq!(err, RequestError::Debug("protobuf is missing user ID"));

    let mut tampered = Vec::new();
    put_field(&mut tampered, 4, b"u");
    put_field(&mut tampered, 10, &[0u8; 40]);
    let err = do_assert(&auth, &mut state, &assert_request(tampered), None).unwrap_err();
    assert_eq!(err, RequestError::Debug("decryption failed"));

    let mut no_variant = Vec::new();
    put_field(&mut no_variant, 4, b"u");
    let err = do_assert(&auth, &mut state, &assert_request(no_variant), None).unwrap_err();
    assert_eq!(err, RequestError::Debug("sync entity missing encrypted data"));
}

#[test]
fn wrap_pin_round_trips_through_validation() {
    let request = WrapPinRequest {
        pin_hash: Some([41u8; 32].to_vec()),
        pin_generation: Some(6),
        pin_claim_key: Some([42u8; 32].to_vec()),
        wrapped_secret: Some(vec![1, 2, 3]),
    };
    let auth = device_auth(AuthLevel::UserVerification);
    let blob = do_wrap_pin(&auth, &request, Some(Ok(SECRET.to_vec()))).unwrap();

    let mut state = StateHandle::new(PINState { attempts: 0, generation_high_water: 4 });
    let claim = seal_aes_256_gcm(&[42u8; 32], &[41u8; 32], b"PIN claim");
    validate_pin(&mut state, &SECRET, &claim, &blob).unwrap();
    assert_eq!(state.read(), PINState { attempts: 0, generation_high_water: 6 });
    assert_eq!(state.dirty(), Dirty::Minor);
}

#[test]
fn wrap_pin_requires_authorization_and_exact_lengths() {
    let request = WrapPinRequest {
        pin_hash: Some([41u8; 32].to_vec()),
        pin_generation: Some(0),
        pin_claim_key: Some([42u8; 32].to_vec()),
        wrapped_secret: Some(vec![1]),
    };
    let outcome = || Some(Ok(SECRET.to_vec()));

    let err = do_wrap_pin(&device_auth(AuthLevel::Device), &request, outcome()).unwrap_err();
    assert_eq!(err, RequestError::Debug("not authenticated"));

    let reauthed = Authentication::Device(vec![1], AuthLevel::Device, Reauth::Done);
    assert!(do_wrap_pin(&reauthed, &request, outcome()).is_ok());

    let mut short_hash = WrapPinRequest {
        pin_hash: Some(vec![1, 2]),
        pin_generation: Some(0),
        pin_claim_key: Some([42u8; 32].to_vec()),
        wrapped_secret: Some(vec![1]),
    };
    let err = do_wrap_pin(&reauthed, &short_hash, outcome()).unwrap_err();
    assert_eq!(err, RequestError::Debug("incorrect length PIN hash"));

    short_hash.pin_hash = Some([41u8; 32].to_vec());
    short_hash.pin_claim_key = Some(vec![3]);
    let err = do_wrap_pin(&reauthed, &short_hash, outcome()).unwrap_err();
    assert_eq!(err, RequestError::Debug("incorrect length claim key"));

    short_hash.pin_claim_key = Some([42u8; 32].to_vec());
    short_hash.wrapped_secret = None;
    let err = do_wrap_pin(&reauthed, &short_hash, outcome()).unwrap_err();
    assert_eq!(err, RequestError::Debug("wrapped secret required"));

    let err = do_wrap_pin(
        &reauthed,
        &request,
        Some(Err(RequestError::Debug("store unwrap failed"))),
    )
    .unwrap_err();
    assert_eq!(err, RequestError::Debug("store unwrap failed"));
}

#[test]
fn create_checks_pin_claim_for_side_effects() {
    let claim_key = [51u8; 32];
    let pin_hash = [52u8; 32];
    let pin_data = PinData {
        pin_hash: pin_hash.to_vec(),
        generation: 0,
        claim_key: claim_key.to_vec(),
    };
    let wrapped = encrypt_pin_data(&pin_data.to_bytes(), &SECRET);

    let mut request = create_request(vec![Some(-7)]);
    request.wrapped_pin_data = Some(wrapped);
    request.claimed_pin = Some(seal_aes_256_gcm(&claim_key, &[0u8; 32], b"PIN claim"));

    let mut state = fresh_state();
    let err = do_create(&device_auth(AuthLevel::Device), &mut state, &request, None).unwrap_err();
    assert_eq!(err, RequestError::IncorrectPIN);
    assert_eq!(state.read().attempts, 1);

    request.claimed_pin = Some(seal_aes_256_gcm(&claim_key, &pin_hash, b"PIN claim"));
    assert!(do_create(&device_auth(AuthLevel::Device), &mut state, &request, None).is_ok());
    assert_eq!(state.read().attempts, 0);
}

#[test]
fn record_decoders_skip_unknown_fields() {
    let mut entity = Vec::new();
    put_field(&mut entity, 1, b"sync-id");
    entity.extend_from_slice(&[0x30, 0x99, 0x01]); // field 6, varint
    put_field(&mut entity, 4, &vec![0xabu8; 200]); // two-byte length varint
    put_field(&mut entity, 10, b"ciphertext");
    let cred = decode_stored_credential(&entity).unwrap();
    assert_eq!(cred.user_id.as_deref(), Some(&vec![0xabu8; 200][..]));
    match cred.encrypted_data {
        Some(CredentialCiphertext::Encrypted(ct)) => assert_eq!(ct, b"ciphertext"),
        other => panic!("wrong variant: {:?}", other.is_some()),
    }
    assert!(decode_stored_credential(&[0x22]).is_none()); // truncated
    assert!(decode_stored_credential(&[0x23]).is_none()); // group wire type

    let mut record = Vec::new();
    put_field(&mut record, 1, b"key-bytes");
    put_field(&mut record, 2, b"hmac-bytes");
    record.extend_from_slice(&[0x28, 0x07]); // field 5, varint 7
    put_field(&mut record, 15, b"unknown");
    let rec = decode_encrypted_record(&record).unwrap();
    assert_eq!(rec.private_key.as_deref(), Some(&b"key-bytes"[..]));
    assert_eq!(rec.hmac_secret.as_deref(), Some(&b"hmac-bytes"[..]));
    assert_eq!(rec.large_blob_uncompressed_size, Some(7));
    assert!(rec.cred_blob.is_none());
}

#[test]
fn resolve_secret_prefers_classified_errors() {
    let r = get_secret_from_request(&Some(SECRET.to_vec()), &None, None).unwrap();
    assert_eq!(r.0, SECRET.to_vec());
    let err = get_secret_from_request(&None, &Some(vec![1]), Some(Ok(vec![2u8; 31])))
        .unwrap_err();
    assert_eq!(err, RequestError::Debug("wrong length secret"));
    let err = get_secret_from_request(
        &None,
        &Some(vec![1]),
        Some(Err(RequestError::Debug("unwrap refused"))),
    )
    .unwrap_err();
    assert_eq!(err, RequestError::Debug("unwrap refused"));
}
