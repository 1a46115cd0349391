//! The request handlers: create a credential, produce an assertion, and wrap
//! a PIN record.
//!
//! The durable store and the device-scoped unwrap of wrapped secrets belong
//! to the surrounding runtime: a handler receives the per-device PIN state
//! behind a transactional handle, and — where the request carries a wrapped
//! secret and no direct one — the outcome of the store's unwrap operation.

use vstd::prelude::*;
use vstd::slice::slice_to_vec;
use vstd::utf8::encode_utf8;

use crate::aead::{
    decrypt, empty_aad, encrypt, encrypted_field_aad, encrypted_field_aad_bytes,
    private_key_field_aad, spec_open, spec_passkey_encryption_key,
};
use crate::crypto::{
    p256_check_pkcs8, p256_generate_pkcs8, p256_pkcs8_valid, p256_public_key, p256_public_key_of,
    p256_sign, p256_signature_of, random_bytes, sha256, sha256_of,
};
use crate::errors::{debug, RequestError};
use crate::pin::{
    maybe_validate_pin_from_request, spec_maybe_validate_pin, spec_unwrapped_pin_data, Dirty,
    PINState, StateHandle,
};
use crate::pin_data::{spec_pin_data_encode, PinData};
use crate::proto::{
    decode_stored_credential, encode_encrypted_record, spec_encrypted_record_decode,
    spec_encrypted_record_encode, spec_stored_credential_decode, CredentialCiphertext,
    SpecCredentialCiphertext, SpecStoredCredential, StoredCredential,
};
use crate::requests::{
    AssertRequest, AssertResponse, AuthLevel, Authentication, CreateRequest, CreateResponse,
    Reauth, SpecAssertRequest, SpecAssertResponse, SpecCreateRequest, SpecWrapPinRequest,
    WrapPinRequest,
};

verus! {

/// The COSE identifier of ECDSA P-256 with SHA-256, the one algorithm the
/// authenticator supports.
pub const COSE_ALGORITHM_ECDSA_P256_SHA256: i64 = -7;

/// Largest PKCS#8 document accepted from the key generator.
pub const MAX_PKCS8_LEN: usize = 4096;

/// CTAP authenticator-data flag: user present.
pub const FLAG_USER_PRESENT: u8 = 0x01;

/// CTAP authenticator-data flag: user verified.
pub const FLAG_USER_VERIFIED: u8 = 0x04;

/// CTAP authenticator-data flag: backup eligible.
pub const FLAG_BACKUP_ELIGIBLE: u8 = 0x08;

/// CTAP authenticator-data flag: backed up.
pub const FLAG_BACKED_UP: u8 = 0x10;

/// Where a request's security-domain secret came from.
#[derive(Clone, Copy, Debug, PartialEq, Eq, Structural)]
pub enum SourceOfSecret {
    Wrapped,
    Direct,
}

/// The view of an optional byte field.
pub open spec fn opt_bytes(o: Option<Vec<u8>>) -> Option<Seq<u8>> {
    match o {
        Some(v) => Some(v@),
        None => None,
    }
}

/// The view of an unwrap outcome.
pub open spec fn opt_outcome(o: Option<Result<Vec<u8>, RequestError>>) -> Option<
    Result<Seq<u8>, RequestError>,
> {
    match o {
        Some(Ok(v)) => Some(Ok(v@)),
        Some(Err(e)) => Some(Err(e)),
        None => None,
    }
}

/// How a request's security-domain secret resolves: exactly one of the
/// wrapped and the direct form must be present, an unwrap failure propagates
/// unchanged, and the result must be exactly 32 bytes.
pub open spec fn spec_resolve_secret(
    secret: Option<Seq<u8>>,
    wrapped_secret: Option<Seq<u8>>,
    unwrapped: Option<Result<Seq<u8>, RequestError>>,
) -> Result<(Seq<u8>, SourceOfSecret), RequestError> {
    match wrapped_secret {
        Some(_) => if secret is Some {
            Err(RequestError::Debug("both wrapped and unwrapped secret provided"))
        } else {
            match unwrapped {
                Some(Ok(bytes)) => if bytes.len() == 32 {
                    Ok((bytes, SourceOfSecret::Wrapped))
                } else {
                    Err(RequestError::Debug("wrong length secret"))
                },
                Some(Err(e)) => Err(e),
                None => Err(RequestError::Debug("wrong length secret")),
            }
        },
        None => match secret {
            Some(s) => if s.len() == 32 {
                Ok((s, SourceOfSecret::Direct))
            } else {
                Err(RequestError::Debug("wrong length secret"))
            },
            None => Err(RequestError::Debug("must provide secret or wrapped secret")),
        },
    }
}

/// Get the security domain secret for a client's request, either because it
/// is wrapped — in which case the caller has already run the store's unwrap
/// and hands in its outcome — or because the client provided it directly.
pub fn get_secret_from_request(
    secret: &Option<Vec<u8>>,
    wrapped_secret: &Option<Vec<u8>>,
    unwrap_outcome: Option<Result<Vec<u8>, RequestError>>,
) -> (r: Result<(Vec<u8>, SourceOfSecret), RequestError>)
    requires
        *wrapped_secret is Some && *secret is None ==> unwrap_outcome is Some,
    ensures
        match r {
            Ok(p) => {
                &&& spec_resolve_secret(
                    opt_bytes(*secret),
                    opt_bytes(*wrapped_secret),
                    opt_outcome(unwrap_outcome),
                ) == Ok::<_, RequestError>((p.0@, p.1))
                &&& p.0@.len() == 32
            },
            Err(e) => spec_resolve_secret(
                opt_bytes(*secret),
                opt_bytes(*wrapped_secret),
                opt_outcome(unwrap_outcome),
            ) == Err::<(Seq<u8>, SourceOfSecret), RequestError>(e),
        },
{
    match wrapped_secret {
        Some(_) => {
            if secret.is_some() {
                debug("both wrapped and unwrapped secret provided")
            } else {
                match unwrap_outcome {
                    Some(Ok(bytes)) => if bytes.len() == 32 {
                        Ok((bytes, SourceOfSecret::Wrapped))
                    } else {
                        debug("wrong length secret")
                    },
                    Some(Err(e)) => Err(e),
                    None => debug("wrong length secret"),
                }
            }
        },
        None => match secret {
            Some(s) => if s.len() == 32 {
                Ok((slice_to_vec(s.as_slice()), SourceOfSecret::Direct))
            } else {
                debug("wrong length secret")
            },
            None => debug("must provide secret or wrapped secret"),
        },
    }
}

/// Contains the secrets from a specific passkey sync entity.
pub struct EntitySecrets {
    /// The PKCS#8 DER document of the credential's ECDSA P-256 signing key.
    pub primary_key: Vec<u8>,
    /// Generated at creation, but not yet used by the signing path.
    pub hmac_secret: Option<Vec<u8>>,
}

/// What reconstructing the entity secrets from a credential entity yields:
/// the private-key document and the optional auxiliary secret, or the
/// classified failure.
pub open spec fn spec_entity_secrets(sds: Seq<u8>, cred: SpecStoredCredential) -> Result<
    (Seq<u8>, Option<Seq<u8>>),
    RequestError,
> {
    match cred.encrypted_data {
        None => Err(RequestError::Debug("sync entity missing encrypted data")),
        Some(SpecCredentialCiphertext::PrivateKey(ciphertext)) => match spec_open(
            spec_passkey_encryption_key(sds),
            ciphertext,
            private_key_field_aad(),
        ) {
            None => Err(RequestError::Debug("decryption failed")),
            Some(plaintext) => if p256_pkcs8_valid(plaintext) {
                Ok((plaintext, None))
            } else {
                Err(RequestError::Debug("PKCS#8 parse failed"))
            },
        },
        Some(SpecCredentialCiphertext::Encrypted(ciphertext)) => match spec_open(
            spec_passkey_encryption_key(sds),
            ciphertext,
            encrypted_field_aad(),
        ) {
            None => Err(RequestError::Debug("decryption failed")),
            Some(plaintext) => match spec_encrypted_record_decode(plaintext) {
                None => Err(RequestError::Debug("failed to decode encrypted data")),
                Some(record) => match record.private_key {
                    None => Err(RequestError::Debug("missing private key")),
                    Some(private_key) => if p256_pkcs8_valid(private_key) {
                        Ok((private_key, record.hmac_secret))
                    } else {
                        Err(RequestError::Debug("PKCS#8 parse failed"))
                    },
                },
            },
        },
    }
}

/// Returns the entity secrets from a credential entity, decrypted with the
/// security domain secret. The two wrapping generations report the same
/// generic failure on an unauthentic ciphertext, so a caller cannot tell
/// which format was guessed.
pub fn entity_secrets_from_proto(
    security_domain_secret: &[u8],
    proto: &StoredCredential,
) -> (r: Result<EntitySecrets, RequestError>)
    ensures
        match r {
            Ok(es) => {
                &&& spec_entity_secrets(security_domain_secret@, proto.model()) == Ok::<
                    _,
                    RequestError,
                >((es.primary_key@, opt_bytes(es.hmac_secret)))
                &&& p256_pkcs8_valid(es.primary_key@)
            },
            Err(e) => spec_entity_secrets(security_domain_secret@, proto.model()) == Err::<
                (Seq<u8>, Option<Seq<u8>>),
                RequestError,
            >(e),
        },
{
    match &proto.encrypted_data {
        None => debug("sync entity missing encrypted data"),
        Some(CredentialCiphertext::PrivateKey(ciphertext)) => {
            let plaintext = match decrypt(
                ciphertext.as_slice(),
                security_domain_secret,
                empty_aad(),
            ) {
                Ok(p) => p,
                Err(e) => { return Err(e) },
            };
            if p256_check_pkcs8(plaintext.as_slice()) {
                Ok(EntitySecrets { primary_key: plaintext, hmac_secret: None })
            } else {
                debug("PKCS#8 parse failed")
            }
        },
        Some(CredentialCiphertext::Encrypted(ciphertext)) => {
            let aad = encrypted_field_aad_bytes();
            let plaintext = match decrypt(
                ciphertext.as_slice(),
                security_domain_secret,
                aad.as_slice(),
            ) {
                Ok(p) => p,
                Err(e) => { return Err(e) },
            };
            match crate::proto::decode_encrypted_record(plaintext.as_slice()) {
                None => debug("failed to decode encrypted data"),
                Some(record) => match record.private_key {
                    None => debug("missing private key"),
                    Some(private_key) => if p256_check_pkcs8(private_key.as_slice()) {
                        Ok(
                            EntitySecrets {
                                primary_key: private_key,
                                hmac_secret: record.hmac_secret,
                            },
                        )
                    } else {
                        debug("PKCS#8 parse failed")
                    },
                },
            }
        },
    }
}

/// The signed authenticator data: the relying-party hash, one flags byte —
/// user present, backup eligible and backed up always set, user verified
/// exactly when verification succeeded — and the four-byte zero signature
/// counter.
pub open spec fn spec_authenticator_data(rp_id_hash: Seq<u8>, user_verified: bool) -> Seq<u8> {
    rp_id_hash + seq![
        (FLAG_BACKUP_ELIGIBLE | FLAG_BACKED_UP | FLAG_USER_PRESENT | if user_verified {
            FLAG_USER_VERIFIED
        } else {
            0
        }) as u8,
        0u8,
        0u8,
        0u8,
        0u8,
    ]
}

/// Assemble the authenticator data for an assertion.
pub fn build_authenticator_data(rp_id_hash: &[u8], user_verified: bool) -> (r: Vec<u8>)
    ensures
        r@ == spec_authenticator_data(rp_id_hash@, user_verified),
        r@.len() == rp_id_hash@.len() + 5,
{
    let mut out = slice_to_vec(rp_id_hash);
    let flags: u8 = FLAG_BACKUP_ELIGIBLE | FLAG_BACKED_UP | FLAG_USER_PRESENT | (
    if user_verified {
        FLAG_USER_VERIFIED
    } else {
        0
    });
    out.push(flags);
    out.push(0);
    out.push(0);
    out.push(0);
    out.push(0);
    assert(out@ =~= spec_authenticator_data(rp_id_hash@, user_verified));
    out
}

/// Seal a fresh credential's material into the response: serialize the
/// private-key document and auxiliary secret as a current-variant record and
/// seal it under the full-record key. Succeeds exactly when the document
/// parses as a P-256 key and is of plausible size.
pub fn seal_credential_record(
    security_domain_secret: &[u8],
    pkcs8: &[u8],
    hmac_secret: &[u8],
) -> (r: Result<CreateResponse, RequestError>)
    requires
        hmac_secret@.len() == 32,
    ensures
        match r {
            Ok(resp) => {
                &&& p256_pkcs8_valid(pkcs8@)
                &&& pkcs8@.len() <= MAX_PKCS8_LEN
                &&& p256_public_key_of(pkcs8@) == Some(resp.pub_key@)
                &&& resp.pub_key@.len() == 65
                &&& spec_open(
                    spec_passkey_encryption_key(security_domain_secret@),
                    resp.encrypted@,
                    encrypted_field_aad(),
                ) == Some(spec_encrypted_record_encode(pkcs8@, hmac_secret@))
            },
            Err(e) => {
                &&& e is Debug
                &&& !(p256_pkcs8_valid(pkcs8@) && pkcs8@.len() <= MAX_PKCS8_LEN)
            },
        },
{
    if pkcs8.len() > MAX_PKCS8_LEN {
        return debug("implausibly large private key");
    }
    let pub_key = match p256_public_key(pkcs8) {
        Some(pk) => pk,
        None => { return debug("failed to parse private key") },
    };
    let record = encode_encrypted_record(pkcs8, hmac_secret);
    proof {
        crate::proto::lemma_varint_len(pkcs8@.len() as u64);
        crate::proto::lemma_varint_len(hmac_secret@.len() as u64);
    }
    let aad = encrypted_field_aad_bytes();
    match encrypt(security_domain_secret, &record, aad.as_slice()) {
        Ok(ciphertext) => Ok(CreateResponse { encrypted: ciphertext, pub_key }),
        Err(e) => Err(e),
    }
}

/// Everything `do_create` decides before it generates key material: the
/// checks, the resolved secret, and the PIN-validation side effects.
pub open spec fn spec_create_checks(
    auth: Authentication,
    req: SpecCreateRequest,
    unwrapped: Option<Result<Seq<u8>, RequestError>>,
    st0: PINState,
    d0: Dirty,
) -> (Result<Seq<u8>, RequestError>, PINState, Dirty) {
    if !(auth matches Authentication::Device(_, _, _)) {
        (Err(RequestError::Debug("device identity required")), st0, d0)
    } else {
        match spec_resolve_secret(req.secret, req.wrapped_secret, unwrapped) {
            Err(e) => (Err(e), st0, d0),
            Ok((sds, _source)) => match req.request {
                None => (Err(RequestError::Debug("WebAuthn request required")), st0, d0),
                Some(options) => match options.pub_key_cred_params {
                    None => (Err(RequestError::Debug("missing pubKeyCredParams array")), st0, d0),
                    Some(params) => if exists|i: int|
                        0 <= i < params.len() && params[i] is None {
                        (Err(RequestError::Debug("missing algorithm")), st0, d0)
                    } else if !params.contains(Some(COSE_ALGORITHM_ECDSA_P256_SHA256)) {
                        (Err(RequestError::NoSupportedAlgorithm), st0, d0)
                    } else {
                        let (res, st1, d1) = spec_maybe_validate_pin(
                            st0,
                            d0,
                            sds,
                            req.claimed_pin,
                            req.wrapped_pin_data,
                        );
                        match res {
                            Err(e) => (Err(e), st1, d1),
                            Ok(_) => (Ok(sds), st1, d1),
                        }
                    },
                },
            },
        }
    }
}

/// Create a credential: check the request, generate a fresh P-256 keypair
/// and a reserved 32-byte secret, and seal them as the credential record.
///
/// A PIN claim in the request is validated for its side effects alone — an
/// incorrect PIN fails the request, letting a client check a PIN during
/// enrollment — and its boolean outcome is discarded.
#[verifier::loop_isolation(false)]
pub fn do_create(
    auth: &Authentication,
    state: &mut StateHandle,
    request: &CreateRequest,
    unwrap_outcome: Option<Result<Vec<u8>, RequestError>>,
) -> (r: Result<CreateResponse, RequestError>)
    requires
        request.wrapped_secret is Some && request.secret is None ==> unwrap_outcome is Some,
    ensures
        ({
            let (chk, st1, d1) = spec_create_checks(
                *auth,
                request.model(),
                opt_outcome(unwrap_outcome),
                old(state).spec_state(),
                old(state).spec_dirty(),
            );
            &&& final(state).spec_state() == st1
            &&& final(state).spec_dirty() == d1
            &&& match chk {
                Err(e) => r == Err::<CreateResponse, RequestError>(e),
                Ok(sds) => match r {
                    Ok(resp) => exists|der: Seq<u8>, reserved: Seq<u8>|
                        {
                            &&& p256_pkcs8_valid(der)
                            &&& reserved.len() == 32
                            &&& p256_public_key_of(der) == Some(resp.pub_key@)
                            &&& spec_open(
                                spec_passkey_encryption_key(sds),
                                resp.encrypted@,
                                encrypted_field_aad(),
                            ) == Some(#[trigger] spec_encrypted_record_encode(der, reserved))
                        },
                    Err(e) => e is Debug,
                },
            }
        }),
{
    if !(matches!(auth, Authentication::Device(_, _, _))) {
        return debug("device identity required");
    }
    let (security_domain_secret, _source) = match get_secret_from_request(
        &request.secret,
        &request.wrapped_secret,
        unwrap_outcome,
    ) {
        Ok(p) => p,
        Err(e) => { return Err(e) },
    };
    let options = match &request.request {
        Some(o) => o,
        None => { return debug("WebAuthn request required") },
    };
    let params = match &options.pub_key_cred_params {
        Some(p) => p,
        None => { return debug("missing pubKeyCredParams array") },
    };
    let n: usize = params.len();
    let mut found: bool = false;
    let mut i: usize = 0;
    while i < n
        invariant
            n == params@.len(),
            0 <= i <= n,
            forall|j: int| 0 <= j < i ==> params@[j] is Some,
            found <==> exists|j: int|
                0 <= j < i && params@[j] == Some(COSE_ALGORITHM_ECDSA_P256_SHA256),
        decreases n - i,
    {
        match params[i] {
            None => { return debug("missing algorithm") },
            Some(alg) => {
                if alg == COSE_ALGORITHM_ECDSA_P256_SHA256 {
                    found = true;
                }
            },
        }
        i = i + 1;
    }
    if !found {
        assert(!params@.contains(Some(COSE_ALGORITHM_ECDSA_P256_SHA256)));
        return Err(RequestError::NoSupportedAlgorithm);
    }
    assert(params@.contains(Some(COSE_ALGORITHM_ECDSA_P256_SHA256)));
    // An incorrect PIN still fails the request, so that the client can check
    // whether it was correct; a successful outcome is not used here.
    match maybe_validate_pin_from_request(
        state,
        security_domain_secret.as_slice(),
        &request.claimed_pin,
        &request.wrapped_pin_data,
    ) {
        Ok(_) => (),
        Err(e) => { return Err(e) },
    }
    let pkcs8 = match p256_generate_pkcs8() {
        Some(der) => der,
        None => { return debug("key generation failed") },
    };
    let reserved_secret = random_bytes(32);
    let result = seal_credential_record(
        security_domain_secret.as_slice(),
        pkcs8.as_slice(),
        reserved_secret.as_slice(),
    );
    proof {
        if result is Ok {
            let resp = result->Ok_0;
            assert(p256_pkcs8_valid(pkcs8@) && reserved_secret@.len() == 32
                && p256_public_key_of(pkcs8@) == Some(resp.pub_key@) && spec_open(
                spec_passkey_encryption_key(security_domain_secret@),
                resp.encrypted@,
                encrypted_field_aad(),
            ) == Some(spec_encrypted_record_encode(pkcs8@, reserved_secret@)));
        }
    }
    result
}

/// Everything `do_assert` yields, as a function of the request, the unwrap
/// outcome and the starting PIN state. Signing is deterministic, so the full
/// response is pinned.
pub open spec fn spec_do_assert(
    auth: Authentication,
    req: SpecAssertRequest,
    unwrapped: Option<Result<Seq<u8>, RequestError>>,
    st0: PINState,
    d0: Dirty,
) -> (Result<SpecAssertResponse, RequestError>, PINState, Dirty) {
    if !(auth matches Authentication::Device(_, _, _)) {
        (Err(RequestError::Debug("device identity required")), st0, d0)
    } else {
        let auth_level = auth->Device_1;
        match req.protobuf {
            None => (Err(RequestError::Debug("protobuf required")), st0, d0),
            Some(proto_bytes) => match req.client_data_json {
                None => (Err(RequestError::Debug("clientDataJSON required")), st0, d0),
                Some(client_data_json) => match req.request {
                    None => (Err(RequestError::Debug("WebAuthn request required")), st0, d0),
                    Some(options) => match options.rp_id {
                        None => (Err(RequestError::Debug("rpId required")), st0, d0),
                        Some(rp_id) => match spec_resolve_secret(
                            req.secret,
                            req.wrapped_secret,
                            unwrapped,
                        ) {
                            Err(e) => (Err(e), st0, d0),
                            Ok((sds, source)) => match spec_stored_credential_decode(proto_bytes) {
                                None => (
                                    Err(RequestError::Debug("failed to decode protobuf")),
                                    st0,
                                    d0,
                                ),
                                Some(cred) => match cred.user_id {
                                    None => (
                                        Err(RequestError::Debug("protobuf is missing user ID")),
                                        st0,
                                        d0,
                                    ),
                                    Some(user_id) => match spec_entity_secrets(sds, cred) {
                                        Err(e) => (Err(e), st0, d0),
                                        Ok((primary_key, _hmac)) => {
                                            let (pin_res, st1, d1) = spec_maybe_validate_pin(
                                                st0,
                                                d0,
                                                sds,
                                                req.claimed_pin,
                                                req.wrapped_pin_data,
                                            );
                                            match pin_res {
                                                Err(e) => (Err(e), st1, d1),
                                                Ok(pin_verified) => {
                                                    let user_verified = (
                                                    auth_level is UserVerification) || pin_verified
                                                        || (source is Direct);
                                                    let authenticator_data =
                                                        spec_authenticator_data(
                                                        sha256_of(encode_utf8(rp_id)),
                                                        user_verified,
                                                    );
                                                    let signed_data = authenticator_data
                                                        + sha256_of(encode_utf8(client_data_json));
                                                    match p256_signature_of(
                                                        primary_key,
                                                        signed_data,
                                                    ) {
                                                        None => (
                                                            Err(
                                                                RequestError::Debug(
                                                                    "signing failed",
                                                                ),
                                                            ),
                                                            st1,
                                                            d1,
                                                        ),
                                                        Some(signature) => (
                                                            Ok(
                                                                SpecAssertResponse {
                                                                    client_data_json,
                                                                    authenticator_data,
                                                                    signature,
                                                                    user_handle: user_id,
                                                                },
                                                            ),
                                                            st1,
                                                            d1,
                                                        ),
                                                    }
                                                },
                                            }
                                        },
                                    },
                                },
                            },
                        },
                    },
                },
            },
        }
    }
}

/// Produce an assertion: decode the signed-over credential record, decrypt
/// its signing key, optionally validate a PIN claim, and sign the
/// authenticator data and client-data hash.
///
/// The user-verified flag is set when the caller authenticated with user
/// verification, when a PIN claim verified, or when the caller supplied the
/// security-domain secret directly — possession of the raw secret would let
/// it sign by itself, so nothing weaker was needed.
pub fn do_assert(
    auth: &Authentication,
    state: &mut StateHandle,
    request: &AssertRequest,
    unwrap_outcome: Option<Result<Vec<u8>, RequestError>>,
) -> (r: Result<AssertResponse, RequestError>)
    requires
        request.wrapped_secret is Some && request.secret is None ==> unwrap_outcome is Some,
    ensures
        ({
            let (res, st1, d1) = spec_do_assert(
                *auth,
                request.model(),
                opt_outcome(unwrap_outcome),
                old(state).spec_state(),
                old(state).spec_dirty(),
            );
            &&& final(state).spec_state() == st1
            &&& final(state).spec_dirty() == d1
            &&& (r matches Ok(resp) ==> res == Ok::<_, RequestError>(resp.model()))
            &&& (r matches Err(e) ==> res == Err::<SpecAssertResponse, RequestError>(e))
        }),
{
    let auth_level = match auth {
        Authentication::Device(_, level, _) => *level,
        _ => { return debug("device identity required") },
    };
    let proto_bytes = match &request.protobuf {
        Some(b) => b,
        None => { return debug("protobuf required") },
    };
    let client_data_json = match &request.client_data_json {
        Some(s) => s,
        None => { return debug("clientDataJSON required") },
    };
    let options = match &request.request {
        Some(o) => o,
        None => { return debug("WebAuthn request required") },
    };
    let rp_id = match &options.rp_id {
        Some(s) => s,
        None => { return debug("rpId required") },
    };
    let client_data_json_hash = sha256(client_data_json.as_str().as_bytes());
    let rp_id_hash = sha256(rp_id.as_str().as_bytes());
    let (security_domain_secret, secret_source) = match get_secret_from_request(
        &request.secret,
        &request.wrapped_secret,
        unwrap_outcome,
    ) {
        Ok(p) => p,
        Err(e) => { return Err(e) },
    };
    let proto = match decode_stored_credential(proto_bytes.as_slice()) {
        Some(c) => c,
        None => { return debug("failed to decode protobuf") },
    };
    let user_id = match &proto.user_id {
        Some(u) => slice_to_vec(u.as_slice()),
        None => { return debug("protobuf is missing user ID") },
    };
    let entity_secrets = match entity_secrets_from_proto(security_domain_secret.as_slice(), &proto)
        {
        Ok(es) => es,
        Err(e) => { return Err(e) },
    };
    let pin_verified = match maybe_validate_pin_from_request(
        state,
        security_domain_secret.as_slice(),
        &request.claimed_pin,
        &request.wrapped_pin_data,
    ) {
        Ok(v) => v,
        Err(e) => { return Err(e) },
    };
    let user_verified = matches!(auth_level, AuthLevel::UserVerification) || pin_verified
        || matches!(secret_source, SourceOfSecret::Direct);
    let authenticator_data = build_authenticator_data(rp_id_hash.as_slice(), user_verified);
    let mut signed_data = slice_to_vec(authenticator_data.as_slice());
    signed_data.extend_from_slice(client_data_json_hash.as_slice());
    assert(signed_data@ =~= authenticator_data@ + client_data_json_hash@);
    let signature = match p256_sign(entity_secrets.primary_key.as_slice(), signed_data.as_slice())
        {
        Some(s) => s,
        None => { return debug("signing failed") },
    };
    let response = AssertResponse {
        client_data_json: clone_string(client_data_json),
        authenticator_data,
        signature,
        user_handle: user_id,
    };
    Ok(response)
}

/// Clone a string, keeping its contents.
fn clone_string(s: &String) -> (r: String)
    ensures
        r@ == s@,
{
    s.clone()
}

/// What `do_wrap_pin` yields: the field checks, and — since the sealed blob
/// is randomized — the encoded record it must open back to.
pub open spec fn spec_wrap_pin_checks(
    auth: Authentication,
    req: SpecWrapPinRequest,
    unwrapped: Option<Result<Seq<u8>, RequestError>>,
) -> Result<(Seq<u8>, Seq<u8>), RequestError> {
    let authorized = (auth matches Authentication::Device(_, level, _)
        && level is UserVerification) || (auth matches Authentication::Device(_, _, reauth)
        && reauth is Done);
    if !authorized {
        Err(RequestError::Debug("not authenticated"))
    } else {
        match req.pin_hash {
            None => Err(RequestError::Debug("pin_hash required")),
            Some(pin_hash) => match req.pin_generation {
                None => Err(RequestError::Debug("pin_generation required")),
                Some(generation) => match req.pin_claim_key {
                    None => Err(RequestError::Debug("pin_claim_key required")),
                    Some(claim_key) => match req.wrapped_secret {
                        None => Err(RequestError::Debug("wrapped secret required")),
                        Some(_) => match unwrapped {
                            Some(Err(e)) => Err(e),
                            Some(Ok(sds)) => if pin_hash.len() != 32 {
                                Err(RequestError::Debug("incorrect length PIN hash"))
                            } else if claim_key.len() != 32 {
                                Err(RequestError::Debug("incorrect length claim key"))
                            } else {
                                Ok((sds, spec_pin_data_encode(pin_hash, generation as int, claim_key)))
                            },
                            None => Err(RequestError::Debug("wrapped secret required")),
                        },
                    },
                },
            },
        }
    }
}

/// Wrap a PIN record: requires user verification or a completed
/// re-authentication, builds the record from the request's fields, and seals
/// its encoding under the PIN-data key of the unwrapped security-domain
/// secret. The caller persists the returned blob.
pub fn do_wrap_pin(
    auth: &Authentication,
    request: &WrapPinRequest,
    unwrap_outcome: Option<Result<Vec<u8>, RequestError>>,
) -> (r: Result<Vec<u8>, RequestError>)
    requires
        request.wrapped_secret is Some ==> unwrap_outcome is Some,
    ensures
        ({
            let chk = spec_wrap_pin_checks(*auth, request.model(), opt_outcome(unwrap_outcome));
            match r {
                Ok(blob) => chk matches Ok(p) && spec_unwrapped_pin_data(p.0, blob@) == Some(p.1),
                Err(e) => chk == Err::<(Seq<u8>, Seq<u8>), RequestError>(e),
            }
        }),
{
    let authorized = match auth {
        Authentication::Device(_, AuthLevel::UserVerification, _) => true,
        Authentication::Device(_, _, Reauth::Done) => true,
        _ => false,
    };
    if !authorized {
        return debug("not authenticated");
    }
    let pin_hash = match &request.pin_hash {
        Some(h) => h,
        None => { return debug("pin_hash required") },
    };
    let generation = match request.pin_generation {
        Some(g) => g,
        None => { return debug("pin_generation required") },
    };
    let claim_key = match &request.pin_claim_key {
        Some(k) => k,
        None => { return debug("pin_claim_key required") },
    };
    if request.wrapped_secret.is_none() {
        return debug("wrapped secret required");
    }
    let security_domain_secret = match unwrap_outcome {
        Some(Ok(sds)) => sds,
        Some(Err(e)) => { return Err(e) },
        None => { return debug("wrapped secret required") },
    };
    if pin_hash.len() != 32 {
        return debug("incorrect length PIN hash");
    }
    if claim_key.len() != 32 {
        return debug("incorrect length claim key");
    }
    let pin_data = PinData {
        pin_hash: slice_to_vec(pin_hash.as_slice()),
        generation,
        claim_key: slice_to_vec(claim_key.as_slice()),
    };
    let encoded = pin_data.to_bytes();
    Ok(crate::pin::encrypt_pin_data(encoded.as_slice(), security_domain_secret.as_slice()))
}

/// A record sealed by `seal_credential_record` is recovered intact by the
/// credential codec: handed back as the current-variant ciphertext of a
/// credential entity, it yields exactly the private-key document and
/// auxiliary secret that were sealed.
pub proof fn lemma_created_record_recovers(
    sds: Seq<u8>,
    blob: Seq<u8>,
    user_id: Option<Seq<u8>>,
    der: Seq<u8>,
    reserved: Seq<u8>,
)
    requires
        spec_open(spec_passkey_encryption_key(sds), blob, encrypted_field_aad()) == Some(
            spec_encrypted_record_encode(der, reserved),
        ),
        p256_pkcs8_valid(der),
        der.len() <= 0xFFFF_FFFF,
        reserved.len() <= 0xFFFF_FFFF,
    ensures
        spec_entity_secrets(
            sds,
            SpecStoredCredential {
                user_id,
                encrypted_data: Some(SpecCredentialCiphertext::Encrypted(blob)),
            },
        ) == Ok::<_, RequestError>((der, Some(reserved))),
{
    crate::proto::lemma_encrypted_record_round_trip(der, reserved);
}

} // verus!
