//! The authenticated-encryption layer: purpose-scoped key derivation and
//! AEAD seal/open with category-specific associated data.
//!
//! Every wrapped blob in the system has the wire shape
//! `nonce(12) ‖ ciphertext ‖ tag(16)`. Distinct ciphertext categories use
//! distinct associated-data strings so a blob sealed in one context can never
//! be opened in another.

use vstd::prelude::*;
use vstd::slice::slice_subrange;
use vstd::string::StringSliceAdditionalSpecFns;

use crate::crypto;
use crate::crypto::{gcm_open_of, hkdf_sha256_of};
use crate::errors::RequestError;

verus! {

/// Length of the random nonce prepended to every sealed blob.
pub const NONCE_LEN: usize = 12;

/// Length of the authentication tag appended to every ciphertext.
pub const TAG_LEN: usize = 16;

/// Upper bound accepted for plaintexts and associated data, far below the
/// AES-GCM limits.
pub const MAX_SEALED_LEN: usize = 0xFFFF_FFFF;

/// Associated data of the legacy bare private-key ciphertext: empty.
pub open spec fn private_key_field_aad() -> Seq<u8> {
    Seq::empty()
}

/// Associated data of the full-record credential ciphertext: the bytes of
/// "WebauthnCredentialSpecifics.Encrypted".
pub open spec fn encrypted_field_aad() -> Seq<u8> {
    seq![
        0x57u8, 0x65u8, 0x62u8, 0x61u8, 0x75u8, 0x74u8, 0x68u8, 0x6eu8, 0x43u8, 0x72u8, 0x65u8,
        0x64u8, 0x65u8, 0x6eu8, 0x74u8, 0x69u8, 0x61u8, 0x6cu8, 0x53u8, 0x70u8, 0x65u8, 0x63u8,
        0x69u8, 0x66u8, 0x69u8, 0x63u8, 0x73u8, 0x2eu8, 0x45u8, 0x6eu8, 0x63u8, 0x72u8, 0x79u8,
        0x70u8, 0x74u8, 0x65u8, 0x64u8,
    ]
}

/// Associated data of a PIN-claim ciphertext.
pub open spec fn pin_claim_aad() -> Seq<u8> {
    "PIN claim".spec_bytes()
}

/// HKDF info string of the key wrapping credential-record ciphertexts.
pub open spec fn passkey_key_purpose() -> Seq<u8> {
    "KeychainApplicationKey:gmscore_module:com.google.android.gms.fido".spec_bytes()
}

/// HKDF info string of the key wrapping PIN-data ciphertexts.
pub open spec fn pin_data_key_purpose() -> Seq<u8> {
    "KeychainApplicationKey:chrome:GPM PIN data wrapping key".spec_bytes()
}

/// The key that wraps credential-record ciphertexts, derived from a
/// security-domain secret.
pub open spec fn spec_passkey_encryption_key(secret: Seq<u8>) -> Seq<u8> {
    hkdf_sha256_of(secret, passkey_key_purpose())
}

/// The key that wraps PIN-data ciphertexts, derived from a security-domain
/// secret.
pub open spec fn spec_pin_data_key(secret: Seq<u8>) -> Seq<u8> {
    hkdf_sha256_of(secret, pin_data_key_purpose())
}

/// What opening a `nonce ‖ ciphertext ‖ tag` blob yields: nothing when the
/// blob is shorter than a nonce, else whatever AES-256-GCM decryption yields
/// for the split parts.
pub open spec fn spec_open(key: Seq<u8>, data: Seq<u8>, aad: Seq<u8>) -> Option<Seq<u8>> {
    if data.len() < NONCE_LEN {
        None
    } else {
        gcm_open_of(
            key,
            data.subrange(0, NONCE_LEN as int),
            aad,
            data.subrange(NONCE_LEN as int, data.len() as int),
        )
    }
}

/// The empty associated-data string.
pub fn empty_aad() -> (r: &'static [u8])
    ensures
        r@ =~= Seq::<u8>::empty(),
{
    proof {
        reveal_strlit("");
    }
    "".as_bytes()
}

/// The associated data of the full-record credential ciphertext, as bytes.
pub fn encrypted_field_aad_bytes() -> (r: Vec<u8>)
    ensures
        r@ == encrypted_field_aad(),
{
    let mut v: Vec<u8> = Vec::new();
    v.push(0x57);
    v.push(0x65);
    v.push(0x62);
    v.push(0x61);
    v.push(0x75);
    v.push(0x74);
    v.push(0x68);
    v.push(0x6e);
    v.push(0x43);
    v.push(0x72);
    v.push(0x65);
    v.push(0x64);
    v.push(0x65);
    v.push(0x6e);
    v.push(0x74);
    v.push(0x69);
    v.push(0x61);
    v.push(0x6c);
    v.push(0x53);
    v.push(0x70);
    v.push(0x65);
    v.push(0x63);
    v.push(0x69);
    v.push(0x66);
    v.push(0x69);
    v.push(0x63);
    v.push(0x73);
    v.push(0x2e);
    v.push(0x45);
    v.push(0x6e);
    v.push(0x63);
    v.push(0x72);
    v.push(0x79);
    v.push(0x70);
    v.push(0x74);
    v.push(0x65);
    v.push(0x64);
    assert(v@ =~= encrypted_field_aad());
    v
}

/// The associated data of a PIN-claim ciphertext, as bytes.
pub fn pin_claim_aad_bytes() -> (r: &'static [u8])
    ensures
        r@ == pin_claim_aad(),
{
    "PIN claim".as_bytes()
}

/// Derive the key used for encrypting entity secrets from the security
/// domain secret.
pub fn security_domain_secret_to_encryption_key(security_domain_secret: &[u8]) -> (r: Vec<u8>)
    ensures
        r@ == spec_passkey_encryption_key(security_domain_secret@),
        r@.len() == 32,
{
    crypto::hkdf_sha256_32(
        security_domain_secret,
        "KeychainApplicationKey:gmscore_module:com.google.android.gms.fido".as_bytes(),
    )
}

/// Derive the key used for wrapping PIN data from the security domain
/// secret.
pub fn security_domain_secret_to_pin_data_key(security_domain_secret: &[u8]) -> (r: Vec<u8>)
    ensures
        r@ == spec_pin_data_key(security_domain_secret@),
        r@.len() == 32,
{
    crypto::hkdf_sha256_32(
        security_domain_secret,
        "KeychainApplicationKey:chrome:GPM PIN data wrapping key".as_bytes(),
    )
}

/// Seal a plaintext under a key: generate a fresh random nonce, encrypt with
/// the given associated data, and prepend the nonce. Opening the result with
/// the same key and associated data yields the plaintext back.
pub fn seal_aes_256_gcm(key: &[u8], plaintext: &[u8], aad: &[u8]) -> (r: Vec<u8>)
    requires
        key@.len() == 32,
        plaintext@.len() <= MAX_SEALED_LEN,
        aad@.len() <= MAX_SEALED_LEN,
    ensures
        r@.len() == plaintext@.len() + NONCE_LEN + TAG_LEN,
        spec_open(key@, r@, aad@) == Some(plaintext@),
{
    let mut out = crypto::random_bytes(NONCE_LEN);
    let ghost nonce = out@;
    let ciphertext = crypto::aes_256_gcm_seal_detached(key, out.as_slice(), aad, plaintext);
    out.extend_from_slice(ciphertext.as_slice());
    proof {
        assert(out@.subrange(0, NONCE_LEN as int) =~= nonce);
        assert(out@.subrange(NONCE_LEN as int, out@.len() as int) =~= ciphertext@);
    }
    out
}

/// Open a `nonce ‖ ciphertext ‖ tag` blob. Fails on inputs shorter than a
/// nonce and on any authentication failure, never returning partial
/// plaintext.
pub fn open_aes_256_gcm(key: &[u8], nonce_and_ciphertext: &[u8], aad: &[u8]) -> (r: Option<Vec<u8>>)
    requires
        key@.len() == 32,
    ensures
        match r {
            Some(pt) => spec_open(key@, nonce_and_ciphertext@, aad@) == Some(pt@),
            None => spec_open(key@, nonce_and_ciphertext@, aad@) is None,
        },
{
    if nonce_and_ciphertext.len() < NONCE_LEN {
        return None;
    }
    let nonce = slice_subrange(nonce_and_ciphertext, 0, NONCE_LEN);
    let ciphertext = slice_subrange(nonce_and_ciphertext, NONCE_LEN, nonce_and_ciphertext.len());
    crypto::aes_256_gcm_open_detached(key, nonce, aad, ciphertext)
}

/// Encrypt an entity secret using a security domain secret.
pub fn encrypt(security_domain_secret: &[u8], plaintext: &Vec<u8>, aad: &[u8]) -> (r: Result<
    Vec<u8>,
    RequestError,
>)
    requires
        plaintext@.len() <= MAX_SEALED_LEN,
        aad@.len() <= MAX_SEALED_LEN,
    ensures
        r matches Ok(sealed) ==> {
            &&& spec_open(
                spec_passkey_encryption_key(security_domain_secret@),
                sealed@,
                aad@,
            ) == Some(plaintext@)
            &&& sealed@.len() == plaintext@.len() + NONCE_LEN + TAG_LEN
        },
        r is Ok,
{
    let key = security_domain_secret_to_encryption_key(security_domain_secret);
    Ok(seal_aes_256_gcm(key.as_slice(), plaintext.as_slice(), aad))
}

/// Decrypt an entity secret using a security domain secret.
///
/// Different entity secrets have different associated-data values so that
/// ciphertexts are interpreted only in their correct context.
pub fn decrypt(ciphertext: &[u8], security_domain_secret: &[u8], aad: &[u8]) -> (r: Result<
    Vec<u8>,
    RequestError,
>)
    ensures
        match r {
            Ok(pt) => spec_open(
                spec_passkey_encryption_key(security_domain_secret@),
                ciphertext@,
                aad@,
            ) == Some(pt@),
            Err(e) => {
                &&& spec_open(
                    spec_passkey_encryption_key(security_domain_secret@),
                    ciphertext@,
                    aad@,
                ) is None
                &&& e == RequestError::Debug("decryption failed")
            },
        },
{
    let key = security_domain_secret_to_encryption_key(security_domain_secret);
    match open_aes_256_gcm(key.as_slice(), ciphertext, aad) {
        Some(pt) => Ok(pt),
        None => Err(RequestError::Debug("decryption failed")),
    }
}

/// Any blob assembled as `seal_aes_256_gcm` assembles one — a 12-byte nonce
/// followed by a ciphertext that authenticates under a key, associated data
/// and that nonce — opens under that key and associated data to the sealed
/// plaintext.
pub proof fn lemma_open_recovers_sealed(
    key: Seq<u8>,
    nonce: Seq<u8>,
    ciphertext: Seq<u8>,
    plaintext: Seq<u8>,
    aad: Seq<u8>,
)
    requires
        nonce.len() == NONCE_LEN,
        gcm_open_of(key, nonce, aad, ciphertext) == Some(plaintext),
    ensures
        spec_open(key, nonce + ciphertext, aad) == Some(plaintext),
{
    assert((nonce + ciphertext).subrange(0, NONCE_LEN as int) =~= nonce);
    assert((nonce + ciphertext).subrange(NONCE_LEN as int, (nonce + ciphertext).len() as int)
        =~= ciphertext);
}

} // verus!
