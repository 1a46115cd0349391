//! Trusted wrappers around the cryptographic primitives.
//!
//! Everything in this module is a boundary to an outside cryptography crate:
//! the bodies are not verified, only their contracts are assumed. Each
//! deterministic primitive gets an uninterpreted name for its result, so that
//! verified callers can state exact relationships (such as "sealing then
//! opening returns the plaintext") without writing the algorithms down.

use vstd::prelude::*;

use aes_gcm::aead::{Aead, KeyInit, Payload};
use aes_gcm::{Aes256Gcm, Key, Nonce};
use p256::ecdsa::signature::Signer;
use p256::ecdsa::{Signature, SigningKey};
use p256::pkcs8::{DecodePrivateKey, EncodePrivateKey};
use rand_core::RngCore;
use sha2::{Digest, Sha256};

verus! {

/// The SHA-256 digest of a byte sequence.
pub uninterp spec fn sha256_of(data: Seq<u8>) -> Seq<u8>;

/// The 32-byte HKDF-SHA256 output for an input secret and an info string,
/// with no salt.
pub uninterp spec fn hkdf_sha256_of(ikm: Seq<u8>, info: Seq<u8>) -> Seq<u8>;

/// What AES-256-GCM decryption returns for a key, nonce, associated data and
/// ciphertext-with-tag: the plaintext when the tag authenticates, and nothing
/// otherwise.
pub uninterp spec fn gcm_open_of(key: Seq<u8>, nonce: Seq<u8>, aad: Seq<u8>, ct: Seq<u8>) -> Option<
    Seq<u8>,
>;

/// Whether a DER document parses as a PKCS#8 ECDSA P-256 private key.
pub uninterp spec fn p256_pkcs8_valid(der: Seq<u8>) -> bool;

/// The ASN.1 DER ECDSA P-256/SHA-256 signature over a message by the key in a
/// PKCS#8 document (deterministic, per RFC 6979), or nothing where signing
/// fails.
pub uninterp spec fn p256_signature_of(der: Seq<u8>, msg: Seq<u8>) -> Option<Seq<u8>>;

/// The X9.62 uncompressed public key of the key in a PKCS#8 document, or
/// nothing where the document does not parse.
pub uninterp spec fn p256_public_key_of(der: Seq<u8>) -> Option<Seq<u8>>;

/// Relies on sha2::Sha256: the digest is 32 bytes and depends on the input
/// bytes alone.
#[verifier::external_body]
pub(crate) fn sha256(data: &[u8]) -> (r: Vec<u8>)
    ensures
        r@ == sha256_of(data@),
        r@.len() == 32,
{
    Sha256::digest(data).to_vec()
}

/// Relies on hkdf::Hkdf::<Sha256>::expand: the output depends on the input
/// keying material and info string alone. Expansion to 32 bytes is always in
/// range for HKDF-SHA256, so the call cannot fail.
#[verifier::external_body]
pub(crate) fn hkdf_sha256_32(ikm: &[u8], info: &[u8]) -> (r: Vec<u8>)
    ensures
        r@ == hkdf_sha256_of(ikm@, info@),
        r@.len() == 32,
{
    let hk = hkdf::Hkdf::<Sha256>::new(None, ikm);
    let mut okm = [0u8; 32];
    hk.expand(info, &mut okm).unwrap();
    okm.to_vec()
}

/// Relies on aes_gcm::Aes256Gcm encryption: the result is the ciphertext with
/// the 16-byte tag appended, and decrypting it with the same key, nonce and
/// associated data yields the plaintext back. The length bounds keep the
/// message and associated data far below the AES-GCM maxima, so encryption
/// cannot fail.
#[verifier::external_body]
pub(crate) fn aes_256_gcm_seal_detached(
    key: &[u8],
    nonce: &[u8],
    aad: &[u8],
    plaintext: &[u8],
) -> (r: Vec<u8>)
    requires
        key@.len() == 32,
        nonce@.len() == 12,
        plaintext@.len() <= 0xFFFF_FFFF,
        aad@.len() <= 0xFFFF_FFFF,
    ensures
        r@.len() == plaintext@.len() + 16,
        gcm_open_of(key@, nonce@, aad@, r@) == Some(plaintext@),
{
    let cipher = Aes256Gcm::new(Key::<Aes256Gcm>::from_slice(key));
    cipher.encrypt(Nonce::from_slice(nonce), Payload { msg: plaintext, aad }).unwrap()
}

/// Relies on aes_gcm::Aes256Gcm decryption: it authenticates the tag and
/// returns the plaintext, or fails; which of the two happens depends on the
/// arguments alone.
#[verifier::external_body]
pub(crate) fn aes_256_gcm_open_detached(
    key: &[u8],
    nonce: &[u8],
    aad: &[u8],
    ciphertext: &[u8],
) -> (r: Option<Vec<u8>>)
    requires
        key@.len() == 32,
        nonce@.len() == 12,
    ensures
        match r {
            Some(pt) => gcm_open_of(key@, nonce@, aad@, ciphertext@) == Some(pt@),
            None => gcm_open_of(key@, nonce@, aad@, ciphertext@) is None,
        },
{
    let cipher = Aes256Gcm::new(Key::<Aes256Gcm>::from_slice(key));
    cipher.decrypt(Nonce::from_slice(nonce), Payload { msg: ciphertext, aad }).ok()
}

/// Relies on rand_core::OsRng::fill_bytes: operating-system randomness.
/// Nothing is assumed of the bytes beyond their number.
#[verifier::external_body]
pub(crate) fn random_bytes(n: usize) -> (r: Vec<u8>)
    ensures
        r@.len() == n,
{
    let mut buf = vec![0u8; n];
    rand_core::OsRng.fill_bytes(&mut buf);
    buf
}

/// Relies on p256::ecdsa::SigningKey::random and its PKCS#8 encoding: a fresh
/// random P-256 key, serialized as a PKCS#8 DER document. Nothing is assumed
/// of the bytes; key generation or encoding failure yields nothing.
#[verifier::external_body]
pub(crate) fn p256_generate_pkcs8() -> (r: Option<Vec<u8>>) {
    let key = SigningKey::random(&mut rand_core::OsRng);
    key.to_pkcs8_der().ok().map(|doc| doc.as_bytes().to_vec())
}

/// Relies on p256::ecdsa::SigningKey::from_pkcs8_der: whether a DER document
/// parses as a P-256 private key depends on the bytes alone.
#[verifier::external_body]
pub(crate) fn p256_check_pkcs8(der: &[u8]) -> (r: bool)
    ensures
        r == p256_pkcs8_valid(der@),
{
    SigningKey::from_pkcs8_der(der).is_ok()
}

/// Relies on p256::ecdsa::SigningKey::from_pkcs8_der and try_sign: ECDSA
/// signing here is deterministic (RFC 6979 nonces), so the DER signature is a
/// function of the key document and the message. A document that does not
/// parse signs nothing.
#[verifier::external_body]
pub(crate) fn p256_sign(der: &[u8], msg: &[u8]) -> (r: Option<Vec<u8>>)
    ensures
        match r {
            Some(sig) => p256_signature_of(der@, msg@) == Some(sig@),
            None => p256_signature_of(der@, msg@) is None,
        },
        !p256_pkcs8_valid(der@) ==> r is None,
{
    let key = SigningKey::from_pkcs8_der(der).ok()?;
    let sig: Signature = key.try_sign(msg).ok()?;
    Some(sig.to_der().as_bytes().to_vec())
}

/// Relies on p256::ecdsa::SigningKey::from_pkcs8_der, VerifyingKey and
/// EncodedPoint: the X9.62 uncompressed public key (65 bytes for P-256) of
/// the private key in a document that parses.
#[verifier::external_body]
pub(crate) fn p256_public_key(der: &[u8]) -> (r: Option<Vec<u8>>)
    ensures
        r is Some <==> p256_pkcs8_valid(der@),
        match r {
            Some(pk) => p256_public_key_of(der@) == Some(pk@) && pk@.len() == 65,
            None => p256_public_key_of(der@) is None,
        },
{
    let key = SigningKey::from_pkcs8_der(der).ok()?;
    Some(key.verifying_key().to_encoded_point(false).as_bytes().to_vec())
}

} // verus!
