//! An enclave-resident request processor for a virtual WebAuthn/passkey
//! authenticator backed by a synced credential store.
//!
//! The processor offers three operations: creating a credential, producing an
//! assertion (a signature over relying-party data), and wrapping a PIN record.
//! All credential material is protected by an authenticated-encryption layer
//! whose keys are derived from a 32-byte security-domain secret, and PIN
//! verification enforces an attempt limit and generation monotonicity.

pub mod aead;
pub mod cbor;
pub mod config;
pub mod crypto;
pub mod errors;
pub mod groups;
pub mod handlers;
pub mod pin;
pub mod pin_data;
pub mod platforms;
pub mod proto;
pub mod requests;
pub mod validation;

pub use errors::RequestError;
