//! The typed request and response structures of the three operations, and
//! the caller's authentication.
//!
//! Inbound requests arrive over a self-describing binary encoding; the
//! surrounding runtime decodes them into these structures, with an absent or
//! mistyped field decoded as `None`, and the handlers classify every shape
//! error themselves.

use vstd::prelude::*;

verus! {

/// How strongly the caller authenticated.
#[derive(Clone, Copy, Debug, PartialEq, Eq, Structural)]
pub enum AuthLevel {
    /// Device-level authentication only.
    Device,
    /// The user verified themselves (for example with a local biometric).
    UserVerification,
}

/// Whether the caller completed a re-authentication.
#[derive(Clone, Copy, Debug, PartialEq, Eq, Structural)]
pub enum Reauth {
    NotDone,
    Done,
}

/// The caller's authentication: nothing, or a device identity with an
/// authentication level and a re-authentication state.
pub enum Authentication {
    Unauthenticated,
    Device(Vec<u8>, AuthLevel, Reauth),
}

/// The WebAuthn-level parameters of a create request: the requested
/// credential parameters, each reduced to its COSE algorithm identifier
/// (`None` where a parameter carries no readable algorithm).
pub struct CreateOptions {
    pub pub_key_cred_params: Option<Vec<Option<i64>>>,
}

/// The mathematical contents of `CreateOptions`.
pub struct SpecCreateOptions {
    pub pub_key_cred_params: Option<Seq<Option<i64>>>,
}

impl CreateOptions {
    pub open spec fn model(&self) -> SpecCreateOptions {
        SpecCreateOptions {
            pub_key_cred_params: match self.pub_key_cred_params {
                Some(v) => Some(v@),
                None => None,
            },
        }
    }
}

/// A request to create a credential.
pub struct CreateRequest {
    pub secret: Option<Vec<u8>>,
    pub wrapped_secret: Option<Vec<u8>>,
    pub request: Option<CreateOptions>,
    pub claimed_pin: Option<Vec<u8>>,
    pub wrapped_pin_data: Option<Vec<u8>>,
}

/// The mathematical contents of a `CreateRequest`.
pub struct SpecCreateRequest {
    pub secret: Option<Seq<u8>>,
    pub wrapped_secret: Option<Seq<u8>>,
    pub request: Option<SpecCreateOptions>,
    pub claimed_pin: Option<Seq<u8>>,
    pub wrapped_pin_data: Option<Seq<u8>>,
}

impl CreateRequest {
    pub open spec fn model(&self) -> SpecCreateRequest {
        SpecCreateRequest {
            secret: match self.secret {
                Some(v) => Some(v@),
                None => None,
            },
            wrapped_secret: match self.wrapped_secret {
                Some(v) => Some(v@),
                None => None,
            },
            request: match self.request {
                Some(o) => Some(o.model()),
                None => None,
            },
            claimed_pin: match self.claimed_pin {
                Some(v) => Some(v@),
                None => None,
            },
            wrapped_pin_data: match self.wrapped_pin_data {
                Some(v) => Some(v@),
                None => None,
            },
        }
    }
}

/// The response to a create request: the sealed credential record and the
/// new credential's public key.
#[derive(Debug)]
pub struct CreateResponse {
    pub encrypted: Vec<u8>,
    pub pub_key: Vec<u8>,
}

/// The WebAuthn-level parameters of an assert request.
pub struct AssertOptions {
    pub rp_id: Option<String>,
}

/// The mathematical contents of `AssertOptions`.
pub struct SpecAssertOptions {
    pub rp_id: Option<Seq<char>>,
}

impl AssertOptions {
    pub open spec fn model(&self) -> SpecAssertOptions {
        SpecAssertOptions {
            rp_id: match self.rp_id {
                Some(ref s) => Some(s@),
                None => None,
            },
        }
    }
}

/// A request to produce an assertion.
pub struct AssertRequest {
    pub protobuf: Option<Vec<u8>>,
    pub client_data_json: Option<String>,
    pub request: Option<AssertOptions>,
    pub secret: Option<Vec<u8>>,
    pub wrapped_secret: Option<Vec<u8>>,
    pub claimed_pin: Option<Vec<u8>>,
    pub wrapped_pin_data: Option<Vec<u8>>,
}

/// The mathematical contents of an `AssertRequest`.
pub struct SpecAssertRequest {
    pub protobuf: Option<Seq<u8>>,
    pub client_data_json: Option<Seq<char>>,
    pub request: Option<SpecAssertOptions>,
    pub secret: Option<Seq<u8>>,
    pub wrapped_secret: Option<Seq<u8>>,
    pub claimed_pin: Option<Seq<u8>>,
    pub wrapped_pin_data: Option<Seq<u8>>,
}

impl AssertRequest {
    pub open spec fn model(&self) -> SpecAssertRequest {
        SpecAssertRequest {
            protobuf: match self.protobuf {
                Some(v) => Some(v@),
                None => None,
            },
            client_data_json: match self.client_data_json {
                Some(ref s) => Some(s@),
                None => None,
            },
            request: match self.request {
                Some(o) => Some(o.model()),
                None => None,
            },
            secret: match self.secret {
                Some(v) => Some(v@),
                None => None,
            },
            wrapped_secret: match self.wrapped_secret {
                Some(v) => Some(v@),
                None => None,
            },
            claimed_pin: match self.claimed_pin {
                Some(v) => Some(v@),
                None => None,
            },
            wrapped_pin_data: match self.wrapped_pin_data {
                Some(v) => Some(v@),
                None => None,
            },
        }
    }
}

/// The response to an assert request.
#[derive(Debug)]
pub struct AssertResponse {
    pub client_data_json: String,
    pub authenticator_data: Vec<u8>,
    pub signature: Vec<u8>,
    pub user_handle: Vec<u8>,
}

/// The mathematical contents of an `AssertResponse`.
pub struct SpecAssertResponse {
    pub client_data_json: Seq<char>,
    pub authenticator_data: Seq<u8>,
    pub signature: Seq<u8>,
    pub user_handle: Seq<u8>,
}

impl AssertResponse {
    pub open spec fn model(&self) -> SpecAssertResponse {
        SpecAssertResponse {
            client_data_json: self.client_data_json@,
            authenticator_data: self.authenticator_data@,
            signature: self.signature@,
            user_handle: self.user_handle@,
        }
    }
}

/// A request to wrap a PIN record.
pub struct WrapPinRequest {
    pub pin_hash: Option<Vec<u8>>,
    pub pin_generation: Option<i64>,
    pub pin_claim_key: Option<Vec<u8>>,
    pub wrapped_secret: Option<Vec<u8>>,
}

/// The mathematical contents of a `WrapPinRequest`.
pub struct SpecWrapPinRequest {
    pub pin_hash: Option<Seq<u8>>,
    pub pin_generation: Option<i64>,
    pub pin_claim_key: Option<Seq<u8>>,
    pub wrapped_secret: Option<Seq<u8>>,
}

impl WrapPinRequest {
    pub open spec fn model(&self) -> SpecWrapPinRequest {
        SpecWrapPinRequest {
            pin_hash: match self.pin_hash {
                Some(v) => Some(v@),
                None => None,
            },
            pin_generation: self.pin_generation,
            pin_claim_key: match self.pin_claim_key {
                Some(v) => Some(v@),
                None => None,
            },
            wrapped_secret: match self.wrapped_secret {
                Some(v) => Some(v@),
                None => None,
            },
        }
    }
}

} // verus!
