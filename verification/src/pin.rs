//! PIN verification: wrap/unwrap of the PIN record and the verification
//! algorithm enforcing the attempt limit and generation monotonicity.

use vstd::prelude::*;

use crate::aead::{
    open_aes_256_gcm, pin_claim_aad, pin_claim_aad_bytes, seal_aes_256_gcm,
    security_domain_secret_to_pin_data_key, spec_open, spec_pin_data_key, MAX_SEALED_LEN,
    NONCE_LEN, TAG_LEN,
};
use crate::errors::{debug, RequestError};
use crate::pin_data::{spec_pin_data_decode, spec_pin_data_encode, PinData};

verus! {

/// The number of incorrect PIN attempts before further PIN attempts are
/// denied.
pub const MAX_PIN_ATTEMPTS: i64 = 3;

/// Per-device durable anti-brute-force state.
#[derive(Clone, Copy, Debug, PartialEq, Eq, Structural)]
pub struct PINState {
    /// Consecutive incorrect attempts since the last success or PIN change.
    pub attempts: i64,
    /// The highest PIN generation this device has verified against.
    pub generation_high_water: i64,
}

/// How much a recorded change matters to the durable store: a `Minor` change
/// may be skipped under load, a `Normal` one may not.
#[derive(Clone, Copy, Debug, PartialEq, Eq, Structural)]
pub enum Significance {
    Minor,
    Normal,
}

/// What a state handle has accumulated: no change, only a minor change, or a
/// change that must be persisted.
#[derive(Clone, Copy, Debug, PartialEq, Eq, Structural)]
pub enum Dirty {
    Clean,
    Minor,
    Normal,
}

/// The dirtiness of a handle after one more write of a given significance.
pub open spec fn raised(d: Dirty, sig: Significance) -> Dirty {
    match sig {
        Significance::Normal => Dirty::Normal,
        Significance::Minor => if d is Normal {
            Dirty::Normal
        } else {
            Dirty::Minor
        },
    }
}

/// A transactional handle on one device's durable `PINState`.
///
/// The environment loads the state, hands the handle to a request, and
/// afterwards persists `read()` if `dirty()` says anything changed. A handle
/// records how significant the accumulated change is, so the environment may
/// skip flushing a `Minor` change under load.
pub struct StateHandle {
    state: PINState,
    dirty: Dirty,
}

impl StateHandle {
    /// The current (possibly unpersisted) state behind the handle.
    pub closed spec fn spec_state(&self) -> PINState {
        self.state
    }

    /// How much the state behind the handle has changed.
    pub closed spec fn spec_dirty(&self) -> Dirty {
        self.dirty
    }

    /// Wrap a freshly loaded state.
    pub fn new(state: PINState) -> (h: StateHandle)
        ensures
            h.spec_state() == state,
            h.spec_dirty() is Clean,
    {
        StateHandle { state, dirty: Dirty::Clean }
    }

    /// The current state.
    pub fn read(&self) -> (s: PINState)
        ensures
            s == self.spec_state(),
    {
        self.state
    }

    /// Replace the state, recording a change of the given significance.
    pub fn write(&mut self, state: PINState, sig: Significance)
        ensures
            final(self).spec_state() == state,
            final(self).spec_dirty() == raised(old(self).spec_dirty(), sig),
    {
        self.state = state;
        self.dirty = match sig {
            Significance::Normal => Dirty::Normal,
            Significance::Minor => match self.dirty {
                Dirty::Normal => Dirty::Normal,
                _ => Dirty::Minor,
            },
        };
    }

    /// How much the state has changed since the handle was created.
    pub fn dirty(&self) -> (d: Dirty)
        ensures
            d == self.spec_dirty(),
    {
        self.dirty
    }
}

/// Compares two secrets for equality in time that does not depend on where
/// they differ: after the (non-secret) length check, every byte pair is
/// folded into an accumulator with no data-dependent branch or early exit.
pub fn constant_time_compare(a: &[u8], b: &[u8]) -> (r: bool)
    ensures
        r <==> a@ == b@,
{
    if a.len() != b.len() {
        assert(a@.len() != b@.len());
        return false;
    }
    let n: usize = a.len();
    let mut diff: u8 = 0;
    let mut i: usize = 0;
    while i < n
        invariant
            n == a@.len() && n == b@.len(),
            0 <= i <= n,
            diff == 0 <==> (forall|j: int| 0 <= j < i ==> a@[j] == b@[j]),
        decreases n - i,
    {
        let ai = a[i];
        let bi = b[i];
        let ghost diff0 = diff;
        diff = diff | (ai ^ bi);
        assert((diff0 | (ai ^ bi)) == 0 <==> diff0 == 0 && ai == bi) by (bit_vector);
        i = i + 1;
    }
    if diff == 0 {
        assert(a@ =~= b@);
        true
    } else {
        assert(a@ != b@);
        false
    }
}

/// What opening a wrapped PIN record under a security-domain secret yields.
pub open spec fn spec_unwrapped_pin_data(sds: Seq<u8>, wrapped: Seq<u8>) -> Option<Seq<u8>> {
    spec_open(spec_pin_data_key(sds), wrapped, Seq::empty())
}

/// Decrypt the PIN data, i.e. the record stored as metadata in the PIN
/// virtual member of the security domain.
pub fn decrypt_pin_data(wrapped_pin_data: &[u8], security_domain_secret: &[u8]) -> (r: Result<
    Vec<u8>,
    RequestError,
>)
    ensures
        match r {
            Ok(pt) => spec_unwrapped_pin_data(security_domain_secret@, wrapped_pin_data@) == Some(
                pt@,
            ),
            Err(e) => {
                &&& spec_unwrapped_pin_data(security_domain_secret@, wrapped_pin_data@) is None
                &&& e == RequestError::Debug("PIN data decryption failed")
            },
        },
{
    let pin_data_key = security_domain_secret_to_pin_data_key(security_domain_secret);
    let empty: Vec<u8> = Vec::new();
    match open_aes_256_gcm(pin_data_key.as_slice(), wrapped_pin_data, empty.as_slice()) {
        Some(pt) => Ok(pt),
        None => Err(RequestError::Debug("PIN data decryption failed")),
    }
}

/// Seal an encoded PIN record under the PIN-data key derived from a
/// security-domain secret, with empty associated data.
pub fn encrypt_pin_data(serialized_pin_data: &[u8], security_domain_secret: &[u8]) -> (r: Vec<u8>)
    requires
        serialized_pin_data@.len() <= MAX_SEALED_LEN,
    ensures
        spec_unwrapped_pin_data(security_domain_secret@, r@) == Some(serialized_pin_data@),
        r@.len() == serialized_pin_data@.len() + NONCE_LEN + TAG_LEN,
{
    let pin_data_key = security_domain_secret_to_pin_data_key(security_domain_secret);
    let empty: Vec<u8> = Vec::new();
    seal_aes_256_gcm(pin_data_key.as_slice(), serialized_pin_data, empty.as_slice())
}

/// The complete outcome of one PIN validation: the result handed back, and
/// the state and dirtiness the handle is left with.
pub open spec fn spec_validate_pin(
    st0: PINState,
    d0: Dirty,
    sds: Seq<u8>,
    claim: Seq<u8>,
    wrapped: Seq<u8>,
) -> (Result<(), RequestError>, PINState, Dirty) {
    if st0.attempts >= MAX_PIN_ATTEMPTS {
        (Err(RequestError::PINLocked), st0, d0)
    } else {
        match spec_unwrapped_pin_data(sds, wrapped) {
            None => (Err(RequestError::Debug("PIN data decryption failed")), st0, d0),
            Some(pt) => match spec_pin_data_decode(pt) {
                None => (Err(RequestError::Debug("invalid PIN data")), st0, d0),
                Some((hash, generation, claim_key)) => if generation < st0.generation_high_water
                    as int {
                    (Err(RequestError::PINOutdated), st0, d0)
                } else {
                    match spec_open(claim_key, claim, pin_claim_aad()) {
                        None => (
                            Err(RequestError::Debug("failed to decrypt PIN claim")),
                            st0,
                            d0,
                        ),
                        Some(claimed_hash) => if claimed_hash != hash {
                            (
                                Err(RequestError::IncorrectPIN),
                                PINState {
                                    attempts: (st0.attempts + 1) as i64,
                                    generation_high_water: st0.generation_high_water,
                                },
                                raised(d0, Significance::Normal),
                            )
                        } else if st0.attempts > 0 || generation > st0.generation_high_water
                            as int {
                            (
                                Ok(()),
                                PINState {
                                    attempts: 0,
                                    generation_high_water: if generation
                                        > st0.generation_high_water as int {
                                        generation as i64
                                    } else {
                                        st0.generation_high_water
                                    },
                                },
                                raised(d0, Significance::Minor),
                            )
                        } else {
                            (Ok(()), st0, d0)
                        },
                    }
                },
            },
        }
    }
}

/// Validate a claimed PIN, returning an error if it is incorrect.
///
/// The attempt limit is enforced before anything is decrypted; a stale
/// generation is rejected without consuming an attempt; an incorrect claim
/// increments the attempt counter; and a correct claim writes the reset
/// state back only when something actually changes, so the common successful
/// path records no change at all.
pub fn validate_pin(
    state: &mut StateHandle,
    security_domain_secret: &[u8],
    claim: &[u8],
    wrapped_pin_data: &[u8],
) -> (r: Result<(), RequestError>)
    ensures
        ({
            let (res, st1, d1) = spec_validate_pin(
                old(state).spec_state(),
                old(state).spec_dirty(),
                security_domain_secret@,
                claim@,
                wrapped_pin_data@,
            );
            &&& r == res
            &&& final(state).spec_state() == st1
            &&& final(state).spec_dirty() == d1
        }),
{
    let st = state.read();
    if st.attempts >= MAX_PIN_ATTEMPTS {
        return Err(RequestError::PINLocked);
    }
    let pin_data_bytes = match decrypt_pin_data(wrapped_pin_data, security_domain_secret) {
        Ok(b) => b,
        Err(e) => { return Err(e) },
    };
    let pin_data = match PinData::from_bytes(pin_data_bytes.as_slice()) {
        Some(pd) => pd,
        None => { return debug("invalid PIN data") },
    };
    if pin_data.generation < st.generation_high_water {
        return Err(RequestError::PINOutdated);
    }
    let claimed_pin_hash = match open_aes_256_gcm(
        pin_data.claim_key.as_slice(),
        claim,
        pin_claim_aad_bytes(),
    ) {
        Some(c) => c,
        None => { return debug("failed to decrypt PIN claim") },
    };
    if !constant_time_compare(claimed_pin_hash.as_slice(), pin_data.pin_hash.as_slice()) {
        state.write(
            PINState { attempts: st.attempts + 1, generation_high_water: st.generation_high_water },
            Significance::Normal,
        );
        return Err(RequestError::IncorrectPIN);
    }
    // Availability/security tradeoff: after a correct claim the updated state
    // is recorded only as a minor change, and not at all when nothing
    // changed, so a degraded durable store never blocks verification.
    if st.attempts > 0 || pin_data.generation > st.generation_high_water {
        let new_high_water: i64 = if pin_data.generation > st.generation_high_water {
            pin_data.generation
        } else {
            st.generation_high_water
        };
        state.write(
            PINState { attempts: 0, generation_high_water: new_high_water },
            Significance::Minor,
        );
    }
    Ok(())
}

/// A wrapped PIN record whose claim matches verifies: on an unlocked device
/// whose high-water mark does not exceed the record's generation, validation
/// succeeds, leaves the attempt counter at zero, and raises the high-water
/// mark to the record's generation. Together with the wrap operation's
/// contract this says that a freshly wrapped PIN is usable.
pub proof fn lemma_correct_claim_verifies(
    st0: PINState,
    d0: Dirty,
    sds: Seq<u8>,
    claim: Seq<u8>,
    wrapped: Seq<u8>,
    hash: Seq<u8>,
    generation: int,
    claim_key: Seq<u8>,
)
    requires
        spec_unwrapped_pin_data(sds, wrapped) == Some(
            spec_pin_data_encode(hash, generation, claim_key),
        ),
        hash.len() == 32,
        claim_key.len() == 32,
        i64::MIN <= generation <= i64::MAX,
        spec_open(claim_key, claim, pin_claim_aad()) == Some(hash),
        0 <= st0.attempts < MAX_PIN_ATTEMPTS,
        st0.generation_high_water as int <= generation,
    ensures
        ({
            let (r, st1, d1) = spec_validate_pin(st0, d0, sds, claim, wrapped);
            &&& r is Ok
            &&& st1.attempts == 0
            &&& st1.generation_high_water as int == generation
        }),
{
    crate::pin_data::lemma_pin_data_round_trip(hash, generation, claim_key);
}

/// The per-device state degrades in one direction only: whatever a
/// validation does, the generation high-water mark never decreases, and a
/// non-negative attempt counter stays non-negative.
pub proof fn lemma_validate_pin_monotonic(
    st0: PINState,
    d0: Dirty,
    sds: Seq<u8>,
    claim: Seq<u8>,
    wrapped: Seq<u8>,
)
    ensures
        ({
            let (r, st1, d1) = spec_validate_pin(st0, d0, sds, claim, wrapped);
            &&& st1.generation_high_water >= st0.generation_high_water
            &&& st0.attempts >= 0 ==> st1.attempts >= 0
        }),
{
}

/// The outcome of `maybe_validate_pin_from_request`: no PIN claim present
/// means no PIN was asserted; a wrapped record without a claimed PIN is an
/// error; otherwise the validation runs.
pub open spec fn spec_maybe_validate_pin(
    st0: PINState,
    d0: Dirty,
    sds: Seq<u8>,
    claimed_pin: Option<Seq<u8>>,
    wrapped: Option<Seq<u8>>,
) -> (Result<bool, RequestError>, PINState, Dirty) {
    match wrapped {
        None => (Ok(false), st0, d0),
        Some(w) => match claimed_pin {
            None => (Err(RequestError::Debug("claimed PIN required")), st0, d0),
            Some(c) => {
                let (res, st1, d1) = spec_validate_pin(st0, d0, sds, c, w);
                (
                    match res {
                        Ok(_) => Ok(true),
                        Err(e) => Err(e),
                    },
                    st1,
                    d1,
                )
            },
        },
    }
}

/// Attempt to verify a claimed PIN from a request. Returns true if the PIN
/// verified correctly, false if there was no PIN claim, and an error if the
/// PIN claim was invalid for any reason.
pub fn maybe_validate_pin_from_request(
    state: &mut StateHandle,
    security_domain_secret: &[u8],
    claimed_pin: &Option<Vec<u8>>,
    wrapped_pin_data: &Option<Vec<u8>>,
) -> (r: Result<bool, RequestError>)
    ensures
        ({
            let (res, st1, d1) = spec_maybe_validate_pin(
                old(state).spec_state(),
                old(state).spec_dirty(),
                security_domain_secret@,
                match *claimed_pin {
                    Some(ref c) => Some(c@),
                    None => None,
                },
                match *wrapped_pin_data {
                    Some(ref w) => Some(w@),
                    None => None,
                },
            );
            &&& r == res
            &&& final(state).spec_state() == st1
            &&& final(state).spec_dirty() == d1
        }),
{
    match wrapped_pin_data {
        None => Ok(false),
        Some(wrapped) => match claimed_pin {
            None => debug("claimed PIN required"),
            Some(claim) => match validate_pin(
                state,
                security_domain_secret,
                claim.as_slice(),
                wrapped.as_slice(),
            ) {
                Ok(()) => Ok(true),
                Err(e) => Err(e),
            },
        },
    }
}

} // verus!
