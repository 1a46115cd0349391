use passkey_enclave::aead::seal_aes_256_gcm;
use passkey_enclave::errors::RequestError;
use passkey_enclave::pin::{
    constant_time_compare, encrypt_pin_data, maybe_validate_pin_from_request, validate_pin, Dirty,
    PINState, StateHandle,
};
use passkey_enclave::pin_data::PinData;

const SECRET: [u8; 32] = [11u8; 32];
const CLAIM_KEY: [u8; 32] = [12u8; 32];
const PIN_HASH: [u8; 32] = [13u8; 32];

fn wrapped_pin(generation: i64) -> Vec<u8> {
    let pin_data = PinData {
        pin_hash: PIN_HASH.to_vec(),
        generation,
        claim_key: CLAIM_KEY.to_vec(),
    };
    encrypt_pin_data(&pin_data.to_bytes(), &SECRET)
}

fn claim_of(hash: &[u8]) -> Vec<u8> {
    seal_aes_256_gcm(&CLAIM_KEY, hash, b"PIN claim")
}

#[test]
fn fresh_device_correct_claim_writes_nothing() {
    let mut state = StateHandle::new(PINState { attempts: 0, generation_high_water: 0 });
    let result = validate_pin(&mut state, &SECRET, &claim_of(&PIN_HASH), &wrapped_pin(0));
    assert!(result.is_ok());
    assert_eq!(state.dirty(), Dirty::Clean);
    assert_eq!(state.read(), PINState { attempts: 0, generation_high_water: 0 });
}

#[test]
fn wrong_claims_count_up_then_lock() {
    let mut state = StateHandle::new(PINState { attempts: 0, generation_high_water: 0 });
    let wrapped = wrapped_pin(0);
    let wrong = claim_of(&[0xeeu8; 32]);

    assert_eq!(
        validate_pin(&mut state, &SECRET, &wrong, &wrapped).unwrap_err(),
        RequestError::IncorrectPIN
    );
    assert_eq!(state.read().attempts, 1);
    assert_eq!(state.dirty(), Dirty::Normal);

    assert_eq!(
        validate_pin(&mut state, &SECRET, &wrong, &wrapped).unwrap_err(),
        RequestError::IncorrectPIN
    );
    assert_eq!(state.read().attempts, 2);

    assert_eq!(
        validate_pin(&mut state, &SECRET, &wrong, &wrapped).unwrap_err(),
        RequestError::IncorrectPIN
    );
    assert_eq!(state.read().attempts, 3);

    // The fourth attempt is refused outright, whether the claim is correct
    // or not, before any decryption happens.
    assert_eq!(
        validate_pin(&mut state, &SECRET, &wrong, &wrapped).unwrap_err(),
        RequestError::PINLocked
    );
    assert_eq!(
        validate_pin(&mut state, &SECRET, &claim_of(&PIN_HASH), &wrapped).unwrap_err(),
        RequestError::PINLocked
    );
    assert_eq!(state.read().attempts, 3);
}

#[test]
fn stale_generation_is_rejected_without_consuming_an_attempt() {
    let mut state = StateHandle::new(PINState { attempts: 1, generation_high_water: 5 });
    let result = validate_pin(&mut state, &SECRET, &claim_of(&PIN_HASH), &wrapped_pin(3));
    assert_eq!(result.unwrap_err(), RequestError::PINOutdated);
    assert_eq!(state.read(), PINState { attempts: 1, generation_high_water: 5 });
    assert_eq!(state.dirty(), Dirty::Clean);
}

#[test]
fn success_after_failures_resets_attempts_as_minor_change() {
    let mut state = StateHandle::new(PINState { attempts: 2, generation_high_water: 0 });
    validate_pin(&mut state, &SECRET, &claim_of(&PIN_HASH), &wrapped_pin(0)).unwrap();
    assert_eq!(state.read(), PINState { attempts: 0, generation_high_water: 0 });
    assert_eq!(state.dirty(), Dirty::Minor);
}

#[test]
fn newer_generation_advances_high_water() {
    let mut state = StateHandle::new(PINState { attempts: 0, generation_high_water: 2 });
    validate_pin(&mut state, &SECRET, &claim_of(&PIN_HASH), &wrapped_pin(7)).unwrap();
    assert_eq!(state.read(), PINState { attempts: 0, generation_high_water: 7 });
    assert_eq!(state.dirty(), Dirty::Minor);
}

#[test]
fn garbled_pin_data_is_a_debug_error() {
    let mut state = StateHandle::new(PINState { attempts: 0, generation_high_water: 0 });
    let err = validate_pin(&mut state, &SECRET, &claim_of(&PIN_HASH), &[0u8; 5]).unwrap_err();
    assert_eq!(err, RequestError::Debug("PIN data decryption failed"));

    // A well-sealed blob whose plaintext is not a PIN record.
    let bogus = encrypt_pin_data(b"not a pin record", &SECRET);
    let err = validate_pin(&mut state, &SECRET, &claim_of(&PIN_HASH), &bogus).unwrap_err();
    assert_eq!(err, RequestError::Debug("invalid PIN data"));

    // A claim sealed under the wrong key fails to decrypt.
    let wrong_key_claim = seal_aes_256_gcm(&[0x55u8; 32], &PIN_HASH, b"PIN claim");
    let err = validate_pin(&mut state, &SECRET, &wrong_key_claim, &wrapped_pin(0)).unwrap_err();
    assert_eq!(err, RequestError::Debug("failed to decrypt PIN claim"));
    assert_eq!(state.dirty(), Dirty::Clean);
}

#[test]
fn maybe_validate_handles_absent_and_partial_claims() {
    let mut state = StateHandle::new(PINState { attempts: 0, generation_high_water: 0 });
    assert_eq!(
        maybe_validate_pin_from_request(&mut state, &SECRET, &None, &None).unwrap(),
        false
    );
    let err = maybe_validate_pin_from_request(&mut state, &SECRET, &None, &Some(wrapped_pin(0)))
        .unwrap_err();
    assert_eq!(err, RequestError::Debug("claimed PIN required"));
    assert_eq!(
        maybe_validate_pin_from_request(
            &mut state,
            &SECRET,
            &Some(claim_of(&PIN_HASH)),
            &Some(wrapped_pin(0)),
        )
        .unwrap(),
        true
    );
}

#[test]
fn test_constant_time_compare() {
    struct Test {
        a: &'static [u8],
        b: &'static [u8],
        expected: bool,
    }
    let tests: &[Test] = &[
        Test { a: b"", b: b"", expected: true },
        Test { a: b"a", b: b"", expected: false },
        Test { a: b"", b: b"b", expected: false },
        Test { a: b"a", b: b"b", expected: false },
        Test { a: b"a", b: b"a", expected: true },
        Test { a: b"abcde", b: b"abcde", expected: true },
        Test { a: b"abcdf", b: b"abcde", expected: false },
    ];

    for (i, test) in tests.iter().enumerate() {
        if constant_time_compare(test.a, test.b) != test.expected {
            panic!("failed at #{}", i)
        }
    }
}
