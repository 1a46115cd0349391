use passkey_enclave::pin::{decrypt_pin_data, encrypt_pin_data};
use passkey_enclave::pin_data::PinData;

fn round_trip(pin_hash: [u8; 32], generation: i64, claim_key: [u8; 32]) {
    let pin_data = PinData {
        pin_hash: pin_hash.to_vec(),
        generation,
        claim_key: claim_key.to_vec(),
    };
    let decoded = PinData::from_bytes(&pin_data.to_bytes()).unwrap();
    assert_eq!(decoded.pin_hash, pin_data.pin_hash);
    assert_eq!(decoded.generation, generation);
    assert_eq!(decoded.claim_key, pin_data.claim_key);
}

#[test]
fn pin_data_round_trips_for_many_generations() {
    for generation in [
        0,
        1,
        23,
        24,
        255,
        256,
        65535,
        65536,
        0xFFFF_FFFF,
        0x1_0000_0000,
        i64::MAX,
        -1,
        -24,
        -25,
        -256,
        -257,
        -65537,
        -4_294_967_297,
        i64::MIN,
    ] {
        round_trip([1u8; 32], generation, [2u8; 32]);
    }
}

#[test]
fn pin_data_encodes_canonically() {
    let pin_data = PinData {
        pin_hash: [1u8; 32].to_vec(),
        generation: 42,
        claim_key: [2u8; 32].to_vec(),
    };
    let mut expected = vec![0xa3, 0x01, 0x58, 0x20];
    expected.extend_from_slice(&[1u8; 32]);
    expected.extend_from_slice(&[0x02, 0x18, 42]);
    expected.extend_from_slice(&[0x03, 0x58, 0x20]);
    expected.extend_from_slice(&[2u8; 32]);
    assert_eq!(pin_data.to_bytes(), expected);

    let negative = PinData {
        pin_hash: [1u8; 32].to_vec(),
        generation: -1,
        claim_key: [2u8; 32].to_vec(),
    };
    assert_eq!(negative.to_bytes()[36..38], [0x02, 0x20]);
}

#[test]
fn pin_data_rejects_malformed_records() {
    let good = PinData {
        pin_hash: [1u8; 32].to_vec(),
        generation: 7,
        claim_key: [2u8; 32].to_vec(),
    }
    .to_bytes();
    assert!(PinData::from_bytes(&good).is_some());
    assert!(PinData::from_bytes(b"").is_none());
    assert!(PinData::from_bytes(&good[..good.len() - 1]).is_none());
    let mut wrong_map = good.clone();
    wrong_map[0] = 0xa2;
    assert!(PinData::from_bytes(&wrong_map).is_none());
    let mut wrong_key = good.clone();
    wrong_key[1] = 0x04;
    assert!(PinData::from_bytes(&wrong_key).is_none());
    let mut wrong_len = good.clone();
    wrong_len[3] = 0x1f;
    assert!(PinData::from_bytes(&wrong_len).is_none());
    // A non-canonical generation encoding (0x18 0x07 instead of 0x07).
    let mut overlong = Vec::new();
    overlong.extend_from_slice(&good[..37]);
    overlong.extend_from_slice(&[0x18, 0x07]);
    overlong.extend_from_slice(&good[38..]);
    assert!(PinData::from_bytes(&overlong).is_none());
}

#[test]
fn test_pin_data() {
    let pin_data = PinData {
        pin_hash: [1u8; 32].to_vec(),
        generation: 42,
        claim_key: [2u8; 32].to_vec(),
    };
    let pin_data2 = PinData::from_bytes(&pin_data.to_bytes()).unwrap();
    assert_eq!(pin_data.pin_hash, pin_data2.pin_hash);
    assert_eq!(pin_data.generation, pin_data2.generation);
    assert_eq!(pin_data.claim_key, pin_data2.claim_key);

    let security_domain_secret = [3u8; 32];
    let encrypted = encrypt_pin_data(&pin_data.to_bytes(), &security_domain_secret);
    let decrypted =
        PinData::from_bytes(&decrypt_pin_data(&encrypted, &security_domain_secret).unwrap())
            .unwrap();
    assert_eq!(pin_data.pin_hash, decrypted.pin_hash);
    assert_eq!(pin_data.generation, decrypted.generation);
    assert_eq!(pin_data.claim_key, decrypted.claim_key);
}
