//! The PIN record: a verifiable representation of a user's PIN, and its
//! fixed three-field wire format.
//!
//! The record encodes as a CBOR map of exactly three integer-keyed entries:
//! `1` maps to the 32-byte PIN hash, `2` to the signed generation counter and
//! `3` to the 32-byte claim key. Decoding accepts exactly the canonical
//! encoding; any missing field, wrong type or wrong byte length is a parse
//! failure.

use vstd::prelude::*;
use vstd::slice::{slice_subrange, slice_to_vec};

use crate::cbor::{
    cbor_int_decode, cbor_uint_encode, spec_cbor_int, spec_cbor_int_decode,
    lemma_cbor_int_round_trip,
};

verus! {

/// A representation of the PIN data after unwrapping with the security
/// domain secret.
pub struct PinData {
    /// The hash of the PIN. This code deals only in hashes, so the choice of
    /// hash algorithm does not matter here as long as the output is 256 bits.
    pub pin_hash: Vec<u8>,
    /// The generation number. Starts at zero and is incremented for each PIN
    /// change.
    pub generation: i64,
    /// An AES-256-GCM key used to encrypt claimed PIN hashes.
    pub claim_key: Vec<u8>,
}

impl PinData {
    /// Both fixed-size fields have their required length.
    pub open spec fn wf(&self) -> bool {
        self.pin_hash@.len() == 32 && self.claim_key@.len() == 32
    }
}

/// The wire encoding of a PIN record: a canonical CBOR map
/// `{1: hash, 2: generation, 3: claim key}`.
pub open spec fn spec_pin_data_encode(hash: Seq<u8>, generation: int, key: Seq<u8>) -> Seq<u8>
    recommends
        hash.len() == 32,
        key.len() == 32,
        i64::MIN <= generation <= i64::MAX,
{
    seq![0xa3u8, 0x01u8, 0x58u8, 0x20u8] + hash + seq![0x02u8] + spec_cbor_int(generation)
        + seq![0x03u8, 0x58u8, 0x20u8] + key
}

/// What decoding a PIN record yields: the three fields, where the bytes are
/// exactly a canonically encoded three-entry map with keys 1, 2, 3, 32-byte
/// strings for the hash and claim key, and an `i64`-ranged generation.
pub open spec fn spec_pin_data_decode(data: Seq<u8>) -> Option<(Seq<u8>, int, Seq<u8>)> {
    if data.len() < 37 {
        None
    } else if !(data[0] == 0xa3 && data[1] == 0x01 && data[2] == 0x58 && data[3] == 0x20
        && data[36] == 0x02) {
        None
    } else {
        match spec_cbor_int_decode(data.skip(37)) {
            Some((generation, n)) => {
                if data.len() == 72 + n && data[37 + n] == 0x03 && data[38 + n] == 0x58 && data[39
                    + n] == 0x20 {
                    Some((data.subrange(4, 36), generation, data.subrange(40 + n, 72 + n)))
                } else {
                    None
                }
            },
            None => None,
        }
    }
}

impl PinData {
    /// Encode this record in its canonical wire format.
    pub fn to_bytes(&self) -> (r: Vec<u8>)
        requires
            self.wf(),
        ensures
            r@ == spec_pin_data_encode(self.pin_hash@, self.generation as int, self.claim_key@),
    {
        let mut out: Vec<u8> = Vec::new();
        out.push(0xa3);
        out.push(0x01);
        out.push(0x58);
        out.push(0x20);
        out.extend_from_slice(self.pin_hash.as_slice());
        out.push(0x02);
        if self.generation >= 0 {
            cbor_uint_encode(0, self.generation as u64, &mut out);
        } else {
            let m: i64 = -1 - self.generation;
            assert(m as u64 == (-1 - self.generation as int) as u64);
            cbor_uint_encode(1, m as u64, &mut out);
        }
        out.push(0x03);
        out.push(0x58);
        out.push(0x20);
        out.extend_from_slice(self.claim_key.as_slice());
        assert(out@ =~= spec_pin_data_encode(
            self.pin_hash@,
            self.generation as int,
            self.claim_key@,
        ));
        out
    }

    /// Parse a record from its wire format. Returns nothing on any deviation
    /// from the canonical three-field shape.
    pub fn from_bytes(data: &[u8]) -> (r: Option<PinData>)
        ensures
            match r {
                Some(pd) => {
                    &&& spec_pin_data_decode(data@) == Some(
                        (pd.pin_hash@, pd.generation as int, pd.claim_key@),
                    )
                    &&& pd.wf()
                },
                None => spec_pin_data_decode(data@) is None,
            },
    {
        if data.len() < 37 {
            return None;
        }
        if !(data[0] == 0xa3 && data[1] == 0x01 && data[2] == 0x58 && data[3] == 0x20 && data[36]
            == 0x02) {
            return None;
        }
        match cbor_int_decode(data, 37) {
            None => None,
            Some((generation, end)) => {
                let n: usize = end - 37;
                if data.len() >= 72 && data.len() - 72 == n && data[37 + n] == 0x03 && data[38 + n]
                    == 0x58 && data[39 + n] == 0x20 {
                    let pin_hash = slice_to_vec(slice_subrange(data, 4, 36));
                    let claim_key = slice_to_vec(slice_subrange(data, 40 + n, 72 + n));
                    Some(PinData { pin_hash, generation, claim_key })
                } else {
                    None
                }
            },
        }
    }
}

/// Encoding a PIN record and decoding the result yields an equal record, for
/// every pair of 32-byte fields and every `i64` generation, negative ones
/// included.
pub proof fn lemma_pin_data_round_trip(hash: Seq<u8>, generation: int, key: Seq<u8>)
    requires
        hash.len() == 32,
        key.len() == 32,
        i64::MIN <= generation <= i64::MAX,
    ensures
        spec_pin_data_decode(spec_pin_data_encode(hash, generation, key)) == Some(
            (hash, generation, key),
        ),
{
    let ienc = spec_cbor_int(generation);
    let n = ienc.len() as int;
    let trailer = seq![0x03u8, 0x58u8, 0x20u8] + key;
    let enc = spec_pin_data_encode(hash, generation, key);
    assert(enc.len() == 72 + n);
    assert(enc[0] == 0xa3 && enc[1] == 0x01 && enc[2] == 0x58 && enc[3] == 0x20 && enc[36]
        == 0x02);
    assert(enc.skip(37) =~= ienc + trailer);
    lemma_cbor_int_round_trip(generation, trailer);
    assert(spec_cbor_int_decode(enc.skip(37)) == Some((generation, n)));
    assert(enc[37 + n] == 0x03 && enc[38 + n] == 0x58 && enc[39 + n] == 0x20);
    assert(enc.subrange(4, 36) =~= hash);
    assert(enc.subrange(40 + n, 72 + n) =~= key);
}

} // verus!
