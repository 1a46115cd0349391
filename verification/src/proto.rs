//! A minimal protobuf wire-format codec for the credential records.
//!
//! The encrypted credential record and the outer credential entity are
//! protobuf-style messages: a sequence of fields, each a varint key
//! `(field number << 3) | wire type` followed by a varint value, a
//! length-delimited payload, or a fixed-width value. This module implements
//! exactly the subset those records need: varints, length-delimited fields,
//! and skipping of unknown fields.

use vstd::prelude::*;
use vstd::slice::{slice_subrange, slice_to_vec};

verus! {

/// Longest accepted varint: ten bytes cover every `u64`.
pub const MAX_VARINT_LEN: usize = 10;

/// The base-128 little-endian varint encoding of a value: seven value bits
/// per byte, high bit set on every byte but the last.
pub open spec fn spec_varint(v: u64) -> Seq<u8>
    decreases v,
{
    if v < 0x80 {
        seq![v as u8]
    } else {
        seq![(v % 0x80 + 0x80) as u8] + spec_varint((v / 0x80) as u64)
    }
}

/// What decoding a varint at the front of `data` yields: the value and the
/// number of bytes consumed. At most `max` bytes are read, and only the
/// shortest encoding of a value is accepted.
pub open spec fn spec_varint_decode_bounded(data: Seq<u8>, max: nat) -> Option<(u64, int)>
    decreases max,
{
    if data.len() == 0 || max == 0 {
        None
    } else if data[0] < 0x80 {
        Some((data[0] as u64, 1))
    } else {
        match spec_varint_decode_bounded(data.skip(1), (max - 1) as nat) {
            Some((v, n)) => if v != 0 && v <= 0x01FF_FFFF_FFFF_FFFF {
                Some(((v * 0x80 + ((data[0] & 0x7f) as u64)) as u64, n + 1))
            } else {
                None
            },
            None => None,
        }
    }
}

/// Varint decoding with the ten-byte limit that covers every `u64`.
pub open spec fn spec_varint_decode(data: Seq<u8>) -> Option<(u64, int)> {
    spec_varint_decode_bounded(data, MAX_VARINT_LEN as nat)
}

/// The varint encoding of a value is at most ten bytes.
pub proof fn lemma_varint_len(v: u64)
    ensures
        1 <= spec_varint(v).len() <= MAX_VARINT_LEN,
        v < 0x80 ==> spec_varint(v).len() == 1,
    decreases v,
{
    assert((0xFFFF_FFFF_FFFF_FFFFu64 >> (7 * 0u64)) == 0xFFFF_FFFF_FFFF_FFFFu64) by (bit_vector);
    lemma_varint_len_from(v, 0);
}

/// Helper: a value that fits in the top `64 - 7 * depth` bits encodes in at
/// most `10 - depth` bytes.
proof fn lemma_varint_len_from(v: u64, depth: u64)
    requires
        depth <= 9,
        v <= (0xFFFF_FFFF_FFFF_FFFFu64 >> (7 * depth)),
    ensures
        spec_varint(v).len() + depth <= MAX_VARINT_LEN,
    decreases 10 - depth,
{
    if v >= 0x80 {
        assert(depth < 9) by {
            if depth == 9 {
                assert((0xFFFF_FFFF_FFFF_FFFFu64 >> 63) == 1) by (bit_vector);
            }
        }
        let v1 = (v / 0x80) as u64;
        let d1 = (depth + 1) as u64;
        assert(v1 <= (0xFFFF_FFFF_FFFF_FFFFu64 >> (7 * d1))) by (bit_vector)
            requires
                v1 == (v / 0x80) as u64,
                v <= (0xFFFF_FFFF_FFFF_FFFFu64 >> (7 * depth)),
                depth <= 8,
                d1 == depth + 1,
        ;
        lemma_varint_len_from(v1, d1);
    }
}

/// The varint encoding of a value, followed by anything, decodes back to the
/// value, consuming exactly the encoding.
pub proof fn lemma_varint_round_trip(v: u64, rest: Seq<u8>)
    ensures
        spec_varint_decode(spec_varint(v) + rest) == Some((v, spec_varint(v).len() as int)),
{
    lemma_varint_len(v);
    lemma_varint_round_trip_bounded(v, rest, MAX_VARINT_LEN as nat);
}

proof fn lemma_varint_round_trip_bounded(v: u64, rest: Seq<u8>, max: nat)
    requires
        spec_varint(v).len() <= max,
    ensures
        spec_varint_decode_bounded(spec_varint(v) + rest, max) == Some(
            (v, spec_varint(v).len() as int),
        ),
    decreases v,
{
    let enc = spec_varint(v);
    let data = enc + rest;
    if v < 0x80 {
        assert(data[0] == v as u8);
    } else {
        let low = (v % 0x80 + 0x80) as u8;
        let v1 = (v / 0x80) as u64;
        assert(data[0] == low && low >= 0x80);
        assert(data.skip(1) =~= spec_varint(v1) + rest);
        lemma_varint_len(v1);
        lemma_varint_round_trip_bounded(v1, rest, (max - 1) as nat);
        assert(v1 != 0);
        assert(v1 <= 0x01FF_FFFF_FFFF_FFFF);
        assert((low & 0x7f) as u64 == (v % 0x80)) by (bit_vector)
            requires
                low == (v % 0x80 + 0x80) as u8,
        ;
        assert(v1 * 0x80 + (v % 0x80) == v) by (nonlinear_arith)
            requires
                v1 == v / 0x80,
        ;
    }
}

/// Append the varint encoding of a value.
pub fn varint_encode(value: u64, out: &mut Vec<u8>)
    requires
        old(out)@.len() + MAX_VARINT_LEN <= usize::MAX,
    ensures
        final(out)@ == old(out)@ + spec_varint(value),
{
    let mut v: u64 = value;
    proof {
        lemma_varint_len(value);
    }
    while v >= 0x80
        invariant
            out@.len() <= old(out)@.len() + MAX_VARINT_LEN,
            out@ + spec_varint(v) =~= old(out)@ + spec_varint(value),
            spec_varint(v).len() + (out@.len() - old(out)@.len()) == spec_varint(value).len(),
        decreases v,
    {
        let ghost v0 = v;
        out.push(((v % 0x80) as u8) + 0x80);
        v = v / 0x80;
        proof {
            lemma_varint_len(value);
            lemma_varint_len(v);
            assert(spec_varint(v0) =~= seq![(v0 % 0x80 + 0x80) as u8] + spec_varint(v));
            assert(out@ + spec_varint(v) =~= old(out)@ + spec_varint(value));
        }
    }
    out.push(v as u8);
    assert(spec_varint(v) =~= seq![v as u8]);
    assert(out@ =~= old(out)@ + spec_varint(value));
}

/// Decode a varint at position `pos` of `data`, reading at most `max` more
/// bytes, yielding the value and the position just past it.
pub fn varint_decode_bounded(data: &[u8], pos: usize, max: usize) -> (r: Option<(u64, usize)>)
    requires
        pos <= data@.len(),
    ensures
        match r {
            Some((v, end)) => {
                &&& spec_varint_decode_bounded(data@.skip(pos as int), max as nat) == Some(
                    (v, end - pos),
                )
                &&& pos < end <= data@.len()
            },
            None => spec_varint_decode_bounded(data@.skip(pos as int), max as nat) is None,
        },
    decreases max,
{
    let ghost tail = data@.skip(pos as int);
    assert(forall|i: int| 0 <= i < tail.len() ==> tail[i] == data@[pos + i]);
    if pos >= data.len() || max == 0 {
        return None;
    }
    let b0 = data[pos];
    if b0 < 0x80 {
        return Some((b0 as u64, pos + 1));
    }
    assert(tail.skip(1) =~= data@.skip(pos + 1));
    match varint_decode_bounded(data, pos + 1, max - 1) {
        None => None,
        Some((v, end)) => {
            if v != 0 && v <= 0x01FF_FFFF_FFFF_FFFF {
                assert((b0 & 0x7f) < 0x80) by (bit_vector);
                Some((v * 0x80 + ((b0 & 0x7f) as u64), end))
            } else {
                None
            }
        },
    }
}

/// Decode a varint at position `pos` of `data`.
pub fn varint_decode(data: &[u8], pos: usize) -> (r: Option<(u64, usize)>)
    requires
        pos <= data@.len(),
    ensures
        match r {
            Some((v, end)) => {
                &&& spec_varint_decode(data@.skip(pos as int)) == Some((v, end - pos))
                &&& pos < end <= data@.len()
            },
            None => spec_varint_decode(data@.skip(pos as int)) is None,
        },
{
    varint_decode_bounded(data, pos, MAX_VARINT_LEN)
}

/// The decrypted contents of a current-variant credential record: a private
/// key and optional auxiliary secrets. The last three fields belong to
/// capabilities that are decoded but not otherwise used.
pub struct EncryptedRecord {
    pub private_key: Option<Vec<u8>>,
    pub hmac_secret: Option<Vec<u8>>,
    pub cred_blob: Option<Vec<u8>>,
    pub large_blob: Option<Vec<u8>>,
    pub large_blob_uncompressed_size: Option<u64>,
}

/// The mathematical contents of an `EncryptedRecord`.
pub struct SpecEncryptedRecord {
    pub private_key: Option<Seq<u8>>,
    pub hmac_secret: Option<Seq<u8>>,
    pub cred_blob: Option<Seq<u8>>,
    pub large_blob: Option<Seq<u8>>,
    pub large_blob_uncompressed_size: Option<u64>,
}

impl EncryptedRecord {
    pub open spec fn model(&self) -> SpecEncryptedRecord {
        SpecEncryptedRecord {
            private_key: match self.private_key {
                Some(v) => Some(v@),
                None => None,
            },
            hmac_secret: match self.hmac_secret {
                Some(v) => Some(v@),
                None => None,
            },
            cred_blob: match self.cred_blob {
                Some(v) => Some(v@),
                None => None,
            },
            large_blob: match self.large_blob {
                Some(v) => Some(v@),
                None => None,
            },
            large_blob_uncompressed_size: self.large_blob_uncompressed_size,
        }
    }
}

/// A record with no field present.
pub open spec fn spec_empty_encrypted_record() -> SpecEncryptedRecord {
    SpecEncryptedRecord {
        private_key: None,
        hmac_secret: None,
        cred_blob: None,
        large_blob: None,
        large_blob_uncompressed_size: None,
    }
}

/// A record after one length-delimited field: fields one to four hold byte
/// strings; anything else is skipped.
pub open spec fn spec_record_set_bytes(
    acc: SpecEncryptedRecord,
    field: u64,
    payload: Seq<u8>,
) -> SpecEncryptedRecord {
    if field == 1 {
        SpecEncryptedRecord { private_key: Some(payload), ..acc }
    } else if field == 2 {
        SpecEncryptedRecord { hmac_secret: Some(payload), ..acc }
    } else if field == 3 {
        SpecEncryptedRecord { cred_blob: Some(payload), ..acc }
    } else if field == 4 {
        SpecEncryptedRecord { large_blob: Some(payload), ..acc }
    } else {
        acc
    }
}

/// What decoding an encrypted credential record yields, walking the fields
/// front to back over an accumulator. Later occurrences of a field replace
/// earlier ones; unknown fields are skipped by their wire type; group wire
/// types and truncated input are errors.
pub open spec fn spec_encrypted_record_decode_from(
    data: Seq<u8>,
    acc: SpecEncryptedRecord,
) -> Option<SpecEncryptedRecord>
    decreases data.len(),
{
    if data.len() == 0 {
        Some(acc)
    } else {
        match spec_varint_decode(data) {
            None => None,
            Some((key, n)) => if !(1 <= n <= data.len()) {
                None
            } else {
                let field = key >> 3;
                let wire = key & 7;
                let rest = data.skip(n);
                if wire == 2 {
                    match spec_varint_decode(rest) {
                        None => None,
                        Some((len, m)) => if !(1 <= m <= rest.len()) {
                            None
                        } else if rest.len() - m < len {
                            None
                        } else {
                            spec_encrypted_record_decode_from(
                                rest.skip(m + len as int),
                                spec_record_set_bytes(acc, field, rest.subrange(m, m + len as int)),
                            )
                        },
                    }
                } else if wire == 0 {
                    match spec_varint_decode(rest) {
                        None => None,
                        Some((val, m)) => if !(1 <= m <= rest.len()) {
                            None
                        } else {
                            spec_encrypted_record_decode_from(
                                rest.skip(m),
                                if field == 5 {
                                    SpecEncryptedRecord {
                                        large_blob_uncompressed_size: Some(val),
                                        ..acc
                                    }
                                } else {
                                    acc
                                },
                            )
                        },
                    }
                } else if wire == 1 {
                    if rest.len() >= 8 {
                        spec_encrypted_record_decode_from(rest.skip(8), acc)
                    } else {
                        None
                    }
                } else if wire == 5 {
                    if rest.len() >= 4 {
                        spec_encrypted_record_decode_from(rest.skip(4), acc)
                    } else {
                        None
                    }
                } else {
                    None
                }
            },
        }
    }
}

/// What decoding an encrypted credential record yields.
pub open spec fn spec_encrypted_record_decode(data: Seq<u8>) -> Option<SpecEncryptedRecord> {
    spec_encrypted_record_decode_from(data, spec_empty_encrypted_record())
}

/// The wire encoding of the record a freshly created credential stores: a
/// private key (field one) and an auxiliary secret (field two).
pub open spec fn spec_encrypted_record_encode(private_key: Seq<u8>, hmac_secret: Seq<u8>) -> Seq<
    u8,
>
    recommends
        private_key.len() <= 0xFFFF_FFFF,
        hmac_secret.len() <= 0xFFFF_FFFF,
{
    seq![0x0au8] + spec_varint(private_key.len() as u64) + private_key + seq![0x12u8]
        + spec_varint(hmac_secret.len() as u64) + hmac_secret
}

/// Parse an encrypted credential record.
pub fn decode_encrypted_record(data: &[u8]) -> (r: Option<EncryptedRecord>)
    ensures
        match r {
            Some(rec) => spec_encrypted_record_decode(data@) == Some(rec.model()),
            None => spec_encrypted_record_decode(data@) is None,
        },
{
    let ghost goal = spec_encrypted_record_decode(data@);
    let mut acc = EncryptedRecord {
        private_key: None,
        hmac_secret: None,
        cred_blob: None,
        large_blob: None,
        large_blob_uncompressed_size: None,
    };
    let mut pos: usize = 0;
    assert(data@.skip(0) =~= data@);
    while pos < data.len()
        invariant
            pos <= data@.len(),
            goal == spec_encrypted_record_decode_from(data@.skip(pos as int), acc.model()),
            goal == spec_encrypted_record_decode(data@),
        decreases data@.len() - pos,
    {
        let ghost pos0 = pos as int;
        let ghost acc0 = acc.model();
        let (key, end) = match varint_decode(data, pos) {
            Some(kn) => kn,
            None => { return None },
        };
        let field: u64 = key >> 3;
        let wire: u64 = key & 7;
        proof {
            assert(data@.skip(pos0).skip(end - pos0) =~= data@.skip(end as int));
        }
        if wire == 2 {
            let (len, end2) = match varint_decode(data, end) {
                Some(lm) => lm,
                None => { return None },
            };
            proof {
                assert(data@.skip(end as int).skip(end2 - end) =~= data@.skip(end2 as int));
            }
            if ((data.len() - end2) as u64) < len {
                return None;
            }
            let len_us: usize = len as usize;
            let payload = slice_to_vec(slice_subrange(data, end2, end2 + len_us));
            assert(payload@ =~= data@.skip(end as int).subrange(
                end2 - end,
                end2 - end + len as int,
            ));
            if field == 1 {
                acc.private_key = Some(payload);
            } else if field == 2 {
                acc.hmac_secret = Some(payload);
            } else if field == 3 {
                acc.cred_blob = Some(payload);
            } else if field == 4 {
                acc.large_blob = Some(payload);
            }
            pos = end2 + len_us;
            proof {
                assert(data@.skip(end as int).skip(end2 - end + len as int) =~= data@.skip(
                    pos as int,
                ));
                assert(acc.model() == spec_record_set_bytes(
                    acc0,
                    field,
                    data@.skip(end as int).subrange(end2 - end, end2 - end + len as int),
                ));
            }
        } else if wire == 0 {
            let (val, end2) = match varint_decode(data, end) {
                Some(vm) => vm,
                None => { return None },
            };
            if field == 5 {
                acc.large_blob_uncompressed_size = Some(val);
            }
            pos = end2;
            proof {
                assert(data@.skip(end as int).skip(end2 - end) =~= data@.skip(pos as int));
            }
        } else if wire == 1 {
            if data.len() - end < 8 {
                return None;
            }
            pos = end + 8;
            proof {
                assert(data@.skip(end as int).skip(8) =~= data@.skip(pos as int));
            }
        } else if wire == 5 {
            if data.len() - end < 4 {
                return None;
            }
            pos = end + 4;
            proof {
                assert(data@.skip(end as int).skip(4) =~= data@.skip(pos as int));
            }
        } else {
            return None;
        }
    }
    assert(data@.skip(pos as int) =~= Seq::<u8>::empty());
    Some(acc)
}

/// The two on-the-wire generations of an encrypted credential: a legacy bare
/// private-key ciphertext, or a ciphertext holding a full encrypted record.
pub enum CredentialCiphertext {
    PrivateKey(Vec<u8>),
    Encrypted(Vec<u8>),
}

/// The mathematical contents of a `CredentialCiphertext`.
pub enum SpecCredentialCiphertext {
    PrivateKey(Seq<u8>),
    Encrypted(Seq<u8>),
}

/// The fields of the synced credential entity that the processor reads: the
/// user id, and one of the two encrypted-data variants.
pub struct StoredCredential {
    pub user_id: Option<Vec<u8>>,
    pub encrypted_data: Option<CredentialCiphertext>,
}

/// The mathematical contents of a `StoredCredential`.
pub struct SpecStoredCredential {
    pub user_id: Option<Seq<u8>>,
    pub encrypted_data: Option<SpecCredentialCiphertext>,
}

impl StoredCredential {
    pub open spec fn model(&self) -> SpecStoredCredential {
        SpecStoredCredential {
            user_id: match self.user_id {
                Some(v) => Some(v@),
                None => None,
            },
            encrypted_data: match self.encrypted_data {
                Some(CredentialCiphertext::PrivateKey(v)) => Some(
                    SpecCredentialCiphertext::PrivateKey(v@),
                ),
                Some(CredentialCiphertext::Encrypted(v)) => Some(
                    SpecCredentialCiphertext::Encrypted(v@),
                ),
                None => None,
            },
        }
    }
}

/// A credential entity after one length-delimited field: the user id and the
/// two encrypted-data variants are kept (a later variant replaces an earlier
/// one, as for any repeated scalar); everything else is skipped.
pub open spec fn spec_credential_set_bytes(
    acc: SpecStoredCredential,
    field: u64,
    payload: Seq<u8>,
) -> SpecStoredCredential {
    if field == 4 {
        SpecStoredCredential { user_id: Some(payload), ..acc }
    } else if field == 9 {
        SpecStoredCredential {
            encrypted_data: Some(SpecCredentialCiphertext::PrivateKey(payload)),
            ..acc
        }
    } else if field == 10 {
        SpecStoredCredential {
            encrypted_data: Some(SpecCredentialCiphertext::Encrypted(payload)),
            ..acc
        }
    } else {
        acc
    }
}

/// What decoding a synced credential entity yields, walking the fields front
/// to back as for the encrypted record.
pub open spec fn spec_stored_credential_decode_from(
    data: Seq<u8>,
    acc: SpecStoredCredential,
) -> Option<SpecStoredCredential>
    decreases data.len(),
{
    if data.len() == 0 {
        Some(acc)
    } else {
        match spec_varint_decode(data) {
            None => None,
            Some((key, n)) => if !(1 <= n <= data.len()) {
                None
            } else {
                let field = key >> 3;
                let wire = key & 7;
                let rest = data.skip(n);
                if wire == 2 {
                    match spec_varint_decode(rest) {
                        None => None,
                        Some((len, m)) => if !(1 <= m <= rest.len()) {
                            None
                        } else if rest.len() - m < len {
                            None
                        } else {
                            spec_stored_credential_decode_from(
                                rest.skip(m + len as int),
                                spec_credential_set_bytes(
                                    acc,
                                    field,
                                    rest.subrange(m, m + len as int),
                                ),
                            )
                        },
                    }
                } else if wire == 0 {
                    match spec_varint_decode(rest) {
                        None => None,
                        Some((_val, m)) => if !(1 <= m <= rest.len()) {
                            None
                        } else {
                            spec_stored_credential_decode_from(rest.skip(m), acc)
                        },
                    }
                } else if wire == 1 {
                    if rest.len() >= 8 {
                        spec_stored_credential_decode_from(rest.skip(8), acc)
                    } else {
                        None
                    }
                } else if wire == 5 {
                    if rest.len() >= 4 {
                        spec_stored_credential_decode_from(rest.skip(4), acc)
                    } else {
                        None
                    }
                } else {
                    None
                }
            },
        }
    }
}

/// What decoding a synced credential entity yields.
pub open spec fn spec_stored_credential_decode(data: Seq<u8>) -> Option<SpecStoredCredential> {
    spec_stored_credential_decode_from(
        data,
        SpecStoredCredential { user_id: None, encrypted_data: None },
    )
}

/// Parse a synced credential entity.
pub fn decode_stored_credential(data: &[u8]) -> (r: Option<StoredCredential>)
    ensures
        match r {
            Some(cred) => spec_stored_credential_decode(data@) == Some(cred.model()),
            None => spec_stored_credential_decode(data@) is None,
        },
{
    let ghost goal = spec_stored_credential_decode(data@);
    let mut acc = StoredCredential { user_id: None, encrypted_data: None };
    let mut pos: usize = 0;
    assert(data@.skip(0) =~= data@);
    while pos < data.len()
        invariant
            pos <= data@.len(),
            goal == spec_stored_credential_decode_from(data@.skip(pos as int), acc.model()),
            goal == spec_stored_credential_decode(data@),
        decreases data@.len() - pos,
    {
        let ghost acc0 = acc.model();
        let (key, end) = match varint_decode(data, pos) {
            Some(kn) => kn,
            None => { return None },
        };
        let field: u64 = key >> 3;
        let wire: u64 = key & 7;
        proof {
            assert(data@.skip(pos as int).skip(end - pos) =~= data@.skip(end as int));
        }
        if wire == 2 {
            let (len, end2) = match varint_decode(data, end) {
                Some(lm) => lm,
                None => { return None },
            };
            proof {
                assert(data@.skip(end as int).skip(end2 - end) =~= data@.skip(end2 as int));
            }
            if ((data.len() - end2) as u64) < len {
                return None;
            }
            let len_us: usize = len as usize;
            let payload = slice_to_vec(slice_subrange(data, end2, end2 + len_us));
            assert(payload@ =~= data@.skip(end as int).subrange(
                end2 - end,
                end2 - end + len as int,
            ));
            if field == 4 {
                acc.user_id = Some(payload);
            } else if field == 9 {
                acc.encrypted_data = Some(CredentialCiphertext::PrivateKey(payload));
            } else if field == 10 {
                acc.encrypted_data = Some(CredentialCiphertext::Encrypted(payload));
            }
            pos = end2 + len_us;
            proof {
                assert(data@.skip(end as int).skip(end2 - end + len as int) =~= data@.skip(
                    pos as int,
                ));
                assert(acc.model() == spec_credential_set_bytes(
                    acc0,
                    field,
                    data@.skip(end as int).subrange(end2 - end, end2 - end + len as int),
                ));
            }
        } else if wire == 0 {
            let (_val, end2) = match varint_decode(data, end) {
                Some(vm) => vm,
                None => { return None },
            };
            pos = end2;
            proof {
                assert(data@.skip(end as int).skip(end2 - end) =~= data@.skip(pos as int));
            }
        } else if wire == 1 {
            if data.len() - end < 8 {
                return None;
            }
            pos = end + 8;
            proof {
                assert(data@.skip(end as int).skip(8) =~= data@.skip(pos as int));
            }
        } else if wire == 5 {
            if data.len() - end < 4 {
                return None;
            }
            pos = end + 4;
            proof {
                assert(data@.skip(end as int).skip(4) =~= data@.skip(pos as int));
            }
        } else {
            return None;
        }
    }
    assert(data@.skip(pos as int) =~= Seq::<u8>::empty());
    Some(acc)
}

/// Serialize the record a freshly created credential stores.
pub fn encode_encrypted_record(private_key: &[u8], hmac_secret: &[u8]) -> (r: Vec<u8>)
    requires
        private_key@.len() <= 0xFFFF_FFFF,
        hmac_secret@.len() <= 0xFFFF_FFFF,
        private_key@.len() + hmac_secret@.len() + 32 <= usize::MAX,
    ensures
        r@ == spec_encrypted_record_encode(private_key@, hmac_secret@),
{
    proof {
        lemma_varint_len(private_key@.len() as u64);
        lemma_varint_len(hmac_secret@.len() as u64);
    }
    let mut out: Vec<u8> = Vec::new();
    out.push(0x0a);
    varint_encode(private_key.len() as u64, &mut out);
    out.extend_from_slice(private_key);
    out.push(0x12);
    varint_encode(hmac_secret.len() as u64, &mut out);
    out.extend_from_slice(hmac_secret);
    assert(out@ =~= spec_encrypted_record_encode(private_key@, hmac_secret@));
    out
}

/// Serializing a fresh credential record and decoding the result yields
/// exactly a record with those two fields present.
pub proof fn lemma_encrypted_record_round_trip(private_key: Seq<u8>, hmac_secret: Seq<u8>)
    requires
        private_key.len() <= 0xFFFF_FFFF,
        hmac_secret.len() <= 0xFFFF_FFFF,
    ensures
        spec_encrypted_record_decode(spec_encrypted_record_encode(private_key, hmac_secret))
            == Some(
            SpecEncryptedRecord {
                private_key: Some(private_key),
                hmac_secret: Some(hmac_secret),
                cred_blob: None,
                large_blob: None,
                large_blob_uncompressed_size: None,
            },
        ),
{
    let pk_len = spec_varint(private_key.len() as u64);
    let hs_len = spec_varint(hmac_secret.len() as u64);
    let data = spec_encrypted_record_encode(private_key, hmac_secret);
    let field2 = seq![0x12u8] + hs_len + hmac_secret;
    let acc0 = spec_empty_encrypted_record();
    lemma_varint_len(private_key.len() as u64);
    lemma_varint_len(hmac_secret.len() as u64);
    assert(data[0] == 0x0a);
    assert(spec_varint_decode(data) == Some((0x0au64, 1int)));
    assert((0x0au64 >> 3) == 1 && (0x0au64 & 7) == 2) by (bit_vector);
    let rest = data.skip(1);
    assert(rest =~= pk_len + (private_key + field2));
    lemma_varint_round_trip(private_key.len() as u64, private_key + field2);
    let m = pk_len.len() as int;
    assert(spec_varint_decode(rest) == Some((private_key.len() as u64, m)));
    assert(rest.subrange(m, m + private_key.len() as int) =~= private_key);
    let tail = rest.skip(m + private_key.len() as int);
    assert(tail =~= field2);
    let acc1 = spec_record_set_bytes(acc0, 1, rest.subrange(m, m + private_key.len() as int));
    assert(spec_encrypted_record_decode_from(data, acc0) == spec_encrypted_record_decode_from(
        tail,
        acc1,
    ));
    assert(tail[0] == 0x12);
    assert(spec_varint_decode(tail) == Some((0x12u64, 1int)));
    assert((0x12u64 >> 3) == 2 && (0x12u64 & 7) == 2) by (bit_vector);
    let rest2 = tail.skip(1);
    assert(rest2 =~= hs_len + hmac_secret);
    lemma_varint_round_trip(hmac_secret.len() as u64, hmac_secret);
    let m2 = hs_len.len() as int;
    assert(spec_varint_decode(rest2) == Some((hmac_secret.len() as u64, m2)));
    assert(rest2.subrange(m2, m2 + hmac_secret.len() as int) =~= hmac_secret);
    let tail2 = rest2.skip(m2 + hmac_secret.len() as int);
    assert(tail2 =~= Seq::<u8>::empty());
    let acc2 = spec_record_set_bytes(acc1, 2, rest2.subrange(m2, m2 + hmac_secret.len() as int));
    assert(spec_encrypted_record_decode_from(tail, acc1) == spec_encrypted_record_decode_from(
        tail2,
        acc2,
    ));
    assert(tail2.len() == 0);
    assert(spec_encrypted_record_decode_from(tail2, acc2) == Some(acc2));
    assert(acc2 == SpecEncryptedRecord {
        private_key: Some(private_key),
        hmac_secret: Some(hmac_secret),
        cred_blob: None,
        large_blob: None,
        large_blob_uncompressed_size: None,
    });
}

} // verus!
