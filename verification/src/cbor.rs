//! A minimal, canonical CBOR integer codec.
//!
//! The PIN record format needs exactly the canonical (minimal-length)
//! encodings of unsigned and signed integers, with big-endian length
//! arguments. Decoding accepts only the canonical form, so every encodable
//! value round-trips to itself.

use vstd::prelude::*;

verus! {

/// The canonical CBOR head for a major type and an unsigned argument:
/// the shortest of the five argument widths that holds the value.
pub open spec fn spec_cbor_uint(major: u8, v: u64) -> Seq<u8>
    recommends
        major < 8,
{
    let mb = (major << 5) as u8;
    if v < 24 {
        seq![(mb | (v as u8)) as u8]
    } else if v < 0x100 {
        seq![(mb | 24) as u8, v as u8]
    } else if v < 0x10000 {
        seq![(mb | 25) as u8, (v >> 8) as u8, v as u8]
    } else if v < 0x1_0000_0000 {
        seq![(mb | 26) as u8, (v >> 24) as u8, (v >> 16) as u8, (v >> 8) as u8, v as u8]
    } else {
        seq![
            (mb | 27) as u8,
            (v >> 56) as u8,
            (v >> 48) as u8,
            (v >> 40) as u8,
            (v >> 32) as u8,
            (v >> 24) as u8,
            (v >> 16) as u8,
            (v >> 8) as u8,
            v as u8,
        ]
    }
}

/// What decoding a CBOR head at the front of `data` yields: the major type,
/// the argument value and the number of bytes consumed. Only canonical
/// (minimal-length) encodings are accepted.
pub open spec fn spec_cbor_uint_decode(data: Seq<u8>) -> Option<(u8, u64, int)> {
    if data.len() < 1 {
        None
    } else {
        let major = (data[0] >> 5) as u8;
        let ai = (data[0] & 0x1f) as u8;
        if ai < 24 {
            Some((major, ai as u64, 1))
        } else if ai == 24 {
            if data.len() >= 2 && data[1] >= 24 {
                Some((major, data[1] as u64, 2))
            } else {
                None
            }
        } else if ai == 25 {
            if data.len() >= 3 {
                let v = (((data[1] as u64) << 8) | (data[2] as u64)) as u64;
                if v >= 0x100 {
                    Some((major, v, 3))
                } else {
                    None
                }
            } else {
                None
            }
        } else if ai == 26 {
            if data.len() >= 5 {
                let v = ((((data[1] as u64) << 24) | ((data[2] as u64) << 16) | ((data[3] as u64)
                    << 8) | (data[4] as u64)) as u64);
                if v >= 0x10000 {
                    Some((major, v, 5))
                } else {
                    None
                }
            } else {
                None
            }
        } else if ai == 27 {
            if data.len() >= 9 {
                let v = ((((data[1] as u64) << 56) | ((data[2] as u64) << 48) | ((data[3] as u64)
                    << 40) | ((data[4] as u64) << 32) | ((data[5] as u64) << 24) | ((data[6] as u64)
                    << 16) | ((data[7] as u64) << 8) | (data[8] as u64)) as u64);
                if v >= 0x1_0000_0000 {
                    Some((major, v, 9))
                } else {
                    None
                }
            } else {
                None
            }
        } else {
            None
        }
    }
}

/// The canonical CBOR encoding of a signed integer: major type 0 for
/// non-negative values, major type 1 (argument `-1 - v`) for negative ones.
pub open spec fn spec_cbor_int(v: int) -> Seq<u8>
    recommends
        i64::MIN <= v <= i64::MAX,
{
    if v >= 0 {
        spec_cbor_uint(0, v as u64)
    } else {
        spec_cbor_uint(1, (-1 - v) as u64)
    }
}

/// What decoding a signed integer at the front of `data` yields: the value
/// and the number of bytes consumed. Arguments beyond the `i64` range are
/// rejected.
pub open spec fn spec_cbor_int_decode(data: Seq<u8>) -> Option<(int, int)> {
    match spec_cbor_uint_decode(data) {
        Some((major, v, n)) => if major == 0 && v <= i64::MAX {
            Some((v as int, n))
        } else if major == 1 && v <= i64::MAX {
            Some((-1 - v as int, n))
        } else {
            None
        },
        None => None,
    }
}

/// Append the canonical CBOR head for a major type and argument.
pub fn cbor_uint_encode(major: u8, v: u64, out: &mut Vec<u8>)
    requires
        major < 8,
        old(out)@.len() + 9 <= usize::MAX,
    ensures
        final(out)@ == old(out)@ + spec_cbor_uint(major, v),
{
    let mb: u8 = major << 5;
    if v < 24 {
        out.push(mb | (v as u8));
    } else if v < 0x100 {
        out.push(mb | 24);
        out.push(v as u8);
    } else if v < 0x10000 {
        out.push(mb | 25);
        out.push((v >> 8) as u8);
        out.push(v as u8);
    } else if v < 0x1_0000_0000 {
        out.push(mb | 26);
        out.push((v >> 24) as u8);
        out.push((v >> 16) as u8);
        out.push((v >> 8) as u8);
        out.push(v as u8);
    } else {
        out.push(mb | 27);
        out.push((v >> 56) as u8);
        out.push((v >> 48) as u8);
        out.push((v >> 40) as u8);
        out.push((v >> 32) as u8);
        out.push((v >> 24) as u8);
        out.push((v >> 16) as u8);
        out.push((v >> 8) as u8);
        out.push(v as u8);
    }
    assert(out@ =~= old(out)@ + spec_cbor_uint(major, v));
}

/// Decode a CBOR head at position `pos` of `data`, yielding the major type,
/// the argument and the position just past the head.
pub fn cbor_uint_decode(data: &[u8], pos: usize) -> (r: Option<(u8, u64, usize)>)
    requires
        pos <= data@.len(),
    ensures
        match r {
            Some((major, v, end)) => {
                &&& spec_cbor_uint_decode(data@.skip(pos as int)) == Some(
                    (major, v, end - pos),
                )
                &&& pos < end <= data@.len()
            },
            None => spec_cbor_uint_decode(data@.skip(pos as int)) is None,
        },
{
    let ghost tail = data@.skip(pos as int);
    if pos >= data.len() {
        return None;
    }
    assert(forall|i: int| 0 <= i < tail.len() ==> tail[i] == data@[pos + i]);
    let b0 = data[pos];
    let major: u8 = b0 >> 5;
    let ai: u8 = b0 & 0x1f;
    assert(major < 8) by (bit_vector)
        requires
            major == b0 >> 5,
    ;
    if ai < 24 {
        Some((major, ai as u64, pos + 1))
    } else if ai == 24 {
        if data.len() - pos >= 2 && data[pos + 1] >= 24 {
            Some((major, data[pos + 1] as u64, pos + 2))
        } else {
            None
        }
    } else if ai == 25 {
        if data.len() - pos >= 3 {
            let v: u64 = ((data[pos + 1] as u64) << 8) | (data[pos + 2] as u64);
            if v >= 0x100 {
                Some((major, v, pos + 3))
            } else {
                None
            }
        } else {
            None
        }
    } else if ai == 26 {
        if data.len() - pos >= 5 {
            let b1 = data[pos + 1];
            let b2 = data[pos + 2];
            let b3 = data[pos + 3];
            let b4 = data[pos + 4];
            let v: u64 = ((b1 as u64) << 24) | ((b2 as u64) << 16) | ((b3 as u64) << 8) | (
            b4 as u64);
            if v >= 0x10000 {
                Some((major, v, pos + 5))
            } else {
                None
            }
        } else {
            None
        }
    } else if ai == 27 {
        if data.len() - pos >= 9 {
            let b1 = data[pos + 1];
            let b2 = data[pos + 2];
            let b3 = data[pos + 3];
            let b4 = data[pos + 4];
            let b5 = data[pos + 5];
            let b6 = data[pos + 6];
            let b7 = data[pos + 7];
            let b8 = data[pos + 8];
            let v: u64 = ((b1 as u64) << 56) | ((b2 as u64) << 48) | ((b3 as u64) << 40) | ((
            b4 as u64) << 32) | ((b5 as u64) << 24) | ((b6 as u64) << 16) | ((b7 as u64) << 8) | (
            b8 as u64);
            if v >= 0x1_0000_0000 {
                Some((major, v, pos + 9))
            } else {
                None
            }
        } else {
            None
        }
    } else {
        None
    }
}

/// Decode a signed integer at position `pos` of `data`, yielding the value
/// and the position just past it.
pub fn cbor_int_decode(data: &[u8], pos: usize) -> (r: Option<(i64, usize)>)
    requires
        pos <= data@.len(),
    ensures
        match r {
            Some((v, end)) => {
                &&& spec_cbor_int_decode(data@.skip(pos as int)) == Some((v as int, end - pos))
                &&& pos < end <= data@.len()
            },
            None => spec_cbor_int_decode(data@.skip(pos as int)) is None,
        },
{
    match cbor_uint_decode(data, pos) {
        Some((major, v, end)) => {
            if major == 0 && v <= (i64::MAX as u64) {
                Some((v as i64, end))
            } else if major == 1 && v <= (i64::MAX as u64) {
                let g: i64 = -1 - (v as i64);
                Some((g, end))
            } else {
                None
            }
        },
        None => None,
    }
}

/// A canonical head followed by anything decodes back to exactly the major
/// type and argument it was built from, consuming exactly the head.
pub proof fn lemma_cbor_uint_round_trip(major: u8, v: u64, rest: Seq<u8>)
    requires
        major < 8,
    ensures
        spec_cbor_uint_decode(spec_cbor_uint(major, v) + rest) == Some(
            (major, v, spec_cbor_uint(major, v).len() as int),
        ),
{
    let enc = spec_cbor_uint(major, v);
    let data = enc + rest;
    let mb = (major << 5) as u8;
    if v < 24 {
        let b0 = (mb | (v as u8)) as u8;
        assert(data[0] == b0);
        assert(b0 >> 5 == major && (b0 & 0x1f) < 24 && ((b0 & 0x1f) as u64) == v) by (bit_vector)
            requires
                mb == (major << 5) as u8,
                b0 == (mb | (v as u8)) as u8,
                major < 8,
                v < 24,
        ;
    } else if v < 0x100 {
        let b0 = (mb | 24) as u8;
        assert(data[0] == b0 && data[1] == (v as u8));
        assert(b0 >> 5 == major && (b0 & 0x1f) == 24 && (v as u8) >= 24 && (((v as u8)) as u64)
            == v) by (bit_vector)
            requires
                mb == (major << 5) as u8,
                b0 == (mb | 24) as u8,
                major < 8,
                24 <= v < 0x100,
        ;
    } else if v < 0x10000 {
        let b0 = (mb | 25) as u8;
        assert(data[0] == b0 && data[1] == ((v >> 8) as u8) && data[2] == (v as u8));
        assert(b0 >> 5 == major && (b0 & 0x1f) == 25 && ((((v >> 8) as u8) as u64) << 8) | ((v
            as u8) as u64) == v) by (bit_vector)
            requires
                mb == (major << 5) as u8,
                b0 == (mb | 25) as u8,
                major < 8,
                0x100 <= v < 0x10000,
        ;
    } else if v < 0x1_0000_0000 {
        let b0 = (mb | 26) as u8;
        assert(data[0] == b0 && data[1] == ((v >> 24) as u8) && data[2] == ((v >> 16) as u8)
            && data[3] == ((v >> 8) as u8) && data[4] == (v as u8));
        assert(b0 >> 5 == major && (b0 & 0x1f) == 26 && ((((v >> 24) as u8) as u64) << 24) | ((((v
            >> 16) as u8) as u64) << 16) | ((((v >> 8) as u8) as u64) << 8) | ((v as u8) as u64)
            == v) by (bit_vector)
            requires
                mb == (major << 5) as u8,
                b0 == (mb | 26) as u8,
                major < 8,
                0x10000 <= v < 0x1_0000_0000,
        ;
    } else {
        let b0 = (mb | 27) as u8;
        assert(data[0] == b0 && data[1] == ((v >> 56) as u8) && data[2] == ((v >> 48) as u8)
            && data[3] == ((v >> 40) as u8) && data[4] == ((v >> 32) as u8) && data[5] == ((v >> 24)
            as u8) && data[6] == ((v >> 16) as u8) && data[7] == ((v >> 8) as u8) && data[8] == (v
            as u8));
        assert(b0 >> 5 == major && (b0 & 0x1f) == 27 && ((((v >> 56) as u8) as u64) << 56) | ((((v
            >> 48) as u8) as u64) << 48) | ((((v >> 40) as u8) as u64) << 40) | ((((v >> 32) as u8)
            as u64) << 32) | ((((v >> 24) as u8) as u64) << 24) | ((((v >> 16) as u8) as u64) << 16)
            | ((((v >> 8) as u8) as u64) << 8) | ((v as u8) as u64) == v) by (bit_vector)
            requires
                mb == (major << 5) as u8,
                b0 == (mb | 27) as u8,
                major < 8,
                0x1_0000_0000 <= v,
        ;
    }
}

/// The canonical encoding of a signed integer decodes back to it.
pub proof fn lemma_cbor_int_round_trip(v: int, rest: Seq<u8>)
    requires
        i64::MIN <= v <= i64::MAX,
    ensures
        spec_cbor_int_decode(spec_cbor_int(v) + rest) == Some(
            (v, spec_cbor_int(v).len() as int),
        ),
{
    if v >= 0 {
        lemma_cbor_uint_round_trip(0, v as u64, rest);
    } else {
        lemma_cbor_uint_round_trip(1, (-1 - v) as u64, rest);
    }
}

} // verus!
