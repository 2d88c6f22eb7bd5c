//! The destination's file format: the raw serialized bytes of a record,
//! written from offset zero and truncated to exactly this length. There
//! is no header, no version tag, no checksum and no append log.

use vstd::prelude::*;
use vstd::bytes::{
    lemma_auto_spec_u64_to_from_le_bytes, spec_u64_from_le_bytes, spec_u64_to_le_bytes,
    u64_from_le_bytes, u64_to_le_bytes,
};
use vstd::slice::slice_subrange;
use crate::record::Record;

verus! {

/// The serialized form of a record: sixteen bytes, each coordinate as a
/// little-endian two's-complement word, `pos_x` first.
pub open spec fn spec_encode(rec: Record) -> Seq<u8> {
    spec_u64_to_le_bytes(rec.pos_x as u64) + spec_u64_to_le_bytes(rec.pos_y as u64)
}

/// What stored bytes deserialize to: a record exactly when the length
/// is right, nothing otherwise.
pub open spec fn spec_decode(bytes: Seq<u8>) -> Option<Record> {
    if bytes.len() == 16 {
        Some(Record {
            pos_x: spec_u64_from_le_bytes(bytes.subrange(0, 8)) as i64,
            pos_y: spec_u64_from_le_bytes(bytes.subrange(8, 16)) as i64,
        })
    } else {
        None
    }
}

/// Serializes a record to the bytes the destination will hold.
pub fn encode(rec: &Record) -> (out: Vec<u8>)
    ensures
        out@ == spec_encode(*rec),
        out@.len() == 16,
{
    proof {
        lemma_auto_spec_u64_to_from_le_bytes();
    }
    let mut out = u64_to_le_bytes(rec.pos_x as u64);
    let mut tail = u64_to_le_bytes(rec.pos_y as u64);
    out.append(&mut tail);
    out
}

/// Deserializes stored bytes; rejects content of the wrong shape.
pub fn decode(bytes: &Vec<u8>) -> (r: Option<Record>)
    ensures
        r == spec_decode(bytes@),
{
    if bytes.len() != 16 {
        None
    } else {
        let xs = slice_subrange(bytes.as_slice(), 0, 8);
        let ys = slice_subrange(bytes.as_slice(), 8, 16);
        let x = u64_from_le_bytes(xs);
        let y = u64_from_le_bytes(ys);
        Some(Record { pos_x: x as i64, pos_y: y as i64 })
    }
}

/// Serialization round-trips: the bytes of any record deserialize back
/// to that record, so a destination holding exactly one record's bytes
/// is always complete and parseable.
pub proof fn lemma_encode_decode(rec: Record)
    ensures
        spec_decode(spec_encode(rec)) == Some(rec),
        spec_encode(rec).len() == 16,
{
    lemma_auto_spec_u64_to_from_le_bytes();
    let b = spec_encode(rec);
    assert(b.subrange(0, 8) =~= spec_u64_to_le_bytes(rec.pos_x as u64));
    assert(b.subrange(8, 16) =~= spec_u64_to_le_bytes(rec.pos_y as u64));
    let x = rec.pos_x;
    let y = rec.pos_y;
    assert(x as u64 as i64 == x) by (bit_vector);
    assert(y as u64 as i64 == y) by (bit_vector);
}

/// Serialization is canonical: whenever bytes deserialize to a record,
/// they are exactly that record's serialized form, so deserializable
/// content never mixes bytes of two different writes.
pub proof fn lemma_decode_encode(bytes: Seq<u8>, rec: Record)
    requires
        spec_decode(bytes) == Some(rec),
    ensures
        spec_encode(rec) == bytes,
{
    lemma_auto_spec_u64_to_from_le_bytes();
    let x = spec_u64_from_le_bytes(bytes.subrange(0, 8));
    let y = spec_u64_from_le_bytes(bytes.subrange(8, 16));
    assert(x as i64 as u64 == x) by (bit_vector);
    assert(y as i64 as u64 == y) by (bit_vector);
    assert(spec_encode(rec) =~= bytes);
}

} // verus!
